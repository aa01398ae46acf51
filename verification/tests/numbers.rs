use apollo_fusion::hexnum::{parse_hex, parse_hex_u16_or, parse_hex_u8_or};
use apollo_fusion::text::is_on;

#[test]
fn hexadecimal_numbers() {
    assert_eq!(parse_hex(b"0", u64::MAX), Some(0));
    assert_eq!(parse_hex(b"ff", u64::MAX), Some(255));
    assert_eq!(parse_hex(b"FF", u64::MAX), Some(255));
    assert_eq!(parse_hex(b"aBcD", u64::MAX), Some(0xABCD));
    assert_eq!(parse_hex(b"+1f", u64::MAX), Some(0x1F));
    assert_eq!(parse_hex(b"000d", u64::MAX), Some(13));
    assert_eq!(parse_hex(b"ffffffffffffffff", u64::MAX), Some(u64::MAX));
    assert_eq!(parse_hex(b"10000000000000000", u64::MAX), None);
    assert_eq!(parse_hex(b"100", 0xFF), None);
    assert_eq!(parse_hex(b"", u64::MAX), None);
    assert_eq!(parse_hex(b"+", u64::MAX), None);
    assert_eq!(parse_hex(b"0x1f", u64::MAX), None);
    assert_eq!(parse_hex(b"1g", u64::MAX), None);
    assert_eq!(parse_hex(b"-1", u64::MAX), None);
    assert_eq!(parse_hex(b" 1", u64::MAX), None);
}

#[test]
fn hexadecimal_agrees_with_the_standard_library() {
    let texts = [
        "", "0", "9", "a", "f", "g", "A", "F", "G", "@", "`", "/", ":", "10", "ff", "100", "ffff",
        "10000", "+ff", "-ff", "++1", "0x10", "dead", "BEEF", "ffffffffffffffff",
        "10000000000000000", "1 ", "١",
    ];
    for text in texts {
        let bytes = text.as_bytes();
        assert_eq!(parse_hex(bytes, u64::MAX), u64::from_str_radix(text, 16).ok(), "{:?}", text);
        assert_eq!(
            parse_hex(bytes, 0xFFFF),
            u16::from_str_radix(text, 16).ok().map(u64::from),
            "{:?}",
            text
        );
        assert_eq!(parse_hex_u16_or(bytes, 7), u16::from_str_radix(text, 16).unwrap_or(7));
        assert_eq!(parse_hex_u8_or(bytes, 7), u8::from_str_radix(text, 16).unwrap_or(7));
    }
}

#[test]
fn power_state_in_any_case() {
    for text in ["on", "ON", "On", "oN"] {
        assert!(is_on(text), "{}", text);
    }
    for text in ["", "o", "off", "OFF", "onn", " on", "on ", "0n", "ön", "no"] {
        assert!(!is_on(text), "{}", text);
    }
    for text in ["on", "ON", "On", "oN", "", "off", "OFF", "onn", "ÖN", "K"] {
        assert_eq!(is_on(text), text.to_lowercase() == "on", "{}", text);
    }
}
