use apollo_fusion::decimal::{
    collect_digits, parse_i16_or, parse_signed, parse_u16_or, parse_u32_or, parse_u8_or,
    parse_unsigned,
};
use apollo_fusion::frame::MAX_PAYLOAD;
use apollo_fusion::packets::adcs::{adcs_rates_message, adcs_status_message, AdcsRates, AdcsStatus};
use apollo_fusion::packets::errors::{
    build_errors_message, create_errors_message, errors_count, stamp_field,
};
use apollo_fusion::packets::gps::{gps_misc_message, gps_vector_message, GpsMisc, GpsVector};
use apollo_fusion::packets::obc::obc_message;
use apollo_fusion::packets::power::{
    power_cells_message, power_panels_message, power_status_message, PowerCells, PowerPanels,
    PowerStatus,
};
use apollo_fusion::packets::supmcu::{
    module_names, parse_reset, parse_uptime, supmcu_message, ModuleReading, MODULE_COUNT,
};
use apollo_fusion::packets::temperature::{
    decidegrees_to_celsius, decikelvin_to_celsius, temp_message, temp_range_flags, Temperatures,
};
use apollo_fusion::scan::{find_first, find_last, find_piece, find_within};

#[test]
fn numbers_with_defaults() {
    assert_eq!(parse_u8_or(b"17", 9), 17);
    assert_eq!(parse_u8_or(b"255", 9), 255);
    assert_eq!(parse_u8_or(b"256", 9), 9);
    assert_eq!(parse_u8_or(b"", 9), 9);
    assert_eq!(parse_u8_or(b"\"17\"", 9), 9);
    assert_eq!(parse_u16_or(b"65535", 1), 65535);
    assert_eq!(parse_u16_or(b"65536", 1), 1);
    assert_eq!(parse_u16_or(b"-3", 0xFFFF), 0xFFFF);
    assert_eq!(parse_u32_or(b"4294967295", 0), u32::MAX);
    assert_eq!(parse_u32_or(b"4294967296", 0), 0);
    assert_eq!(parse_u32_or(b"1565042843", 0), 1_565_042_843);
    assert_eq!(parse_i16_or(b"-32768", 0), -32768);
    assert_eq!(parse_i16_or(b"-32769", 7), 7);
    assert_eq!(parse_i16_or(b"32767", 0), 32767);
    assert_eq!(parse_i16_or(b"32768", 0x7FFF), 0x7FFF);
    assert_eq!(parse_i16_or(b"+12", 0), 12);
    assert_eq!(parse_i16_or(b"-0", 5), 0);
    assert_eq!(parse_i16_or(b"-", 5), 5);
    assert_eq!(parse_i16_or(b"--1", 5), 5);
    assert_eq!(parse_i16_or(b"-+1", 5), 5);
    assert_eq!(parse_i16_or(b"1.5", 5), 5);
}

#[test]
fn numbers_agree_with_the_standard_library() {
    let texts = [
        "", "0", "00", "+0", "-0", "1", "+1", "-1", "255", "256", "65535", "65536", "32767",
        "32768", "-32768", "-32769", "4294967295", "4294967296", "18446744073709551615",
        "18446744073709551616", "9223372036854775807", "9223372036854775808",
        "-9223372036854775808", "-9223372036854775809", " 1", "1 ", "+", "-", "+-1", "1e3",
        "0x10", "१२", "1_000",
    ];
    for text in texts {
        let bytes = text.as_bytes();
        assert_eq!(parse_unsigned(bytes, u64::MAX), text.parse::<u64>().ok(), "{:?}", text);
        assert_eq!(
            parse_unsigned(bytes, u32::MAX as u64),
            text.parse::<u32>().ok().map(u64::from),
            "{:?}",
            text
        );
        assert_eq!(
            parse_unsigned(bytes, 255),
            text.parse::<u8>().ok().map(u64::from),
            "{:?}",
            text
        );
        assert_eq!(
            parse_signed(bytes, i64::MAX as u64, i64::MAX as u64),
            text.parse::<i64>().ok(),
            "{:?}",
            text
        );
        assert_eq!(
            parse_signed(bytes, 0x7FFF, 0x7FFF),
            text.parse::<i16>().ok().map(i64::from),
            "{:?}",
            text
        );
    }
}

#[test]
fn digits_are_picked_out() {
    assert_eq!(collect_digits(b"a1b22c", 0, 6), b"122".to_vec());
    assert_eq!(collect_digits(b"a1b22c", 2, 5), b"22".to_vec());
    assert_eq!(collect_digits(b"abc", 0, 3), Vec::<u8>::new());
    assert_eq!(collect_digits(b"123", 1, 1), Vec::<u8>::new());
}

#[test]
fn scanning() {
    let text = b"a.b..c";
    assert_eq!(find_first(text, b'.', 0), 1);
    assert_eq!(find_first(text, b'.', 2), 3);
    assert_eq!(find_first(text, b'.', 5), 6);
    assert_eq!(find_first(text, b'x', 0), 6);
    assert_eq!(find_within(text, b'.', 2, 3), 3);
    assert_eq!(find_within(text, b'c', 0, 5), 5);
    assert_eq!(find_last(text, b'.', 6), Some(4));
    assert_eq!(find_last(text, b'.', 4), Some(3));
    assert_eq!(find_last(text, b'.', 1), None);
    assert_eq!(find_last(text, b'x', 6), None);
    assert_eq!(find_piece(text, b'.', 0, 6, 0), Some((0, 1)));
    assert_eq!(find_piece(text, b'.', 0, 6, 1), Some((2, 3)));
    assert_eq!(find_piece(text, b'.', 0, 6, 2), Some((4, 4)));
    assert_eq!(find_piece(text, b'.', 0, 6, 3), Some((5, 6)));
    assert_eq!(find_piece(text, b'.', 0, 6, 4), None);
    assert_eq!(find_piece(text, b'.', 0, 3, 1), Some((2, 3)));
    assert_eq!(find_piece(text, b'.', 0, 3, 2), None);
    assert_eq!(find_piece(b"", b'.', 0, 0, 0), Some((0, 0)));
    assert_eq!(find_piece(b"", b'.', 0, 0, 1), None);
    assert_eq!(find_piece(b"a.", b'.', 0, 2, 1), Some((2, 2)));
}

#[test]
fn pieces_agree_with_split() {
    for text in ["", "a", "a b", " a  b ", "one two three four", "  ", "x y"] {
        let pieces: Vec<&str> = text.split(' ').collect();
        for n in 0..pieces.len() + 2 {
            let found = find_piece(text.as_bytes(), b' ', 0, text.len(), n)
                .map(|(from, to)| &text[from..to]);
            assert_eq!(found, pieces.get(n).copied(), "{:?} piece {}", text, n);
        }
    }
}

#[test]
fn supmcu_payload() {
    assert_eq!(MODULE_COUNT, 6);
    assert_eq!(module_names(), ["aim2", "bim", "pim", "sim", "rhm", "bm2"]);
    let readings = [
        ModuleReading { uptime: 1, reset: 0x0001 },
        ModuleReading { uptime: 2, reset: 0x0080 },
        ModuleReading { uptime: 3, reset: 0x1234 },
        ModuleReading { uptime: 0, reset: 0xFFFF },
        ModuleReading { uptime: 255, reset: 0 },
        ModuleReading { uptime: 6, reset: 0xABCD },
    ];
    let message = supmcu_message(&readings);
    assert_eq!(
        message,
        vec![1, 0x01, 0x00, 2, 0x80, 0x00, 3, 0x34, 0x12, 0, 0xFF, 0xFF, 255, 0, 0, 6, 0xCD, 0xAB]
    );
    assert!(message.len() <= MAX_PAYLOAD);
    assert_eq!(supmcu_message(&[]), Vec::<u8>::new());
}

#[test]
fn supmcu_answers() {
    assert_eq!(parse_uptime(Some(b"17")), 17);
    assert_eq!(parse_uptime(Some(b"256")), 0);
    assert_eq!(parse_uptime(Some(b"1000")), 232);
    assert_eq!(parse_uptime(Some(b"18446744073709551615")), 255);
    assert_eq!(parse_uptime(Some(b"18446744073709551616")), 0);
    assert_eq!(parse_uptime(Some(b"")), 0);
    assert_eq!(parse_uptime(Some(b"soon")), 0);
    assert_eq!(parse_uptime(None), 0);
    assert_eq!(parse_reset(Some(b"128")), 128);
    assert_eq!(parse_reset(Some(b"65535")), 65535);
    assert_eq!(parse_reset(Some(b"65536")), 0xFFFF);
    assert_eq!(parse_reset(Some(b"")), 0xFFFF);
    assert_eq!(parse_reset(None), 0xFFFF);
}

#[test]
fn obc_payload() {
    assert_eq!(obc_message(42, 17, false), vec![42, 17, 0]);
    assert_eq!(obc_message(0, 100, true), vec![0, 100, 1]);
}

#[test]
fn adcs_payloads() {
    let status = AdcsStatus {
        gps_time: 0x11223344,
        good_cmd_count: 0x0102,
        bad_cmd_count: 0x0304,
        bad_checksum_count: 0x0506,
        last_command: 0x77,
        acs_mode: 3,
        attdet_mode: 255,
        eclipse: 1,
        angle_to_go_bits: 1.5f32.to_bits(),
    };
    let mut expected = vec![0x44, 0x33, 0x22, 0x11, 0x02, 0x01, 0x04, 0x03, 0x06, 0x05, 0x77, 3, 255, 1];
    expected.extend_from_slice(&1.5f32.to_le_bytes());
    assert_eq!(adcs_status_message(&status), expected);
    assert_eq!(expected.len(), 18);

    let rates = AdcsRates {
        body_rate_x_bits: 0.25f32.to_bits(),
        body_rate_y_bits: (-0.5f32).to_bits(),
        body_rate_z_bits: 0,
        wheel_speed_x: 1,
        wheel_speed_y: -1,
        wheel_speed_z: i16::MIN,
        wheel_bias_x: i16::MAX,
        wheel_bias_y: -256,
        wheel_bias_z: 256,
        qbo_0: 0,
        qbo_1: -2,
        qbo_2: 1000,
        qbo_3: -1000,
    };
    let mut expected = Vec::new();
    expected.extend_from_slice(&0.25f32.to_le_bytes());
    expected.extend_from_slice(&(-0.5f32).to_le_bytes());
    expected.extend_from_slice(&0f32.to_le_bytes());
    for n in [1i16, -1, i16::MIN, i16::MAX, -256, 256, 0, -2, 1000, -1000] {
        expected.extend_from_slice(&n.to_le_bytes());
    }
    assert_eq!(adcs_rates_message(&rates), expected);
    assert_eq!(expected.len(), 32);
}

#[test]
fn gps_payloads() {
    let vector = GpsVector {
        status: 0,
        kind: 16,
        x_bits: 6_871_000.5f64.to_bits(),
        y_bits: (-12.25f64).to_bits(),
        z_bits: u64::MAX,
    };
    let mut expected = vec![0, 16, 0];
    expected.extend_from_slice(&6_871_000.5f64.to_le_bytes());
    expected.extend_from_slice(&(-12.25f64).to_le_bytes());
    expected.extend_from_slice(&[0xFF; 8]);
    assert_eq!(gps_vector_message(&vector), expected);
    assert_eq!(expected.len(), 27);

    let misc = GpsMisc {
        time_status: 180,
        time_week: 2065,
        time_ms: 123_456_789,
        system_status: 0x8004_0001,
        gps_status: 0x000D,
        power_status: 2,
        power_3v_usb_bits: 0.9f32.to_bits(),
        power: 1,
        lock_time_week: 2064,
        lock_time_ms: 604_799_999,
    };
    let mut expected = vec![180];
    expected.extend_from_slice(&2065u16.to_le_bytes());
    expected.extend_from_slice(&123_456_789u32.to_le_bytes());
    expected.extend_from_slice(&0x8004_0001u32.to_le_bytes());
    expected.extend_from_slice(&0x000Du16.to_le_bytes());
    expected.push(2);
    expected.extend_from_slice(&0.9f32.to_le_bytes());
    expected.push(1);
    expected.extend_from_slice(&2064u16.to_le_bytes());
    expected.extend_from_slice(&604_799_999u32.to_le_bytes());
    assert_eq!(gps_misc_message(&misc), expected);
    assert_eq!(expected.len(), 25);
}

#[test]
fn power_payloads() {
    let status = PowerStatus {
        voltage: 16_000,
        current: -250,
        pf_status: 0xFFFF,
        mb_reset_bo: 1,
        mb_reset_wdt: 2,
        mb_reset_sw: 3,
        db_reset_bo: 4,
        db_reset_wdt: 5,
        db_reset_sw: 6,
        remaining_cap: 2500,
        full_cap: 2600,
        charge_voltage: 16_800,
        charge_current: 1000,
        voltage_12v: 12_012,
        current_12v: 30,
        voltage_5v: 5003,
        current_5v: 700,
        voltage_3v: 3301,
        current_3v: -1,
    };
    let mut expected = Vec::new();
    expected.extend_from_slice(&16_000u16.to_le_bytes());
    expected.extend_from_slice(&(-250i16).to_le_bytes());
    expected.extend_from_slice(&0xFFFFu16.to_le_bytes());
    expected.extend_from_slice(&[1, 2, 3, 4, 5, 6]);
    for n in [2500u16, 2600, 16_800, 1000] {
        expected.extend_from_slice(&n.to_le_bytes());
    }
    for n in [12_012i16, 30, 5003, 700, 3301, -1] {
        expected.extend_from_slice(&n.to_le_bytes());
    }
    assert_eq!(power_status_message(&status), expected);
    assert_eq!(expected.len(), 32);

    let cells = PowerCells {
        voltage_cell1: 4001,
        voltage_cell2: 4002,
        voltage_cell3: 4003,
        voltage_cell4: 0xFFFF,
        voltage_bcr1: 9000,
        current_bcr1a: 10,
        current_bcr1b: -10,
        voltage_bcr2: -9000,
        current_bcr2a: 0,
        current_bcr2b: i16::MIN,
    };
    let mut expected = Vec::new();
    for n in [4001u16, 4002, 4003, 0xFFFF] {
        expected.extend_from_slice(&n.to_le_bytes());
    }
    for n in [9000i16, 10, -10, -9000, 0, i16::MIN] {
        expected.extend_from_slice(&n.to_le_bytes());
    }
    assert_eq!(power_cells_message(&cells), expected);
    assert_eq!(expected.len(), 20);

    let panels = PowerPanels {
        voltage_bcr6: 1,
        current_bcr6a: 2,
        current_bcr6b: 3,
        voltage_bcr7: 4,
        current_bcr7a: 5,
        current_bcr7b: 6,
        voltage_bcr8: 7,
        current_bcr8a: 8,
        current_bcr8b: 9,
        voltage_bcr9: 10,
        current_bcr9a: -11,
        current_bcr9b: 0x1234,
    };
    let mut expected = Vec::new();
    for n in [1i16, 2, 3, 4, 5, 6, 7, 8, 9, 10, -11, 0x1234] {
        expected.extend_from_slice(&n.to_le_bytes());
    }
    assert_eq!(power_panels_message(&panels), expected);
    assert_eq!(expected.len(), 24);
}

#[test]
fn temperature_payload() {
    let t = Temperatures {
        eps_mb: 1,
        eps_db: 2,
        eps_bcr2a: 3,
        eps_bcr2b: 4,
        eps_bcr8a: 5,
        eps_bcr8b: 6,
        eps_bcr9a: 7,
        eps_bcr9b: 8,
        mai_gyro: 9,
        mai_motor: 10,
        bim0: 11,
        bim1: 12,
        bim2: 13,
        bim3: 14,
        bim4: 15,
        bim5: 16,
        bm2: 17,
        bm2_ts1: 18,
        bm2_ts2: 19,
        bm2_range: 20,
    };
    assert_eq!(temp_message(&t), (1..=20).collect::<Vec<u8>>());
}

#[test]
fn temperature_conversions() {
    assert_eq!(decikelvin_to_celsius(2730), 0);
    assert_eq!(decikelvin_to_celsius(2739), 0);
    assert_eq!(decikelvin_to_celsius(2980), 25);
    assert_eq!(decikelvin_to_celsius(2720), (-1i8) as u8);
    assert_eq!(decikelvin_to_celsius(0), (-273i16) as u8);
    assert_eq!(decikelvin_to_celsius(u16::MAX), ((6553 - 273) as u16) as u8);
    for raw in [0u16, 1, 9, 10, 2729, 2730, 2731, 5290, 5300, 40000, u16::MAX] {
        assert_eq!(decikelvin_to_celsius(raw), (raw / 10).wrapping_sub(273) as u8, "{}", raw);
    }
    assert_eq!(decidegrees_to_celsius(250), 25);
    assert_eq!(decidegrees_to_celsius(259), 25);
    assert_eq!(decidegrees_to_celsius(-250), (-25i8) as u8);
    assert_eq!(decidegrees_to_celsius(-259), (-25i8) as u8);
    assert_eq!(decidegrees_to_celsius(-9), 0);
    for raw in [i16::MIN, -32760, -2561, -2560, -2559, -11, -10, -9, -1, 0, 1, 9, 10, 2559, 2560, i16::MAX] {
        assert_eq!(decidegrees_to_celsius(raw), (raw / 10) as u8, "{}", raw);
    }
    assert_eq!(temp_range_flags(0x0004), 0x04);
    assert_eq!(temp_range_flags(0xFFFF), 0x3F);
    assert_eq!(temp_range_flags(0x0140), 0x00);
    assert_eq!(temp_range_flags(0x0161), 0x21);
}

#[test]
fn error_counts() {
    assert_eq!(errors_count(b"12 /var/log/app-warn.log\n"), 12);
    assert_eq!(errors_count(b"0 /var/log/app-warn.log\n"), 0);
    assert_eq!(errors_count(b"65535 /var/log/app-warn.log\n"), 65535);
    assert_eq!(errors_count(b"65536 /var/log/app-warn.log\n"), 0xFFFF);
    assert_eq!(errors_count(b""), 0xFFFF);
    assert_eq!(errors_count(b"wc: no such file\n"), 0xFFFF);
    // Every digit of the output counts, those of the file's name too.
    assert_eq!(errors_count(b"12 /var/log/app2.log\n"), 122);
}

#[test]
fn error_time_field() {
    assert_eq!(stamp_field(None), 0);
    assert_eq!(stamp_field(Some(0)), 0);
    assert_eq!(stamp_field(Some(65535)), 65535);
    assert_eq!(stamp_field(Some(65536)), 0);
    assert_eq!(stamp_field(Some(1_565_042_843)), 1_565_042_843i64 as u16);
    assert_eq!(stamp_field(Some(-1)), 0xFFFF);
    assert_eq!(stamp_field(Some(-65536)), 0);
    assert_eq!(stamp_field(Some(i64::MIN)), 0);
    assert_eq!(stamp_field(Some(i64::MAX)), 0xFFFF);
}

#[test]
fn error_payload_from_parts() {
    let line = b"source-name-long:the message text is long enough to cut";
    // The message lies behind the colon; its first byte is dropped.
    let message = build_errors_message(3, Some(0x1_0203), line, (0, 16), (16, line.len()));
    let mut expected = vec![3, 0, 0x03, 0x02];
    expected.extend_from_slice(b"source-n");
    expected.extend_from_slice(b"the message text is lo");
    assert_eq!(message, expected);
    assert_eq!(message.len(), 34);

    let message = build_errors_message(0xFFFF, None, b"abcdefgh short", (0, 7), (8, 14));
    let mut expected = vec![0xFF, 0xFF, 0, 0];
    expected.extend_from_slice(b"abcdefg");
    expected.extend_from_slice(b" short");
    assert_eq!(message, expected);

    // Eight bytes of source go in whole, twenty-two of message too.
    let line = b"12345678|1234567890123456789012";
    let message = build_errors_message(1, None, line, (0, 8), (9, 31));
    let mut expected = vec![1, 0, 0, 0];
    expected.extend_from_slice(b"12345678");
    expected.extend_from_slice(b"1234567890123456789012");
    assert_eq!(message, expected);

    assert_eq!(build_errors_message(1, None, b"", (0, 0), (0, 0)), vec![1, 0, 0, 0]);
}

#[test]
fn error_payload_from_a_log_line() {
    let line = b"2019-08-05T21:27:23.123456+00:00 Kubos mai400-service: <error> Failed to read the gyroscope";
    let message = create_errors_message(b"7 /var/log/kubos-warn.log\n", line);
    // 2019-08-05T21:27:23Z is 1565040443 seconds after the epoch.
    let seconds = 1_565_040_443u64;
    let mut expected = vec![7, 0];
    expected.extend_from_slice(&((seconds & 0xFFFF) as u16).to_le_bytes());
    expected.extend_from_slice(b"mai400-s");
    expected.extend_from_slice(b"Failed to read the gyr");
    assert_eq!(message, expected);
}

#[test]
fn error_time_is_taken_in_utc() {
    let utc = create_errors_message(b"1", b"2019-08-05T21:27:23Z host src: <e> m");
    let east = create_errors_message(b"1", b"2019-08-05T23:27:23+02:00 host src: <e> m");
    assert_eq!(utc, east);
    assert_eq!(&utc[2..4], &(1_565_040_443u64 as u16).to_le_bytes());
    assert_eq!(&utc[4..], b"src: m");
}

#[test]
fn error_line_without_its_parts() {
    assert_eq!(create_errors_message(b"", b""), vec![0xFF, 0xFF, 0, 0]);
    // No time that can be read, no source, no message.
    assert_eq!(create_errors_message(b"2", b"garbage"), vec![2, 0, 0, 0]);
    // A short message keeps its leading space.
    let message = create_errors_message(b"2", b"yesterday host app> oops");
    let mut expected = vec![2, 0, 0, 0];
    expected.extend_from_slice(b"app");
    expected.extend_from_slice(b" oops");
    assert_eq!(message, expected);
    // Bytes that are no text give no time.
    assert_eq!(create_errors_message(b"2", &[0xFF, 0xFE, b' ', b'h', b' ', b's']), vec![2, 0, 0, 0, b's']);
}
