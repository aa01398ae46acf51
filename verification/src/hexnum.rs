//! Hexadecimal numbers as ASCII text.

use crate::decimal::PLUS;
use vstd::prelude::*;

verus! {

/// What a byte is worth as a hexadecimal digit, in either case; -1 for a
/// byte that is none.
pub open spec fn nibble_of(b: u8) -> int {
    if 0x30 <= b <= 0x39 {
        b - 0x30
    } else if 0x41 <= b <= 0x46 {
        b - 0x41 + 10
    } else if 0x61 <= b <= 0x66 {
        b - 0x61 + 10
    } else {
        -1
    }
}

/// Whether every byte of a text is a hexadecimal digit.
pub open spec fn all_nibbles(text: Seq<u8>) -> bool {
    forall|i: int| 0 <= i < text.len() ==> nibble_of(#[trigger] text[i]) >= 0
}

/// The number that a string of hexadecimal digits writes, most significant
/// digit first.
pub open spec fn nibbles_value(text: Seq<u8>) -> int
    decreases text.len(),
{
    if text.len() == 0 {
        0
    } else {
        nibbles_value(text.drop_last()) * 16 + nibble_of(text.last())
    }
}

/// The number that a text writes in hexadecimal, if it writes one of at most
/// `max`: an optional plus sign followed by at least one digit and nothing
/// else.
pub open spec fn hex_number_of(text: Seq<u8>, max: int) -> Option<int> {
    let body = if text.len() > 0 && text[0] == PLUS {
        text.drop_first()
    } else {
        text
    };
    if body.len() > 0 && all_nibbles(body) && nibbles_value(body) <= max {
        Some(nibbles_value(body))
    } else {
        None
    }
}

/// A string of hexadecimal digits writes a number that is not negative, and
/// a longer one writes no smaller a number than its beginning.
pub proof fn lemma_hex_prefix_value(text: Seq<u8>, k: int)
    requires
        0 <= k <= text.len(),
        all_nibbles(text),
    ensures
        0 <= nibbles_value(text.take(k)) <= nibbles_value(text),
    decreases text.len(),
{
    if text.len() == 0 {
        assert(text.take(k) == text);
    } else if k < text.len() {
        let shorter = text.drop_last();
        assert(shorter.take(k) == text.take(k));
        lemma_hex_prefix_value(shorter, k);
        lemma_hex_prefix_value(shorter, shorter.len() as int);
        assert(shorter.take(shorter.len() as int) == shorter);
        assert(nibble_of(text[text.len() - 1]) >= 0);
    } else {
        assert(text.take(k) == text);
        let shorter = text.drop_last();
        lemma_hex_prefix_value(shorter, shorter.len() as int);
        assert(shorter.take(shorter.len() as int) == shorter);
        assert(nibble_of(text[text.len() - 1]) >= 0);
    }
}

fn nibble(b: u8) -> (value: Option<u8>)
    ensures
        match value {
            Some(v) => nibble_of(b) == v && v < 16,
            None => nibble_of(b) == -1,
        },
{
    if b >= 0x30 && b <= 0x39 {
        Some(b - 0x30)
    } else if b >= 0x41 && b <= 0x46 {
        Some(b - 0x41 + 10)
    } else if b >= 0x61 && b <= 0x66 {
        Some(b - 0x61 + 10)
    } else {
        None
    }
}

/// Reads the whole of a text as a hexadecimal number of at most `max`.
pub fn parse_hex(text: &[u8], max: u64) -> (value: Option<u64>)
    ensures
        match value {
            Some(n) => hex_number_of(text@, max as int) == Some(n as int),
            None => hex_number_of(text@, max as int).is_none(),
        },
{
    let from: usize = if text.len() > 0 && text[0] == PLUS {
        1
    } else {
        0
    };
    let to = text.len();
    let ghost body = text@.subrange(from as int, to as int);
    assert(from == 1 ==> body == text@.drop_first());
    assert(from == 0 ==> body == text@);
    if from == to {
        return None;
    }
    let mut value: u64 = 0;
    let mut i: usize = from;
    assert(body.take(0) == Seq::<u8>::empty());
    while i < to
        invariant
            from <= i <= to,
            to == text@.len(),
            body == text@.subrange(from as int, to as int),
            body == if text@.len() > 0 && text@[0] == PLUS {
                text@.drop_first()
            } else {
                text@
            },
            body.len() > 0,
            all_nibbles(body.take(i - from)),
            value == nibbles_value(body.take(i - from)),
            value <= max,
        decreases to - i,
    {
        let b = text[i];
        assert(b == body[i - from]);
        let ghost seen = body.take(i - from + 1);
        assert(seen.drop_last() == body.take(i - from));
        assert(seen.last() == b);
        let d: u64 = match nibble(b) {
            Some(d) => d as u64,
            None => {
                assert(!all_nibbles(body));
                return None;
            },
        };
        assert(all_nibbles(seen)) by {
            assert forall|k: int| 0 <= k < seen.len() implies nibble_of(#[trigger] seen[k])
                >= 0 by {
                if k < seen.len() - 1 {
                    assert(seen[k] == body.take(i - from)[k]);
                }
            }
        }
        if d > max || value > (max - d) / 16 {
            proof {
                assert(nibbles_value(seen) == value * 16 + d);
                assert(nibbles_value(seen) > max);
                if all_nibbles(body) {
                    lemma_hex_prefix_value(body, i - from + 1);
                }
            }
            return None;
        }
        value = value * 16 + d;
        i += 1;
    }
    assert(body.take(i - from) == body);
    Some(value)
}

/// Reads a text as a hexadecimal number of one byte, or gives `default`
/// where it writes none.
pub fn parse_hex_u8_or(text: &[u8], default: u8) -> (value: u8)
    ensures
        value == match hex_number_of(text@, u8::MAX as int) {
            Some(n) => n as u8,
            None => default,
        },
{
    match parse_hex(text, 0xFF) {
        Some(n) => n as u8,
        None => default,
    }
}

/// Reads a text as a hexadecimal number of two bytes, or gives `default`
/// where it writes none.
pub fn parse_hex_u16_or(text: &[u8], default: u16) -> (value: u16)
    ensures
        value == match hex_number_of(text@, u16::MAX as int) {
            Some(n) => n as u16,
            None => default,
        },
{
    match parse_hex(text, 0xFFFF) {
        Some(n) => n as u16,
        None => default,
    }
}

} // verus!
