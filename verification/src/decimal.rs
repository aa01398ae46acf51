//! Decimal numbers as ASCII text.

use vstd::prelude::*;

verus! {

/// The ASCII code of the digit zero.
pub const ZERO: u8 = 0x30;

/// The ASCII code of the plus sign.
pub const PLUS: u8 = 0x2b;

/// The ASCII code of the minus sign.
pub const MINUS: u8 = 0x2d;

/// Whether a byte is an ASCII digit.
pub open spec fn is_digit(b: u8) -> bool {
    0x30 <= b <= 0x39
}

/// Whether every byte of a text is an ASCII digit.
pub open spec fn all_digits(text: Seq<u8>) -> bool {
    forall|i: int| 0 <= i < text.len() ==> is_digit(#[trigger] text[i])
}

/// The number that a string of digits writes, most significant digit first.
pub open spec fn digits_value(text: Seq<u8>) -> nat
    decreases text.len(),
{
    if text.len() == 0 {
        0
    } else {
        digits_value(text.drop_last()) * 10 + (text.last() - ZERO) as nat
    }
}

/// The digits of a text, in their order.
pub open spec fn digits_in(text: Seq<u8>) -> Seq<u8>
    decreases text.len(),
{
    if text.len() == 0 {
        Seq::empty()
    } else if is_digit(text.last()) {
        digits_in(text.drop_last()).push(text.last())
    } else {
        digits_in(text.drop_last())
    }
}

/// The digits of a number after an optional plus sign.
pub open spec fn unsigned_body(text: Seq<u8>) -> Seq<u8> {
    if text.len() > 0 && text[0] == PLUS {
        text.drop_first()
    } else {
        text
    }
}

/// The number that a text writes, if it writes one of at most `max`: an
/// optional plus sign followed by at least one digit and nothing else.
pub open spec fn number_of(text: Seq<u8>, max: int) -> Option<int> {
    let body = unsigned_body(text);
    if body.len() > 0 && all_digits(body) && digits_value(body) <= max {
        Some(digits_value(body) as int)
    } else {
        None
    }
}

/// The number that a field writes, with every malformed field read as zero.
pub open spec fn field_value(text: Seq<u8>, max: int) -> int {
    match number_of(text, max) {
        Some(n) => n,
        None => 0,
    }
}

/// The number that a text writes, if it writes one from `min` to `max`: an
/// optional sign followed by at least one digit and nothing else.
pub open spec fn signed_of(text: Seq<u8>, min: int, max: int) -> Option<int> {
    if text.len() > 0 && text[0] == MINUS {
        let body = text.drop_first();
        if body.len() > 0 && all_digits(body) && -digits_value(body) >= min {
            Some(-(digits_value(body) as int))
        } else {
            None
        }
    } else {
        number_of(text, max)
    }
}

/// The shortest decimal text of a number.
pub open spec fn decimal_of(n: nat) -> Seq<u8>
    decreases n,
{
    if n < 10 {
        seq![(ZERO + n) as u8]
    } else {
        decimal_of(n / 10).push((ZERO + n % 10) as u8)
    }
}

/// A longer string of digits writes no smaller a number than its beginning.
pub proof fn lemma_prefix_value(text: Seq<u8>, k: int)
    requires
        0 <= k <= text.len(),
        all_digits(text),
    ensures
        digits_value(text.take(k)) <= digits_value(text),
    decreases text.len(),
{
    if k < text.len() {
        let shorter = text.drop_last();
        assert(shorter.take(k) == text.take(k));
        lemma_prefix_value(shorter, k);
        assert(is_digit(text[text.len() - 1]));
    } else {
        assert(text.take(k) == text);
    }
}

/// The decimal text of a number is made of digits, is not empty, and writes
/// that number.
pub proof fn lemma_decimal_roundtrip(n: nat)
    ensures
        decimal_of(n).len() >= 1,
        all_digits(decimal_of(n)),
        digits_value(decimal_of(n)) == n,
    decreases n,
{
    if n < 10 {
        let text = decimal_of(n);
        assert(text.drop_last() == Seq::<u8>::empty());
        assert(digits_value(text.drop_last()) == 0);
    } else {
        lemma_decimal_roundtrip(n / 10);
        let head = decimal_of(n / 10);
        let text = decimal_of(n);
        assert(text.drop_last() == head);
        assert(text.last() == (ZERO + n % 10) as u8);
    }
}

/// The decimal text of a number that fits is a well-formed field, and reads
/// back as the number.
pub proof fn lemma_field_roundtrip(n: nat, max: int)
    requires
        n <= max,
    ensures
        field_value(decimal_of(n), max) == n,
{
    lemma_decimal_roundtrip(n);
    let text = decimal_of(n);
    assert(is_digit(text[0]));
    assert(unsigned_body(text) == text);
}

/// Reads the digits that lie in `text` from `from` up to `to`: their number,
/// if there is a digit, there are only digits, and the number is at most
/// `max`.
fn parse_digits(text: &[u8], from: usize, to: usize, max: u64) -> (value: Option<u64>)
    requires
        from <= to <= text@.len(),
    ensures
        ({
            let body = text@.subrange(from as int, to as int);
            value == if body.len() > 0 && all_digits(body) && digits_value(body) <= max {
                Some(digits_value(body) as u64)
            } else {
                None
            }
        }),
{
    let ghost body = text@.subrange(from as int, to as int);
    if from == to {
        return None;
    }
    let mut value: u64 = 0;
    let mut i: usize = from;
    assert(body.take(0) == Seq::<u8>::empty());
    while i < to
        invariant
            from <= i <= to <= text@.len(),
            body == text@.subrange(from as int, to as int),
            body.len() > 0,
            all_digits(body.take(i - from)),
            value == digits_value(body.take(i - from)),
            value <= max,
        decreases to - i,
    {
        let b = text[i];
        assert(b == body[i - from]);
        let ghost seen = body.take(i - from + 1);
        assert(seen.drop_last() == body.take(i - from));
        assert(seen.last() == b);
        if b < 0x30 || b > 0x39 {
            assert(!all_digits(body));
            return None;
        }
        let d: u64 = (b - ZERO) as u64;
        assert(all_digits(seen)) by {
            assert forall|k: int| 0 <= k < seen.len() implies is_digit(#[trigger] seen[k]) by {
                if k < seen.len() - 1 {
                    assert(seen[k] == body.take(i - from)[k]);
                }
            }
        }
        if d > max || value > (max - d) / 10 {
            proof {
                assert(digits_value(seen) == value * 10 + d);
                assert(digits_value(seen) > max);
                if all_digits(body) {
                    lemma_prefix_value(body, i - from + 1);
                }
            }
            return None;
        }
        value = value * 10 + d;
        i += 1;
    }
    assert(body.take(i - from) == body);
    Some(value)
}

/// Reads the number that lies in `text` from `from` up to `to`.
pub fn parse_number(text: &[u8], from: usize, to: usize, max: u64) -> (value: Option<u64>)
    requires
        from <= to <= text@.len(),
    ensures
        match value {
            Some(n) => number_of(text@.subrange(from as int, to as int), max as int) == Some(
                n as int,
            ),
            None => number_of(text@.subrange(from as int, to as int), max as int).is_none(),
        },
{
    let ghost field = text@.subrange(from as int, to as int);
    let begin = if from < to && text[from] == PLUS {
        from + 1
    } else {
        from
    };
    assert(unsigned_body(field) == text@.subrange(begin as int, to as int));
    parse_digits(text, begin, to, max)
}

/// Reads the field that lies in `text` from `from` up to `to`, with every
/// malformed field read as zero.
pub fn parse_field(text: &[u8], from: usize, to: usize, max: u64) -> (value: u64)
    requires
        from <= to <= text@.len(),
    ensures
        value == field_value(text@.subrange(from as int, to as int), max as int),
{
    match parse_number(text, from, to, max) {
        Some(n) => n,
        None => 0,
    }
}

/// Reads the whole of a text as a number of at most `max`.
pub fn parse_unsigned(text: &[u8], max: u64) -> (value: Option<u64>)
    ensures
        match value {
            Some(n) => number_of(text@, max as int) == Some(n as int),
            None => number_of(text@, max as int).is_none(),
        },
{
    assert(text@.subrange(0, text@.len() as int) == text@);
    parse_number(text, 0, text.len(), max)
}

/// Reads the whole of a text as a number from `-below - 1` to `max`, where
/// `below` is at most `i64::MAX`.
pub fn parse_signed(text: &[u8], below: u64, max: u64) -> (value: Option<i64>)
    requires
        below <= i64::MAX,
        max <= i64::MAX,
    ensures
        match value {
            Some(n) => signed_of(text@, -below - 1, max as int) == Some(n as int),
            None => signed_of(text@, -below - 1, max as int).is_none(),
        },
{
    if text.len() > 0 && text[0] == MINUS {
        assert(text@.drop_first() == text@.subrange(1, text@.len() as int));
        match parse_digits(text, 1, text.len(), below + 1) {
            Some(n) => if n == 0 {
                Some(0)
            } else {
                Some(-1 - ((n - 1) as i64))
            },
            None => None,
        }
    } else {
        match parse_unsigned(text, max) {
            Some(n) => Some(n as i64),
            None => None,
        }
    }
}

/// Reads a text as a number of one byte, or gives `default` where it writes
/// none.
pub fn parse_u8_or(text: &[u8], default: u8) -> (value: u8)
    ensures
        value == match number_of(text@, u8::MAX as int) {
            Some(n) => n as u8,
            None => default,
        },
{
    match parse_unsigned(text, 0xFF) {
        Some(n) => n as u8,
        None => default,
    }
}

/// Reads a text as a number of two bytes, or gives `default` where it writes
/// none.
pub fn parse_u16_or(text: &[u8], default: u16) -> (value: u16)
    ensures
        value == match number_of(text@, u16::MAX as int) {
            Some(n) => n as u16,
            None => default,
        },
{
    match parse_unsigned(text, 0xFFFF) {
        Some(n) => n as u16,
        None => default,
    }
}

/// Reads a text as a number of four bytes, or gives `default` where it writes
/// none.
pub fn parse_u32_or(text: &[u8], default: u32) -> (value: u32)
    ensures
        value == match number_of(text@, u32::MAX as int) {
            Some(n) => n as u32,
            None => default,
        },
{
    match parse_unsigned(text, 0xFFFF_FFFF) {
        Some(n) => n as u32,
        None => default,
    }
}

/// Reads a text as a signed number of two bytes, or gives `default` where it
/// writes none.
pub fn parse_i16_or(text: &[u8], default: i16) -> (value: i16)
    ensures
        value == match signed_of(text@, i16::MIN as int, i16::MAX as int) {
            Some(n) => n as i16,
            None => default,
        },
{
    match parse_signed(text, 0x7FFF, 0x7FFF) {
        Some(n) => n as i16,
        None => default,
    }
}

/// Collects the digits that lie in `text` from `from` up to `to`.
pub fn collect_digits(text: &[u8], from: usize, to: usize) -> (digits: Vec<u8>)
    requires
        from <= to <= text@.len(),
    ensures
        digits@ == digits_in(text@.subrange(from as int, to as int)),
{
    let ghost part = text@.subrange(from as int, to as int);
    let mut digits: Vec<u8> = Vec::new();
    let mut i = from;
    assert(part.take(0) == Seq::<u8>::empty());
    while i < to
        invariant
            from <= i <= to <= text@.len(),
            part == text@.subrange(from as int, to as int),
            digits@ == digits_in(part.take(i - from)),
        decreases to - i,
    {
        let b = text[i];
        let ghost seen = part.take(i - from + 1);
        assert(seen.drop_last() == part.take(i - from));
        assert(seen.last() == b);
        if b >= 0x30 && b <= 0x39 {
            digits.push(b);
        }
        i += 1;
    }
    assert(part.take(to - from) == part);
    digits
}

/// Appends the shortest decimal text of a number.
pub fn push_decimal(out: &mut Vec<u8>, n: u64)
    ensures
        final(out)@ == old(out)@ + decimal_of(n as nat),
    decreases n,
{
    if n >= 10 {
        push_decimal(out, n / 10);
    }
    out.push(ZERO + (n % 10) as u8);
    proof {
        if n < 10 {
            assert(final(out)@ =~= old(out)@ + decimal_of(n as nat));
        } else {
            assert(final(out)@ =~= old(out)@ + decimal_of(n as nat));
        }
    }
}

} // verus!
