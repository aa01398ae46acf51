//! The hold timer: how long deployment still has to wait.
//!
//! The time at which the hold began is kept in the durable store as the text
//! `<seconds>.<nanoseconds>` since the epoch, both in decimal and without
//! padding. A reboot in the middle of the hold resumes it from that record.

use crate::decimal::{
    decimal_of,
    field_value,
    is_digit,
    lemma_decimal_roundtrip,
    lemma_field_roundtrip,
    parse_field,
    push_decimal,
};
use crate::scan::{find_first, first_at, lemma_first_at};
use vstd::prelude::*;

verus! {

/// The hold time where none is configured: 45 minutes.
pub const DEFAULT_DELAY_SECS: u64 = 2700;

/// Nanoseconds in a second.
pub const NANOS_PER_SEC: u64 = 1_000_000_000;

/// The ASCII code of the dot that separates seconds from nanoseconds.
pub const DOT: u8 = 0x2e;

/// A point in time since the epoch, or a length of time.
#[derive(Clone, Copy, Debug, PartialEq, Eq, Structural)]
pub struct Time {
    pub secs: u64,
    pub nanos: u32,
}

impl Time {
    /// The whole of it in nanoseconds.
    pub open spec fn total_nanos(self) -> int {
        self.secs * NANOS_PER_SEC + self.nanos
    }

    /// A length of whole seconds.
    pub fn from_secs(secs: u64) -> (t: Time)
        ensures
            t == (Time { secs, nanos: 0 }),
    {
        Time { secs, nanos: 0 }
    }
}

/// What the durable store holds as the beginning of the hold.
#[derive(Clone, Copy, Debug, PartialEq, Eq, Structural)]
pub enum StartRecord {
    /// Nothing: the hold has not begun.
    Unset,
    /// A value that cannot be read as a time.
    Corrupt,
    /// The hold began at this time.
    At(Time),
}

/// The hold time that the configuration asks for: the configured number of
/// seconds, or the default where none is configured. A negative number is
/// taken as the unsigned number of the same 64 bits, which lies beyond any
/// mission's length.
pub open spec fn delay_of(configured: Option<i64>) -> u64 {
    match configured {
        Some(secs) => if secs >= 0 {
            secs as u64
        } else {
            (secs + 0x1_0000_0000_0000_0000) as u64
        },
        None => DEFAULT_DELAY_SECS,
    }
}

/// The time that a record of the beginning of the hold holds.
///
/// The text is cut at its first dot and again at the next one, if there is
/// one. The first piece is the seconds and the second the nanoseconds; what
/// follows a second dot is not read. A piece that is not a number of its
/// width counts as zero. A text without a dot, and one that gives zero for
/// both, holds no time.
pub open spec fn start_of_text(text: Seq<u8>) -> Option<Time> {
    let first = first_at(text, DOT, 0);
    if first >= text.len() {
        None
    } else {
        let second = first_at(text, DOT, first + 1);
        let secs = field_value(text.subrange(0, first), u64::MAX as int);
        let nanos = field_value(text.subrange(first + 1, second), u32::MAX as int);
        if secs == 0 && nanos == 0 {
            None
        } else {
            Some(Time { secs: secs as u64, nanos: nanos as u32 })
        }
    }
}

/// The record that is written for a time.
pub open spec fn text_of_start(at: Time) -> Seq<u8> {
    decimal_of(at.secs as nat) + seq![DOT] + decimal_of(at.nanos as nat)
}

/// What a value read from the store says of the beginning of the hold.
pub open spec fn record_of(value: Option<Seq<u8>>) -> StartRecord {
    match value {
        None => StartRecord::Unset,
        Some(text) => match start_of_text(text) {
            Some(at) => StartRecord::At(at),
            None => StartRecord::Corrupt,
        },
    }
}

/// The hold that is left at `now` of a hold of `delay_secs` seconds that began
/// at `start`: the delay less the time gone by, where that is more than
/// nothing. `None` where the hold is over, and where `now` lies before
/// `start`, so that the time gone by cannot be told.
pub open spec fn remaining_of(start: Time, now: Time, delay_secs: u64) -> Option<Time> {
    let elapsed = now.total_nanos() - start.total_nanos();
    let left = delay_secs * NANOS_PER_SEC - elapsed;
    if elapsed < 0 || left <= 0 {
        None
    } else {
        Some(
            Time {
                secs: (left / NANOS_PER_SEC as int) as u64,
                nanos: (left % NANOS_PER_SEC as int) as u32,
            },
        )
    }
}

/// What is left of a hold and the time gone by add up to the delay: the
/// hold resumes where it stood, it does not begin again.
pub proof fn law_hold_resumes(start: Time, now: Time, delay_secs: u64)
    ensures
        match remaining_of(start, now, delay_secs) {
            Some(left) => {
                &&& now.total_nanos() >= start.total_nanos()
                &&& left.total_nanos() + (now.total_nanos() - start.total_nanos()) == delay_secs
                    * NANOS_PER_SEC
                &&& left.total_nanos() > 0
                &&& left.nanos < NANOS_PER_SEC
                &&& left.secs <= delay_secs
            },
            None => now.total_nanos() < start.total_nanos() || now.total_nanos()
                - start.total_nanos() >= delay_secs * NANOS_PER_SEC,
        },
{
    let elapsed = now.total_nanos() - start.total_nanos();
    let left = delay_secs * NANOS_PER_SEC - elapsed;
    if elapsed >= 0 && left > 0 {
        assert(left <= delay_secs * 1_000_000_000);
        assert(left / 1_000_000_000 <= delay_secs);
        assert(left == 1_000_000_000 * (left / 1_000_000_000) + left % 1_000_000_000);
    }
}

/// A hold that began whole seconds ago has the delay less those seconds
/// left, to the second.
pub proof fn law_hold_by_seconds(start: Time, gone: u64, delay_secs: u64)
    requires
        start.secs + gone <= u64::MAX,
        gone < delay_secs,
    ensures
        remaining_of(
            start,
            Time { secs: (start.secs + gone) as u64, nanos: start.nanos },
            delay_secs,
        ) == Some(Time { secs: (delay_secs - gone) as u64, nanos: 0 }),
{
    let now = Time { secs: (start.secs + gone) as u64, nanos: start.nanos };
    let left = delay_secs * NANOS_PER_SEC - (now.total_nanos() - start.total_nanos());
    assert(left == (delay_secs - gone) * 1_000_000_000);
    assert(left / 1_000_000_000 == delay_secs - gone);
    assert(left % 1_000_000_000 == 0);
}

/// A record reads back as the time it was written for, unless that time is
/// the epoch itself, whose record holds no time.
pub proof fn law_record_roundtrip(at: Time)
    ensures
        start_of_text(text_of_start(at)) == if at.secs == 0 && at.nanos == 0 {
            None
        } else {
            Some(at)
        },
{
    let secs = decimal_of(at.secs as nat);
    let nanos = decimal_of(at.nanos as nat);
    let text = text_of_start(at);
    lemma_decimal_roundtrip(at.secs as nat);
    lemma_decimal_roundtrip(at.nanos as nat);
    lemma_field_roundtrip(at.secs as nat, u64::MAX as int);
    lemma_field_roundtrip(at.nanos as nat, u32::MAX as int);
    let dot = secs.len() as int;
    assert(text.len() == secs.len() + 1 + nanos.len());
    assert(text[dot] == DOT);
    assert forall|i: int| 0 <= i < dot implies is_digit(#[trigger] text[i]) by {
        assert(text[i] == secs[i]);
    }
    assert forall|i: int| dot + 1 <= i < text.len() implies is_digit(#[trigger] text[i]) by {
        assert(text[i] == nanos[i - dot - 1]);
    }
    assert forall|i: int| 0 <= i < dot implies #[trigger] text[i] != DOT by {
        assert(is_digit(text[i]));
    }
    assert forall|i: int| dot + 1 <= i < text.len() implies #[trigger] text[i] != DOT by {
        assert(is_digit(text[i]));
    }
    lemma_first_at(text, DOT, 0, dot);
    lemma_first_at(text, DOT, dot + 1, text.len() as int);
    assert(text.subrange(0, dot) == secs);
    assert(text.subrange(dot + 1, text.len() as int) == nanos);
}

/// The hold time that the configuration asks for.
pub fn hold_delay(configured: Option<i64>) -> (secs: u64)
    ensures
        secs == delay_of(configured),
{
    match configured {
        Some(secs) => {
            assert(secs < 0 ==> secs as u64 == secs + 0x1_0000_0000_0000_0000) by (bit_vector);
            assert(secs >= 0 ==> secs as u64 == secs) by (bit_vector);
            secs as u64
        },
        None => DEFAULT_DELAY_SECS,
    }
}

/// Reads the time out of a record of the beginning of the hold.
pub fn parse_start(text: &[u8]) -> (at: Option<Time>)
    ensures
        at == start_of_text(text@),
{
    let first = find_first(text, DOT, 0);
    if first >= text.len() {
        return None;
    }
    let second = find_first(text, DOT, first + 1);
    let secs = parse_field(text, 0, first, u64::MAX);
    let nanos = parse_field(text, first + 1, second, 0xffff_ffff);
    if secs == 0 && nanos == 0 {
        None
    } else {
        Some(Time { secs, nanos: nanos as u32 })
    }
}

/// Writes the record of the beginning of the hold.
pub fn format_start(at: Time) -> (text: Vec<u8>)
    ensures
        text@ == text_of_start(at),
{
    let mut text: Vec<u8> = Vec::new();
    push_decimal(&mut text, at.secs);
    text.push(DOT);
    push_decimal(&mut text, at.nanos as u64);
    assert(text@ =~= text_of_start(at));
    text
}

/// Says what a value read from the store tells of the beginning of the hold.
pub fn read_start(value: Option<&[u8]>) -> (record: StartRecord)
    ensures
        record == record_of(
            match value {
                Some(text) => Some(text@),
                None => None,
            },
        ),
{
    match value {
        None => StartRecord::Unset,
        Some(text) => match parse_start(text) {
            Some(at) => StartRecord::At(at),
            None => StartRecord::Corrupt,
        },
    }
}

/// Computes the hold that is left at `now` of a hold of `delay_secs` seconds
/// that began at `start`.
pub fn remaining_hold(start: Time, now: Time, delay_secs: u64) -> (left: Option<Time>)
    ensures
        left == remaining_of(start, now, delay_secs),
{
    let per: u128 = NANOS_PER_SEC as u128;
    let start_ns: u128 = start.secs as u128 * per + start.nanos as u128;
    let now_ns: u128 = now.secs as u128 * per + now.nanos as u128;
    let delay_ns: u128 = delay_secs as u128 * per;
    if now_ns < start_ns {
        return None;
    }
    let elapsed: u128 = now_ns - start_ns;
    if delay_ns <= elapsed {
        return None;
    }
    let left: u128 = delay_ns - elapsed;
    let secs: u128 = left / per;
    let nanos: u128 = left % per;
    assert(secs <= delay_secs) by {
        assert(left <= delay_secs * 1_000_000_000);
    }
    Some(Time { secs: secs as u64, nanos: nanos as u32 })
}

} // verus!
