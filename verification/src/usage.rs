//! Memory and disk usage of the flight computer.
//!
//! Memory in use is told from the memory that the monitor reports as
//! available. Disk in use is read from the output of `df` for the user data
//! partition, whose last line ends in the percentage in use, a space, and
//! the mount point.

use crate::decimal::{collect_digits, digits_in, number_of, parse_unsigned};
use crate::scan::{find_last, last_before};
use vstd::prelude::*;

verus! {

/// The memory of the flight computer, in kibibytes.
pub const MEM_TOTAL: u64 = 515_340;

/// The disk usage that is taken where `df` gives none.
pub const DISK_UNKNOWN: u8 = 100;

/// At this age in seconds, telemetry is removed when the disk is too full.
pub const CLEANUP_AGE_SECS: u32 = 86_400;

/// The ASCII code of the space.
pub const SPACE: u8 = 0x20;

/// How a share in use is to be taken, in percent.
#[derive(Clone, Copy, Debug, PartialEq, Eq, Structural)]
pub enum UsageLevel {
    /// Below 50.
    Nominal,
    /// From 50, below 70: high, but acceptable.
    Acceptable,
    /// From 70, below 80: high.
    High,
    /// From 80: too high, something has to be done.
    TooHigh,
}

/// What a check of memory and disk found, and what is to be done about it.
#[derive(Clone, Copy, Debug, PartialEq, Eq, Structural)]
pub struct MemCheck {
    /// Memory in use, in percent.
    pub ram_in_use: u64,
    pub ram: UsageLevel,
    /// Disk in use, in percent.
    pub disk_in_use: u8,
    pub disk: UsageLevel,
    /// Whether the computer is to be rebooted, by force.
    pub reboot: bool,
    /// Whether telemetry older than [`CLEANUP_AGE_SECS`] is to be removed.
    pub clean: bool,
}

/// The level of a share in use.
pub open spec fn level_of(percent: int) -> UsageLevel {
    if percent < 50 {
        UsageLevel::Nominal
    } else if percent < 70 {
        UsageLevel::Acceptable
    } else if percent < 80 {
        UsageLevel::High
    } else {
        UsageLevel::TooHigh
    }
}

/// Memory in use, in percent, given the memory available in kibibytes: a
/// hundred less the whole percents available, and nothing where more is
/// available than the computer has.
pub open spec fn ram_in_use_of(available: u64) -> u64 {
    if available >= MEM_TOTAL {
        0
    } else {
        (100 - available * 100 / MEM_TOTAL as int) as u64
    }
}

/// The last but one of the pieces that spaces cut a text into; empty where
/// there is no space.
pub open spec fn usage_column(df: Seq<u8>) -> Seq<u8> {
    let to = last_before(df, SPACE, df.len() as int);
    if to < 0 {
        Seq::empty()
    } else {
        df.subrange(last_before(df, SPACE, to) + 1, to)
    }
}

/// Disk in use, in percent, as the output of `df` tells it: the number that
/// the digits of the usage column write, and [`DISK_UNKNOWN`] where they
/// write none that fits a byte.
pub open spec fn disk_in_use_of(df: Seq<u8>) -> u8 {
    match number_of(digits_in(usage_column(df)), u8::MAX as int) {
        Some(n) => n as u8,
        None => DISK_UNKNOWN,
    }
}

/// What a check finds for the memory available and the output of `df`,
/// where `None` stands for a `df` that could not be run.
pub open spec fn check_of(available: u64, df: Option<Seq<u8>>) -> MemCheck {
    let ram_in_use = ram_in_use_of(available);
    let disk_in_use = match df {
        Some(output) => disk_in_use_of(output),
        None => DISK_UNKNOWN,
    };
    MemCheck {
        ram_in_use,
        ram: level_of(ram_in_use as int),
        disk_in_use,
        disk: level_of(disk_in_use as int),
        reboot: ram_in_use >= 80,
        clean: disk_in_use >= 80,
    }
}

/// Memory in use is a percentage.
pub proof fn law_ram_in_use_bounds(available: u64)
    ensures
        ram_in_use_of(available) <= 100,
        available == 0 ==> ram_in_use_of(available) == 100,
{
}

/// More memory available never means more memory in use.
pub proof fn law_ram_in_use_monotonic(a: u64, b: u64)
    requires
        a <= b,
    ensures
        ram_in_use_of(b) <= ram_in_use_of(a),
{
}

/// The level of a share in use.
pub fn usage_level(percent: u64) -> (level: UsageLevel)
    ensures
        level == level_of(percent as int),
{
    if percent < 50 {
        UsageLevel::Nominal
    } else if percent < 70 {
        UsageLevel::Acceptable
    } else if percent < 80 {
        UsageLevel::High
    } else {
        UsageLevel::TooHigh
    }
}

/// Memory in use, in percent, given the memory available in kibibytes.
pub fn ram_in_use(available: u64) -> (percent: u64)
    ensures
        percent == ram_in_use_of(available),
{
    if available >= MEM_TOTAL {
        0
    } else {
        100 - available * 100 / MEM_TOTAL
    }
}

/// Disk in use, in percent, as the output of `df` tells it.
pub fn disk_in_use(df: &[u8]) -> (percent: u8)
    ensures
        percent == disk_in_use_of(df@),
{
    let to = match find_last(df, SPACE, df.len()) {
        Some(to) => to,
        None => {
            assert(digits_in(Seq::<u8>::empty()) == Seq::<u8>::empty());
            return DISK_UNKNOWN;
        },
    };
    let from = match find_last(df, SPACE, to) {
        Some(from) => from + 1,
        None => 0,
    };
    assert(df@.subrange(from as int, to as int) == usage_column(df@));
    let digits = collect_digits(df, from, to);
    match parse_unsigned(digits.as_slice(), 255) {
        Some(n) => n as u8,
        None => DISK_UNKNOWN,
    }
}

/// Checks memory and disk usage, given the memory available in kibibytes and
/// the output of `df` for the user data partition, where `None` stands for a
/// `df` that could not be run.
pub fn check_mem(available: u64, df: Option<&[u8]>) -> (check: MemCheck)
    ensures
        check == check_of(
            available,
            match df {
                Some(output) => Some(output@),
                None => None,
            },
        ),
{
    let ram = ram_in_use(available);
    let disk = match df {
        Some(output) => disk_in_use(output),
        None => DISK_UNKNOWN,
    };
    MemCheck {
        ram_in_use: ram,
        ram: usage_level(ram),
        disk_in_use: disk,
        disk: usage_level(disk as u64),
        reboot: ram >= 80,
        clean: disk >= 80,
    }
}

} // verus!
