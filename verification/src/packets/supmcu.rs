//! The payload of the module controller packet.
//!
//! For each of the six modules, in the order of [`module_names`], the payload holds
//! three bytes: the uptime in one byte, then the reset flags in two.

use crate::decimal::{number_of, parse_unsigned};
use crate::wire::{le16, put_u16};
use vstd::prelude::*;

verus! {

/// How many modules report.
pub const MODULE_COUNT: usize = 6;

/// The uptime where a module gave none.
pub const NO_UPTIME: u8 = 0;

/// The reset flags where a module gave none.
pub const NO_RESET_FLAGS: u16 = 0xFFFF;

/// What one module reports.
#[derive(Clone, Copy, Debug, PartialEq, Eq, Structural)]
pub struct ModuleReading {
    /// The uptime, of which the packet has room for the low byte only.
    pub uptime: u8,
    /// Why the module last reset, one bit for each cause.
    pub reset: u16,
}

/// The uptime byte for a module's answer: the low byte of the number it
/// writes; zero where the text is no number of 64 bits and where there is no
/// answer.
pub open spec fn uptime_of(answer: Option<Seq<u8>>) -> u8 {
    match answer {
        Some(text) => match number_of(text, u64::MAX as int) {
            Some(n) => (n % 256) as u8,
            None => NO_UPTIME,
        },
        None => NO_UPTIME,
    }
}

/// The reset flags for a module's answer: the number it writes; all ones
/// where the text is no number of 16 bits and where there is no answer.
pub open spec fn reset_of(answer: Option<Seq<u8>>) -> u16 {
    match answer {
        Some(text) => match number_of(text, u16::MAX as int) {
            Some(n) => n as u16,
            None => NO_RESET_FLAGS,
        },
        None => NO_RESET_FLAGS,
    }
}

/// The three bytes of one module.
pub open spec fn module_bytes(reading: ModuleReading) -> Seq<u8> {
    seq![reading.uptime] + le16(reading.reset)
}

/// The payload for the readings of the modules, in their order.
pub open spec fn message_of(readings: Seq<ModuleReading>) -> Seq<u8>
    decreases readings.len(),
{
    if readings.len() == 0 {
        Seq::empty()
    } else {
        message_of(readings.drop_last()) + module_bytes(readings.last())
    }
}

/// The payload has three bytes for each module.
pub proof fn lemma_message_len(readings: Seq<ModuleReading>)
    ensures
        message_of(readings).len() == 3 * readings.len(),
    decreases readings.len(),
{
    if readings.len() > 0 {
        lemma_message_len(readings.drop_last());
    }
}

/// The names of the modules, in the order of the payload.
pub fn module_names() -> (names: [&'static str; 6])
    ensures
        names@.len() == MODULE_COUNT,
        names@[0]@ == "aim2"@,
        names@[1]@ == "bim"@,
        names@[2]@ == "pim"@,
        names@[3]@ == "sim"@,
        names@[4]@ == "rhm"@,
        names@[5]@ == "bm2"@,
{
    ["aim2", "bim", "pim", "sim", "rhm", "bm2"]
}

/// Reads the uptime byte out of a module's answer, where `None` stands for no
/// answer.
pub fn parse_uptime(answer: Option<&[u8]>) -> (uptime: u8)
    ensures
        uptime == uptime_of(
            match answer {
                Some(text) => Some(text@),
                None => None,
            },
        ),
{
    match answer {
        Some(text) => match parse_unsigned(text, u64::MAX) {
            Some(n) => (n % 256) as u8,
            None => NO_UPTIME,
        },
        None => NO_UPTIME,
    }
}

/// Reads the reset flags out of a module's answer, where `None` stands for no
/// answer.
pub fn parse_reset(answer: Option<&[u8]>) -> (reset: u16)
    ensures
        reset == reset_of(
            match answer {
                Some(text) => Some(text@),
                None => None,
            },
        ),
{
    match answer {
        Some(text) => match parse_unsigned(text, 0xFFFF) {
            Some(n) => n as u16,
            None => NO_RESET_FLAGS,
        },
        None => NO_RESET_FLAGS,
    }
}

/// Builds the payload for the readings of the modules.
pub fn supmcu_message(readings: &[ModuleReading]) -> (message: Vec<u8>)
    ensures
        message@ == message_of(readings@),
        message@.len() == 3 * readings@.len(),
{
    let mut message: Vec<u8> = Vec::new();
    let mut i: usize = 0;
    assert(readings@.take(0) == Seq::<ModuleReading>::empty());
    while i < readings.len()
        invariant
            i <= readings@.len(),
            message@ == message_of(readings@.take(i as int)),
        decreases readings@.len() - i,
    {
        let reading = readings[i];
        message.push(reading.uptime);
        put_u16(&mut message, reading.reset);
        i += 1;
        proof {
            let done = readings@.take(i as int);
            assert(done.drop_last() == readings@.take(i - 1));
            assert(done.last() == reading);
            assert(message@ =~= message_of(done.drop_last()) + module_bytes(reading));
        }
    }
    assert(readings@.take(i as int) == readings@);
    proof {
        lemma_message_len(readings@);
    }
    message
}

} // verus!
