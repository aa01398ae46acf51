//! Status of the one-way transmit channel, as reported by its controller.
//!
//! The controller publishes its telemetry as a JSON object that maps each
//! field to a reading of the form `{"timestamp": .., "data": ..}`. The field
//! [`STATUS_FIELD`] holds the channel status as a code from 0 to 5.

use crate::json;
use vstd::prelude::*;

verus! {

/// The telemetry field that holds the channel status.
pub const STATUS_FIELD: &'static str = "globalstar_status";

/// The member of a reading that holds the time it was taken.
pub const TIMESTAMP_KEY: &'static str = "timestamp";

/// The member of a reading that holds its value.
pub const DATA_KEY: &'static str = "data";

/// What the controller last reported about the one-way channel.
#[derive(Clone, Copy, Debug, PartialEq, Eq, Structural)]
pub enum ChannelStatus {
    /// Nothing has been sent since the last reset.
    NoTransmissions,
    /// The busy line is high.
    Busy,
    /// A message is being prepared.
    Prepping,
    /// A message is on the air.
    Transmitting,
    /// The last transmission succeeded.
    LastGood,
    /// The last transmission failed.
    LastBad,
    /// The report could not be understood, or is stale.
    Unknown,
}

impl ChannelStatus {
    /// Whether the channel is free to take a new packet.
    pub open spec fn spec_is_available(self) -> bool {
        self == ChannelStatus::NoTransmissions || self == ChannelStatus::LastGood || self
            == ChannelStatus::LastBad
    }

    /// Whether the channel is free to take a new packet.
    #[verifier::when_used_as_spec(spec_is_available)]
    pub fn is_available(self) -> (free: bool)
        ensures
            free == self.spec_is_available(),
    {
        match self {
            ChannelStatus::NoTransmissions => true,
            ChannelStatus::LastGood => true,
            ChannelStatus::LastBad => true,
            _ => false,
        }
    }
}

/// The status that a raw code stands for.
pub open spec fn status_of_code(code: int) -> ChannelStatus {
    if code == 0 {
        ChannelStatus::NoTransmissions
    } else if code == 1 {
        ChannelStatus::Busy
    } else if code == 2 {
        ChannelStatus::Prepping
    } else if code == 3 {
        ChannelStatus::Transmitting
    } else if code == 4 {
        ChannelStatus::LastGood
    } else if code == 5 {
        ChannelStatus::LastBad
    } else {
        ChannelStatus::Unknown
    }
}

/// The status that a reading stands for. A reading counts only if it carries
/// a timestamp other than zero and its value is a code.
pub open spec fn status_of_reading(stamped: bool, code: Option<u64>) -> ChannelStatus {
    match code {
        Some(c) if stamped => status_of_code(c as int),
        _ => ChannelStatus::Unknown,
    }
}

/// Whether a reading carries a timestamp that is neither missing, null nor
/// the integer zero.
pub open spec fn reading_is_stamped(reading: serde_json::Value) -> bool {
    match json::member(reading, TIMESTAMP_KEY@) {
        Some(t) => !json::null(t) && json::signed(t) != Some(0i64),
        None => false,
    }
}

/// The code that a reading holds, if its value is an unsigned integer.
pub open spec fn reading_code(reading: serde_json::Value) -> Option<u64> {
    match json::member(reading, DATA_KEY@) {
        Some(d) => json::unsigned(d),
        None => None,
    }
}

/// The channel status that a telemetry text reports.
pub open spec fn status_of_telemetry(text: Seq<char>) -> ChannelStatus {
    match json::parsed(text) {
        Some(doc) => match json::member(doc, STATUS_FIELD@) {
            Some(reading) => status_of_reading(reading_is_stamped(reading), reading_code(reading)),
            None => ChannelStatus::Unknown,
        },
        None => ChannelStatus::Unknown,
    }
}

/// The channel status that the reply to a status poll reports; a poll without
/// a reply reports nothing.
pub open spec fn status_of_reply(reply: Option<Seq<char>>) -> ChannelStatus {
    match reply {
        Some(text) => status_of_telemetry(text),
        None => ChannelStatus::Unknown,
    }
}

/// Only the codes 0 to 5 stand for a known status, each for its own, and only
/// in a reading that counts: a reading without a timestamp other than zero,
/// or without a code, is `Unknown`.
pub proof fn law_known_statuses(stamped: bool, code: Option<u64>)
    ensures
        status_of_reading(stamped, code) != ChannelStatus::Unknown <==> stamped && code.is_some()
            && code.unwrap() <= 5,
        forall|a: int, b: int|
            0 <= a <= 5 && 0 <= b <= 5 && #[trigger] status_of_code(a) == #[trigger] status_of_code(
                b,
            ) ==> a == b,
        status_of_code(4) == ChannelStatus::LastGood,
        forall|c: int|
            (#[trigger] status_of_code(c)).spec_is_available() <==> (c == 0 || c == 4 || c == 5),
{
}

/// Decodes a raw status code: 0 to 5 name the six known states in order, any
/// other code is `Unknown`.
pub fn decode_status_code(code: u64) -> (status: ChannelStatus)
    ensures
        status == status_of_code(code as int),
{
    match code {
        0 => ChannelStatus::NoTransmissions,
        1 => ChannelStatus::Busy,
        2 => ChannelStatus::Prepping,
        3 => ChannelStatus::Transmitting,
        4 => ChannelStatus::LastGood,
        5 => ChannelStatus::LastBad,
        _ => ChannelStatus::Unknown,
    }
}

/// Decodes one reading of the status field. `stamped` says whether the
/// reading carries a timestamp other than zero; `code` is its value, where
/// that is an unsigned integer. A reading without such a timestamp or without
/// such a value is `Unknown`, whatever else it holds.
pub fn decode_reading(stamped: bool, code: Option<u64>) -> (status: ChannelStatus)
    ensures
        status == status_of_reading(stamped, code),
{
    match code {
        Some(c) => if stamped {
            decode_status_code(c)
        } else {
            ChannelStatus::Unknown
        },
        None => ChannelStatus::Unknown,
    }
}

/// Reads the channel status out of the controller's telemetry text.
///
/// The result is `Unknown` where the text is not JSON, where it has no
/// status field, and where the reading of that field does not count.
pub fn status_from_telemetry(text: &str) -> (status: ChannelStatus)
    ensures
        status == status_of_telemetry(text@),
{
    let doc = match json::parse(text) {
        Ok(doc) => doc,
        Err(_) => return ChannelStatus::Unknown,
    };
    let reading = match json::lookup(&doc, STATUS_FIELD) {
        Some(reading) => reading,
        None => return ChannelStatus::Unknown,
    };
    let stamped = match json::lookup(reading, TIMESTAMP_KEY) {
        Some(t) => {
            let zero = match json::as_i64(t) {
                Some(n) => n == 0,
                None => false,
            };
            !json::is_null(t) && !zero
        },
        None => false,
    };
    let code = match json::lookup(reading, DATA_KEY) {
        Some(d) => json::as_u64(d),
        None => None,
    };
    decode_reading(stamped, code)
}

/// Reads the channel status out of the reply to a status poll, where `None`
/// stands for a poll that got no reply.
pub fn status_from_reply(reply: Option<&str>) -> (status: ChannelStatus)
    ensures
        status == status_of_reply(
            match reply {
                Some(text) => Some(text@),
                None => None,
            },
        ),
{
    match reply {
        Some(text) => status_from_telemetry(text),
        None => ChannelStatus::Unknown,
    }
}

} // verus!
