//! Framing of beacon packets for the radio link.
//!
//! A packet on the wire is one header byte followed by at most
//! [`MAX_PAYLOAD`] payload bytes. The header carries the message kind in its
//! high five bits and the subtype in its low three.

use vstd::prelude::*;

verus! {

/// The largest payload, in bytes, that one packet can carry.
pub const MAX_PAYLOAD: usize = 34;

/// The telemetry category a beacon packet belongs to.
#[allow(clippy::upper_case_acronyms)]
#[derive(Clone, Copy, Debug, PartialEq, Eq, Structural)]
pub enum MessageType {
    ADCS,
    Errors,
    GPS,
    OBC,
    Power,
    Radio,
    SupMCU,
    Temperature,
}

impl MessageType {
    /// The number that stands for this kind on the wire.
    pub open spec fn spec_code(self) -> u8 {
        match self {
            MessageType::ADCS => 0,
            MessageType::Errors => 1,
            MessageType::GPS => 2,
            MessageType::OBC => 3,
            MessageType::Power => 4,
            MessageType::Radio => 5,
            MessageType::SupMCU => 6,
            MessageType::Temperature => 7,
        }
    }

    /// The number that stands for this kind on the wire.
    #[verifier::when_used_as_spec(spec_code)]
    pub fn code(self) -> (c: u8)
        ensures
            c == self.spec_code(),
            c < 8,
    {
        match self {
            MessageType::ADCS => 0,
            MessageType::Errors => 1,
            MessageType::GPS => 2,
            MessageType::OBC => 3,
            MessageType::Power => 4,
            MessageType::Radio => 5,
            MessageType::SupMCU => 6,
            MessageType::Temperature => 7,
        }
    }

    /// The kind that a wire number stands for, if it stands for one.
    pub fn from_code(code: u8) -> (kind: Option<MessageType>)
        ensures
            code < 8 <==> kind.is_some(),
            kind matches Some(k) ==> k.spec_code() == code,
    {
        match code {
            0 => Some(MessageType::ADCS),
            1 => Some(MessageType::Errors),
            2 => Some(MessageType::GPS),
            3 => Some(MessageType::OBC),
            4 => Some(MessageType::Power),
            5 => Some(MessageType::Radio),
            6 => Some(MessageType::SupMCU),
            7 => Some(MessageType::Temperature),
            _ => None,
        }
    }
}

/// The header byte for a kind and a subtype: the kind shifted into the high
/// five bits, or-ed with the subtype.
pub open spec fn header_of(kind: MessageType, subtype: u8) -> u8 {
    (kind.spec_code() << 3u8) | subtype
}

/// The bytes on the wire for a packet: the header, then the payload.
pub open spec fn frame_of(kind: MessageType, subtype: u8, payload: Seq<u8>) -> Seq<u8> {
    seq![header_of(kind, subtype)] + payload
}

/// A header whose subtype fits in three bits keeps both fields apart: the
/// kind can be read back from the high five bits and the subtype from the low
/// three.
pub proof fn law_header_fields(kind: MessageType, subtype: u8)
    requires
        subtype < 8,
    ensures
        header_of(kind, subtype) == 8 * kind.spec_code() + subtype,
        header_of(kind, subtype) >> 3u8 == kind.spec_code(),
        header_of(kind, subtype) & 7u8 == subtype,
{
    let c = kind.spec_code();
    assert(c < 8 && subtype < 8 ==> ((c << 3u8) | subtype) == 8 * c + subtype) by (bit_vector);
    assert(c < 8 && subtype < 8 ==> ((c << 3u8) | subtype) >> 3u8 == c) by (bit_vector);
    assert(c < 8 && subtype < 8 ==> ((c << 3u8) | subtype) & 7u8 == subtype) by (bit_vector);
}

/// Two headers with subtypes that fit in three bits are equal only if they
/// name the same kind and the same subtype.
pub proof fn law_header_injective(k1: MessageType, s1: u8, k2: MessageType, s2: u8)
    requires
        s1 < 8,
        s2 < 8,
        header_of(k1, s1) == header_of(k2, s2),
    ensures
        k1 == k2,
        s1 == s2,
{
    law_header_fields(k1, s1);
    law_header_fields(k2, s2);
}

/// Combines a message kind and a subtype into the header byte.
pub fn header_byte(kind: MessageType, subtype: u8) -> (header: u8)
    ensures
        header == header_of(kind, subtype),
        subtype < 8 ==> header == 8 * kind.spec_code() + subtype,
{
    proof {
        if subtype < 8 {
            law_header_fields(kind, subtype);
        }
    }
    (kind.code() << 3u8) | subtype
}

/// Builds the wire packet for a payload, or refuses a payload that is longer
/// than [`MAX_PAYLOAD`].
pub fn build_packet(kind: MessageType, subtype: u8, payload: &[u8]) -> (packet: Option<Vec<u8>>)
    ensures
        packet.is_some() <==> payload@.len() <= MAX_PAYLOAD,
        packet matches Some(p) ==> p@ == frame_of(kind, subtype, payload@),
{
    if payload.len() > MAX_PAYLOAD {
        return None;
    }
    let mut packet: Vec<u8> = Vec::new();
    packet.push(header_byte(kind, subtype));
    let mut i: usize = 0;
    while i < payload.len()
        invariant
            i <= payload@.len(),
            packet@ == seq![header_of(kind, subtype)] + payload@.take(i as int),
        decreases payload@.len() - i,
    {
        packet.push(payload[i]);
        i += 1;
        assert(payload@.take(i as int) == payload@.take(i - 1).push(payload@[i - 1]));
    }
    assert(payload@.take(i as int) == payload@);
    Some(packet)
}

} // verus!
