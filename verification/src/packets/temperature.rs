//! The payload of the temperature packet: twenty readings of one byte each,
//! in whole degrees Celsius, but for the last, which is a set of flags.

use vstd::prelude::*;

verus! {

/// What the temperature packet tells. A temperature below zero is held in
/// two's complement.
#[derive(Clone, Copy, Debug, PartialEq, Eq, Structural)]
pub struct Temperatures {
    pub eps_mb: u8,
    pub eps_db: u8,
    pub eps_bcr2a: u8,
    pub eps_bcr2b: u8,
    pub eps_bcr8a: u8,
    pub eps_bcr8b: u8,
    pub eps_bcr9a: u8,
    pub eps_bcr9b: u8,
    pub mai_gyro: u8,
    pub mai_motor: u8,
    pub bim0: u8,
    pub bim1: u8,
    pub bim2: u8,
    pub bim3: u8,
    pub bim4: u8,
    pub bim5: u8,
    pub bm2: u8,
    pub bm2_ts1: u8,
    pub bm2_ts2: u8,
    /// The battery's temperature range, as [`temp_range_flags`] gives it.
    pub bm2_range: u8,
}

/// The low byte of a number in two's complement.
pub open spec fn low_byte(n: int) -> u8 {
    (n % 256) as u8
}

/// Whole degrees Celsius for tenths of a kelvin: the tenths are dropped and
/// 273 is taken off. The result is the low byte of that number.
pub open spec fn celsius_of_decikelvin(raw: u16) -> u8 {
    low_byte(raw as int / 10 - 273)
}

/// Whole degrees Celsius for tenths of a degree: the tenths are dropped,
/// towards zero. The result is the low byte of that number.
pub open spec fn celsius_of_decidegrees(raw: i16) -> u8 {
    if raw >= 0 {
        low_byte(raw as int / 10)
    } else {
        low_byte(-((-raw) / 10))
    }
}

/// The six flags of the temperature range: the low six bits.
pub open spec fn range_flags_of(raw: u16) -> u8 {
    (raw % 64) as u8
}

/// The twenty bytes of the payload.
pub open spec fn message_of(t: Temperatures) -> Seq<u8> {
    seq![
        t.eps_mb,
        t.eps_db,
        t.eps_bcr2a,
        t.eps_bcr2b,
        t.eps_bcr8a,
        t.eps_bcr8b,
        t.eps_bcr9a,
        t.eps_bcr9b,
        t.mai_gyro,
        t.mai_motor,
        t.bim0,
        t.bim1,
        t.bim2,
        t.bim3,
        t.bim4,
        t.bim5,
        t.bm2,
        t.bm2_ts1,
        t.bm2_ts2,
        t.bm2_range,
    ]
}

/// Turns tenths of a kelvin into whole degrees Celsius.
pub fn decikelvin_to_celsius(raw: u16) -> (celsius: u8)
    ensures
        celsius == celsius_of_decikelvin(raw),
{
    let whole: u32 = (raw / 10) as u32;
    ((whole + 239) % 256) as u8
}

/// Turns tenths of a degree Celsius into whole degrees.
pub fn decidegrees_to_celsius(raw: i16) -> (celsius: u8)
    ensures
        celsius == celsius_of_decidegrees(raw),
{
    if raw >= 0 {
        ((raw as u32 / 10) % 256) as u8
    } else {
        let whole: u32 = (-(raw as i32)) as u32 / 10;
        ((65536 - whole) % 256) as u8
    }
}

/// Picks the six flags of the temperature range.
pub fn temp_range_flags(raw: u16) -> (flags: u8)
    ensures
        flags == range_flags_of(raw),
        flags == raw & 0x003F,
{
    assert(raw & 0x003F == raw % 64) by (bit_vector);
    (raw % 64) as u8
}

/// Builds the payload.
pub fn temp_message(t: &Temperatures) -> (message: Vec<u8>)
    ensures
        message@ == message_of(*t),
        message@.len() == 20,
{
    let mut message: Vec<u8> = Vec::new();
    message.push(t.eps_mb);
    message.push(t.eps_db);
    message.push(t.eps_bcr2a);
    message.push(t.eps_bcr2b);
    message.push(t.eps_bcr8a);
    message.push(t.eps_bcr8b);
    message.push(t.eps_bcr9a);
    message.push(t.eps_bcr9b);
    message.push(t.mai_gyro);
    message.push(t.mai_motor);
    message.push(t.bim0);
    message.push(t.bim1);
    message.push(t.bim2);
    message.push(t.bim3);
    message.push(t.bim4);
    message.push(t.bim5);
    message.push(t.bm2);
    message.push(t.bm2_ts1);
    message.push(t.bm2_ts2);
    message.push(t.bm2_range);
    assert(message@ =~= message_of(*t));
    message
}

} // verus!
