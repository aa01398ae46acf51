//! The payloads of the three power packets.

use crate::wire::{le16, le16_signed, put_i16, put_u16};
use vstd::prelude::*;

verus! {

/// What the first power packet tells: the state of the battery and of the
/// supply buses.
#[derive(Clone, Copy, Debug, PartialEq, Eq, Structural)]
pub struct PowerStatus {
    /// Battery voltage.
    pub voltage: u16,
    /// Battery current.
    pub current: i16,
    /// Permanent failure flags.
    pub pf_status: u16,
    /// Motherboard resets: brown-out.
    pub mb_reset_bo: u8,
    /// Motherboard resets: watchdog.
    pub mb_reset_wdt: u8,
    /// Motherboard resets: software.
    pub mb_reset_sw: u8,
    /// Daughterboard resets: brown-out.
    pub db_reset_bo: u8,
    /// Daughterboard resets: watchdog.
    pub db_reset_wdt: u8,
    /// Daughterboard resets: software.
    pub db_reset_sw: u8,
    /// Capacity left.
    pub remaining_cap: u16,
    /// Capacity when full.
    pub full_cap: u16,
    pub charge_voltage: u16,
    pub charge_current: u16,
    /// The 12 V bus, in millivolts.
    pub voltage_12v: i16,
    pub current_12v: i16,
    /// The 5 V bus, in millivolts.
    pub voltage_5v: i16,
    pub current_5v: i16,
    /// The 3.3 V bus, in millivolts.
    pub voltage_3v: i16,
    pub current_3v: i16,
}

/// The 32 bytes of the payload: the fields in the order of their
/// declaration, each of its own width.
pub open spec fn status_bytes(m: PowerStatus) -> Seq<u8> {
    le16(m.voltage)
        + le16_signed(m.current)
        + le16(m.pf_status)
        + seq![m.mb_reset_bo]
        + seq![m.mb_reset_wdt]
        + seq![m.mb_reset_sw]
        + seq![m.db_reset_bo]
        + seq![m.db_reset_wdt]
        + seq![m.db_reset_sw]
        + le16(m.remaining_cap)
        + le16(m.full_cap)
        + le16(m.charge_voltage)
        + le16(m.charge_current)
        + le16_signed(m.voltage_12v)
        + le16_signed(m.current_12v)
        + le16_signed(m.voltage_5v)
        + le16_signed(m.current_5v)
        + le16_signed(m.voltage_3v)
        + le16_signed(m.current_3v)
}

/// Builds the payload of the first power packet.
pub fn power_status_message(m: &PowerStatus) -> (message: Vec<u8>)
    ensures
        message@ == status_bytes(*m),
        message@.len() == 32,
{
    let mut message: Vec<u8> = Vec::new();
    put_u16(&mut message, m.voltage);
    put_i16(&mut message, m.current);
    put_u16(&mut message, m.pf_status);
    message.push(m.mb_reset_bo);
    message.push(m.mb_reset_wdt);
    message.push(m.mb_reset_sw);
    message.push(m.db_reset_bo);
    message.push(m.db_reset_wdt);
    message.push(m.db_reset_sw);
    put_u16(&mut message, m.remaining_cap);
    put_u16(&mut message, m.full_cap);
    put_u16(&mut message, m.charge_voltage);
    put_u16(&mut message, m.charge_current);
    put_i16(&mut message, m.voltage_12v);
    put_i16(&mut message, m.current_12v);
    put_i16(&mut message, m.voltage_5v);
    put_i16(&mut message, m.current_5v);
    put_i16(&mut message, m.voltage_3v);
    put_i16(&mut message, m.current_3v);
    assert(message@ =~= status_bytes(*m));
    message
}

/// What the second power packet tells: the battery cells and the solar
/// panels of the motherboard.
#[derive(Clone, Copy, Debug, PartialEq, Eq, Structural)]
pub struct PowerCells {
    pub voltage_cell1: u16,
    pub voltage_cell2: u16,
    pub voltage_cell3: u16,
    pub voltage_cell4: u16,
    pub voltage_bcr1: i16,
    pub current_bcr1a: i16,
    pub current_bcr1b: i16,
    pub voltage_bcr2: i16,
    pub current_bcr2a: i16,
    pub current_bcr2b: i16,
}

/// The 20 bytes of the payload: the fields in the order of their
/// declaration, each of its own width.
pub open spec fn cells_bytes(m: PowerCells) -> Seq<u8> {
    le16(m.voltage_cell1)
        + le16(m.voltage_cell2)
        + le16(m.voltage_cell3)
        + le16(m.voltage_cell4)
        + le16_signed(m.voltage_bcr1)
        + le16_signed(m.current_bcr1a)
        + le16_signed(m.current_bcr1b)
        + le16_signed(m.voltage_bcr2)
        + le16_signed(m.current_bcr2a)
        + le16_signed(m.current_bcr2b)
}

/// Builds the payload of the second power packet.
pub fn power_cells_message(m: &PowerCells) -> (message: Vec<u8>)
    ensures
        message@ == cells_bytes(*m),
        message@.len() == 20,
{
    let mut message: Vec<u8> = Vec::new();
    put_u16(&mut message, m.voltage_cell1);
    put_u16(&mut message, m.voltage_cell2);
    put_u16(&mut message, m.voltage_cell3);
    put_u16(&mut message, m.voltage_cell4);
    put_i16(&mut message, m.voltage_bcr1);
    put_i16(&mut message, m.current_bcr1a);
    put_i16(&mut message, m.current_bcr1b);
    put_i16(&mut message, m.voltage_bcr2);
    put_i16(&mut message, m.current_bcr2a);
    put_i16(&mut message, m.current_bcr2b);
    assert(message@ =~= cells_bytes(*m));
    message
}

/// What the third power packet tells: the solar panels of the daughterboard.
#[derive(Clone, Copy, Debug, PartialEq, Eq, Structural)]
pub struct PowerPanels {
    pub voltage_bcr6: i16,
    pub current_bcr6a: i16,
    pub current_bcr6b: i16,
    pub voltage_bcr7: i16,
    pub current_bcr7a: i16,
    pub current_bcr7b: i16,
    pub voltage_bcr8: i16,
    pub current_bcr8a: i16,
    pub current_bcr8b: i16,
    pub voltage_bcr9: i16,
    pub current_bcr9a: i16,
    pub current_bcr9b: i16,
}

/// The 24 bytes of the payload: the fields in the order of their
/// declaration, each of its own width.
pub open spec fn panels_bytes(m: PowerPanels) -> Seq<u8> {
    le16_signed(m.voltage_bcr6)
        + le16_signed(m.current_bcr6a)
        + le16_signed(m.current_bcr6b)
        + le16_signed(m.voltage_bcr7)
        + le16_signed(m.current_bcr7a)
        + le16_signed(m.current_bcr7b)
        + le16_signed(m.voltage_bcr8)
        + le16_signed(m.current_bcr8a)
        + le16_signed(m.current_bcr8b)
        + le16_signed(m.voltage_bcr9)
        + le16_signed(m.current_bcr9a)
        + le16_signed(m.current_bcr9b)
}

/// Builds the payload of the third power packet.
pub fn power_panels_message(m: &PowerPanels) -> (message: Vec<u8>)
    ensures
        message@ == panels_bytes(*m),
        message@.len() == 24,
{
    let mut message: Vec<u8> = Vec::new();
    put_i16(&mut message, m.voltage_bcr6);
    put_i16(&mut message, m.current_bcr6a);
    put_i16(&mut message, m.current_bcr6b);
    put_i16(&mut message, m.voltage_bcr7);
    put_i16(&mut message, m.current_bcr7a);
    put_i16(&mut message, m.current_bcr7b);
    put_i16(&mut message, m.voltage_bcr8);
    put_i16(&mut message, m.current_bcr8a);
    put_i16(&mut message, m.current_bcr8b);
    put_i16(&mut message, m.voltage_bcr9);
    put_i16(&mut message, m.current_bcr9a);
    put_i16(&mut message, m.current_bcr9b);
    assert(message@ =~= panels_bytes(*m));
    message
}

} // verus!
