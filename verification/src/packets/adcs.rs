//! The payloads of the attitude control packets, and the codes in them.

use crate::text::{same_text, trim_char, unquoted};
use crate::wire::{le16, le16_signed, le32, put_i16, put_u16, put_u32};
use vstd::prelude::*;

verus! {

/// The code of a control mode by its name, `0xFF` for a name that is not known.
pub open spec fn acs_mode_code(name: Seq<char>) -> u8 {
    if name == "TEST_MODE"@ {
        0
    } else if name == "RATE_NULLING"@ {
        1
    } else if name == "RESERVED1"@ {
        2
    } else if name == "NADIR_POINTING"@ {
        3
    } else if name == "LAT_LONG_POINTING"@ {
        4
    } else if name == "QBX_MODE"@ {
        5
    } else if name == "RESERVED2"@ {
        6
    } else if name == "NORMAL_SUN"@ {
        7
    } else if name == "LAT_LONG_SUN"@ {
        8
    } else if name == "QINTERTIAL"@ {
        9
    } else if name == "RESERVED3"@ {
        10
    } else if name == "QTABLE"@ {
        11
    } else if name == "SUN_RAM"@ {
        12
    } else {
        0xFF
    }
}

/// Turns the name of a control mode, with or without quotes around it, into
/// its one-byte code. A name that is not known gives `0xFF`.
pub fn convert_acs_mode(raw: &str) -> (code: u8)
    ensures
        code == acs_mode_code(unquoted(raw@)),
{
    let name = trim_char(raw, '"');
    if same_text(name, "TEST_MODE") {
        0
    } else if same_text(name, "RATE_NULLING") {
        1
    } else if same_text(name, "RESERVED1") {
        2
    } else if same_text(name, "NADIR_POINTING") {
        3
    } else if same_text(name, "LAT_LONG_POINTING") {
        4
    } else if same_text(name, "QBX_MODE") {
        5
    } else if same_text(name, "RESERVED2") {
        6
    } else if same_text(name, "NORMAL_SUN") {
        7
    } else if same_text(name, "LAT_LONG_SUN") {
        8
    } else if same_text(name, "QINTERTIAL") {
        9
    } else if same_text(name, "RESERVED3") {
        10
    } else if same_text(name, "QTABLE") {
        11
    } else if same_text(name, "SUN_RAM") {
        12
    } else {
        0xFF
    }
}

/// What the first attitude control packet tells.
#[derive(Clone, Copy, Debug, PartialEq, Eq, Structural)]
pub struct AdcsStatus {
    /// The time, in seconds.
    pub gps_time: u32,
    /// Commands accepted.
    pub good_cmd_count: u16,
    /// Commands refused.
    pub bad_cmd_count: u16,
    /// Commands with a bad checksum.
    pub bad_checksum_count: u16,
    /// The last command received.
    pub last_command: u8,
    /// The control mode, as [`convert_acs_mode`] gives it.
    pub acs_mode: u8,
    /// How attitude is determined.
    pub attdet_mode: u8,
    /// Whether the satellite is in eclipse.
    pub eclipse: u8,
    /// The angle left to the target attitude: the bits of a 32-bit float.
    pub angle_to_go_bits: u32,
}

/// The 18 bytes of the payload: the fields in the order of their
/// declaration, each of its own width.
pub open spec fn status_bytes(m: AdcsStatus) -> Seq<u8> {
    le32(m.gps_time)
        + le16(m.good_cmd_count)
        + le16(m.bad_cmd_count)
        + le16(m.bad_checksum_count)
        + seq![m.last_command]
        + seq![m.acs_mode]
        + seq![m.attdet_mode]
        + seq![m.eclipse]
        + le32(m.angle_to_go_bits)
}

/// Builds the payload of the first attitude control packet.
pub fn adcs_status_message(m: &AdcsStatus) -> (message: Vec<u8>)
    ensures
        message@ == status_bytes(*m),
        message@.len() == 18,
{
    let mut message: Vec<u8> = Vec::new();
    put_u32(&mut message, m.gps_time);
    put_u16(&mut message, m.good_cmd_count);
    put_u16(&mut message, m.bad_cmd_count);
    put_u16(&mut message, m.bad_checksum_count);
    message.push(m.last_command);
    message.push(m.acs_mode);
    message.push(m.attdet_mode);
    message.push(m.eclipse);
    put_u32(&mut message, m.angle_to_go_bits);
    assert(message@ =~= status_bytes(*m));
    message
}

/// What the second attitude control packet tells. The body rates are the
/// bits of 32-bit floats.
#[derive(Clone, Copy, Debug, PartialEq, Eq, Structural)]
pub struct AdcsRates {
    pub body_rate_x_bits: u32,
    pub body_rate_y_bits: u32,
    pub body_rate_z_bits: u32,
    pub wheel_speed_x: i16,
    pub wheel_speed_y: i16,
    pub wheel_speed_z: i16,
    pub wheel_bias_x: i16,
    pub wheel_bias_y: i16,
    pub wheel_bias_z: i16,
    pub qbo_0: i16,
    pub qbo_1: i16,
    pub qbo_2: i16,
    pub qbo_3: i16,
}

/// The 32 bytes of the payload: the fields in the order of their
/// declaration, each of its own width.
pub open spec fn rates_bytes(m: AdcsRates) -> Seq<u8> {
    le32(m.body_rate_x_bits)
        + le32(m.body_rate_y_bits)
        + le32(m.body_rate_z_bits)
        + le16_signed(m.wheel_speed_x)
        + le16_signed(m.wheel_speed_y)
        + le16_signed(m.wheel_speed_z)
        + le16_signed(m.wheel_bias_x)
        + le16_signed(m.wheel_bias_y)
        + le16_signed(m.wheel_bias_z)
        + le16_signed(m.qbo_0)
        + le16_signed(m.qbo_1)
        + le16_signed(m.qbo_2)
        + le16_signed(m.qbo_3)
}

/// Builds the payload of the second attitude control packet.
pub fn adcs_rates_message(m: &AdcsRates) -> (message: Vec<u8>)
    ensures
        message@ == rates_bytes(*m),
        message@.len() == 32,
{
    let mut message: Vec<u8> = Vec::new();
    put_u32(&mut message, m.body_rate_x_bits);
    put_u32(&mut message, m.body_rate_y_bits);
    put_u32(&mut message, m.body_rate_z_bits);
    put_i16(&mut message, m.wheel_speed_x);
    put_i16(&mut message, m.wheel_speed_y);
    put_i16(&mut message, m.wheel_speed_z);
    put_i16(&mut message, m.wheel_bias_x);
    put_i16(&mut message, m.wheel_bias_y);
    put_i16(&mut message, m.wheel_bias_z);
    put_i16(&mut message, m.qbo_0);
    put_i16(&mut message, m.qbo_1);
    put_i16(&mut message, m.qbo_2);
    put_i16(&mut message, m.qbo_3);
    assert(message@ =~= rates_bytes(*m));
    message
}

} // verus!
