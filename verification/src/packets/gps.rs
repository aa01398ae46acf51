//! The payloads of the navigation packets, and the codes in them.

use crate::text::{same_text, trim_char, unquoted};
use crate::wire::{le16, le32, le64, put_u16, put_u32, put_u64};
use vstd::prelude::*;

verus! {

/// The bit of a receiver status flag by its name, zero for a name that is not known.
pub open spec fn system_status_code(name: Seq<char>) -> u32 {
    if name == "ERROR_PRESENT"@ {
        0x0000_0001
    } else if name == "TEMPERATURE_WARNING"@ {
        0x0000_0002
    } else if name == "VOLTAGE_SUPPLY_WARNING"@ {
        0x0000_0004
    } else if name == "ANTENNA_NOT_POWERED"@ {
        0x0000_0008
    } else if name == "LNA_FAILURE"@ {
        0x0000_0010
    } else if name == "ANTENNA_OPEN"@ {
        0x0000_0020
    } else if name == "ANTENNA_SHORTENED"@ {
        0x0000_0040
    } else if name == "CPU_OVERLOAD"@ {
        0x0000_0080
    } else if name == "COM1_BUFFER_OVERRUN"@ {
        0x0000_0100
    } else if name == "COM2_BUFFER_OVERRUN"@ {
        0x0000_0200
    } else if name == "COM3_BUFFER_OVERRUN"@ {
        0x0000_0400
    } else if name == "LINK_OVERRUN"@ {
        0x0000_0800
    } else if name == "AUX_TRANSMIT_OVERRUN"@ {
        0x0000_2000
    } else if name == "AGC_OUT_OF_RANGE"@ {
        0x0000_4000
    } else if name == "INS_RESET"@ {
        0x0001_0000
    } else if name == "GPS_ALMANAC_INVALID"@ {
        0x0004_0000
    } else if name == "POSITION_SOLUTION_INVALID"@ {
        0x0008_0000
    } else if name == "POSITION_FIXED"@ {
        0x0010_0000
    } else if name == "CLOCK_STEERING_DISABLED"@ {
        0x0020_0000
    } else if name == "CLOCK_MODEL_INVALID"@ {
        0x0040_0000
    } else if name == "EXTERNAL_OSCILLATOR_LOCKED"@ {
        0x0080_0000
    } else if name == "SOFTWARE_RESOURCE_WARNING"@ {
        0x0100_0000
    } else if name == "AUX3_STATUS_EVENT"@ {
        0x2000_0000
    } else if name == "AUX2_STATUS_EVENT"@ {
        0x4000_0000
    } else if name == "AUX1_STATUS_EVENT"@ {
        0x8000_0000
    } else {
        0
    }
}

/// Turns the name of a receiver status flag, with or without quotes around
/// it, into its bit. A name that is not known gives no bit.
pub fn convert_system_status(raw: &str) -> (code: u32)
    ensures
        code == system_status_code(unquoted(raw@)),
{
    let name = trim_char(raw, '"');
    if same_text(name, "ERROR_PRESENT") {
        0x0000_0001
    } else if same_text(name, "TEMPERATURE_WARNING") {
        0x0000_0002
    } else if same_text(name, "VOLTAGE_SUPPLY_WARNING") {
        0x0000_0004
    } else if same_text(name, "ANTENNA_NOT_POWERED") {
        0x0000_0008
    } else if same_text(name, "LNA_FAILURE") {
        0x0000_0010
    } else if same_text(name, "ANTENNA_OPEN") {
        0x0000_0020
    } else if same_text(name, "ANTENNA_SHORTENED") {
        0x0000_0040
    } else if same_text(name, "CPU_OVERLOAD") {
        0x0000_0080
    } else if same_text(name, "COM1_BUFFER_OVERRUN") {
        0x0000_0100
    } else if same_text(name, "COM2_BUFFER_OVERRUN") {
        0x0000_0200
    } else if same_text(name, "COM3_BUFFER_OVERRUN") {
        0x0000_0400
    } else if same_text(name, "LINK_OVERRUN") {
        0x0000_0800
    } else if same_text(name, "AUX_TRANSMIT_OVERRUN") {
        0x0000_2000
    } else if same_text(name, "AGC_OUT_OF_RANGE") {
        0x0000_4000
    } else if same_text(name, "INS_RESET") {
        0x0001_0000
    } else if same_text(name, "GPS_ALMANAC_INVALID") {
        0x0004_0000
    } else if same_text(name, "POSITION_SOLUTION_INVALID") {
        0x0008_0000
    } else if same_text(name, "POSITION_FIXED") {
        0x0010_0000
    } else if same_text(name, "CLOCK_STEERING_DISABLED") {
        0x0020_0000
    } else if same_text(name, "CLOCK_MODEL_INVALID") {
        0x0040_0000
    } else if same_text(name, "EXTERNAL_OSCILLATOR_LOCKED") {
        0x0080_0000
    } else if same_text(name, "SOFTWARE_RESOURCE_WARNING") {
        0x0100_0000
    } else if same_text(name, "AUX3_STATUS_EVENT") {
        0x2000_0000
    } else if same_text(name, "AUX2_STATUS_EVENT") {
        0x4000_0000
    } else if same_text(name, "AUX1_STATUS_EVENT") {
        0x8000_0000
    } else {
        0
    }
}

/// The code of a solution status by its name, 255 for a name that is not known.
pub open spec fn solution_status_code(name: Seq<char>) -> u8 {
    if name == "SOL_COMPUTED"@ {
        0
    } else if name == "INSUFFICIENT_OBSERVATIONS"@ {
        1
    } else if name == "NO_CONVERGENCE"@ {
        2
    } else if name == "SINGULARITY"@ {
        3
    } else if name == "COVARIANCE_TRACE_EXCEEDED"@ {
        4
    } else if name == "TEST_DISTANCE_EXCEEDED"@ {
        5
    } else if name == "COLD_START"@ {
        6
    } else if name == "HEIGHT_VELOCITY_EXCEEDED"@ {
        7
    } else if name == "VARIANCE_EXCEEDED"@ {
        8
    } else if name == "RESIDUALS_TOO_LARGE"@ {
        9
    } else if name == "INTEGRITY_WARNING"@ {
        13
    } else if name == "PENDING"@ {
        18
    } else if name == "INVALID_FIX"@ {
        19
    } else if name == "UNAUTHORIZED"@ {
        20
    } else {
        255
    }
}

/// Turns the name of a solution status, with or without quotes around it,
/// into its one-byte code. A name that is not known gives 255.
pub fn convert_solution_status(raw: &str) -> (code: u8)
    ensures
        code == solution_status_code(unquoted(raw@)),
{
    let name = trim_char(raw, '"');
    if same_text(name, "SOL_COMPUTED") {
        0
    } else if same_text(name, "INSUFFICIENT_OBSERVATIONS") {
        1
    } else if same_text(name, "NO_CONVERGENCE") {
        2
    } else if same_text(name, "SINGULARITY") {
        3
    } else if same_text(name, "COVARIANCE_TRACE_EXCEEDED") {
        4
    } else if same_text(name, "TEST_DISTANCE_EXCEEDED") {
        5
    } else if same_text(name, "COLD_START") {
        6
    } else if same_text(name, "HEIGHT_VELOCITY_EXCEEDED") {
        7
    } else if same_text(name, "VARIANCE_EXCEEDED") {
        8
    } else if same_text(name, "RESIDUALS_TOO_LARGE") {
        9
    } else if same_text(name, "INTEGRITY_WARNING") {
        13
    } else if same_text(name, "PENDING") {
        18
    } else if same_text(name, "INVALID_FIX") {
        19
    } else if same_text(name, "UNAUTHORIZED") {
        20
    } else {
        255
    }
}

/// The code of a position or velocity type by its name, `0xFFFF` for a name that is not known.
pub open spec fn posvel_type_code(name: Seq<char>) -> u16 {
    if name == "NONE"@ {
        0
    } else if name == "FIXED_POS"@ {
        1
    } else if name == "FIXED_HEIGHT"@ {
        2
    } else if name == "DOPPLER_VELOCITY"@ {
        8
    } else if name == "SINGLE"@ {
        16
    } else if name == "PSRDIFF"@ {
        17
    } else if name == "WAAS"@ {
        18
    } else if name == "PROPAGATED"@ {
        19
    } else if name == "OMNISTAR"@ {
        20
    } else if name == "L1FLOAT"@ {
        32
    } else if name == "IONO_FREE_FLOAT"@ {
        33
    } else if name == "NARROW_FLOAT"@ {
        34
    } else if name == "L1INTEGER"@ {
        48
    } else if name == "NARROW_INTEGER"@ {
        50
    } else if name == "OMNISTAR_HP"@ {
        64
    } else if name == "OMNISTAR_XP"@ {
        65
    } else if name == "PPPCONVERGING"@ {
        68
    } else if name == "PPP"@ {
        69
    } else if name == "OPERATIONAL"@ {
        70
    } else if name == "WARNING"@ {
        71
    } else if name == "OUT_OF_BOUNDS"@ {
        72
    } else if name == "PPPBASIC_CONVERGING"@ {
        77
    } else if name == "PPPBASIC"@ {
        78
    } else {
        0xFFFF
    }
}

/// Turns the name of a position or velocity type, with or without quotes
/// around it, into its two-byte code. A name that is not known gives `0xFFFF`.
pub fn convert_posvel_type(raw: &str) -> (code: u16)
    ensures
        code == posvel_type_code(unquoted(raw@)),
{
    let name = trim_char(raw, '"');
    if same_text(name, "NONE") {
        0
    } else if same_text(name, "FIXED_POS") {
        1
    } else if same_text(name, "FIXED_HEIGHT") {
        2
    } else if same_text(name, "DOPPLER_VELOCITY") {
        8
    } else if same_text(name, "SINGLE") {
        16
    } else if same_text(name, "PSRDIFF") {
        17
    } else if same_text(name, "WAAS") {
        18
    } else if same_text(name, "PROPAGATED") {
        19
    } else if same_text(name, "OMNISTAR") {
        20
    } else if same_text(name, "L1FLOAT") {
        32
    } else if same_text(name, "IONO_FREE_FLOAT") {
        33
    } else if same_text(name, "NARROW_FLOAT") {
        34
    } else if same_text(name, "L1INTEGER") {
        48
    } else if same_text(name, "NARROW_INTEGER") {
        50
    } else if same_text(name, "OMNISTAR_HP") {
        64
    } else if same_text(name, "OMNISTAR_XP") {
        65
    } else if same_text(name, "PPPCONVERGING") {
        68
    } else if same_text(name, "PPP") {
        69
    } else if same_text(name, "OPERATIONAL") {
        70
    } else if same_text(name, "WARNING") {
        71
    } else if same_text(name, "OUT_OF_BOUNDS") {
        72
    } else if same_text(name, "PPPBASIC_CONVERGING") {
        77
    } else if same_text(name, "PPPBASIC") {
        78
    } else {
        0xFFFF
    }
}

/// The code of a time status by its name, 255 for a name that is not known.
pub open spec fn time_status_code(name: Seq<char>) -> u8 {
    if name == "UNKNOWN"@ {
        20
    } else if name == "APPROXIMATE"@ {
        60
    } else if name == "COARSE_ADJUSTING"@ {
        80
    } else if name == "COARSE"@ {
        100
    } else if name == "COARSE_STEERING"@ {
        120
    } else if name == "FREE_WHEELING"@ {
        130
    } else if name == "FINE_ADJUSTING"@ {
        140
    } else if name == "FINE"@ {
        160
    } else if name == "FINE_BACKUP_STEERING"@ {
        170
    } else if name == "FINE_STEERING"@ {
        180
    } else if name == "SAT_TIME"@ {
        200
    } else {
        255
    }
}

/// Turns the name of a time status into its one-byte code. The name is taken
/// as it stands: quotes around it are not removed. A name that is not known
/// gives 255.
pub fn convert_time_status(raw: &str) -> (code: u8)
    ensures
        code == time_status_code(raw@),
{
    let name = raw;
    if same_text(name, "UNKNOWN") {
        20
    } else if same_text(name, "APPROXIMATE") {
        60
    } else if same_text(name, "COARSE_ADJUSTING") {
        80
    } else if same_text(name, "COARSE") {
        100
    } else if same_text(name, "COARSE_STEERING") {
        120
    } else if same_text(name, "FREE_WHEELING") {
        130
    } else if same_text(name, "FINE_ADJUSTING") {
        140
    } else if same_text(name, "FINE") {
        160
    } else if same_text(name, "FINE_BACKUP_STEERING") {
        170
    } else if same_text(name, "FINE_STEERING") {
        180
    } else if same_text(name, "SAT_TIME") {
        200
    } else {
        255
    }
}

/// What a position packet or a velocity packet tells. The coordinates are the
/// bits of 64-bit floats.
#[derive(Clone, Copy, Debug, PartialEq, Eq, Structural)]
pub struct GpsVector {
    /// The solution status, as [`convert_solution_status`] gives it.
    pub status: u8,
    /// The solution type, as [`convert_posvel_type`] gives it.
    pub kind: u16,
    pub x_bits: u64,
    pub y_bits: u64,
    pub z_bits: u64,
}

/// The 27 bytes of the payload: the fields in the order of their
/// declaration, each of its own width.
pub open spec fn vector_bytes(m: GpsVector) -> Seq<u8> {
    seq![m.status]
        + le16(m.kind)
        + le64(m.x_bits)
        + le64(m.y_bits)
        + le64(m.z_bits)
}

/// Builds the payload of a position packet or of a velocity packet.
pub fn gps_vector_message(m: &GpsVector) -> (message: Vec<u8>)
    ensures
        message@ == vector_bytes(*m),
        message@.len() == 27,
{
    let mut message: Vec<u8> = Vec::new();
    message.push(m.status);
    put_u16(&mut message, m.kind);
    put_u64(&mut message, m.x_bits);
    put_u64(&mut message, m.y_bits);
    put_u64(&mut message, m.z_bits);
    assert(message@ =~= vector_bytes(*m));
    message
}

/// What the third navigation packet tells.
#[derive(Clone, Copy, Debug, PartialEq, Eq, Structural)]
pub struct GpsMisc {
    /// How well the time is known, as [`convert_time_status`] gives it.
    pub time_status: u8,
    /// Last known time: whole weeks.
    pub time_week: u16,
    /// Last known time: milliseconds into the week.
    pub time_ms: u32,
    /// The receiver's status flags, as [`convert_system_status`] gives them.
    pub system_status: u32,
    /// The receiver's status as its carrier module sees it.
    pub gps_status: u16,
    /// The power status as the carrier module sees it.
    pub power_status: u8,
    /// Power drawn: the bits of a 32-bit float.
    pub power_3v_usb_bits: u32,
    /// Whether the receiver is on.
    pub power: u8,
    /// Time of the last lock: whole weeks.
    pub lock_time_week: u16,
    /// Time of the last lock: milliseconds into the week.
    pub lock_time_ms: u32,
}

/// The 25 bytes of the payload: the fields in the order of their
/// declaration, each of its own width.
pub open spec fn misc_bytes(m: GpsMisc) -> Seq<u8> {
    seq![m.time_status]
        + le16(m.time_week)
        + le32(m.time_ms)
        + le32(m.system_status)
        + le16(m.gps_status)
        + seq![m.power_status]
        + le32(m.power_3v_usb_bits)
        + seq![m.power]
        + le16(m.lock_time_week)
        + le32(m.lock_time_ms)
}

/// Builds the payload of the third navigation packet.
pub fn gps_misc_message(m: &GpsMisc) -> (message: Vec<u8>)
    ensures
        message@ == misc_bytes(*m),
        message@.len() == 25,
{
    let mut message: Vec<u8> = Vec::new();
    message.push(m.time_status);
    put_u16(&mut message, m.time_week);
    put_u32(&mut message, m.time_ms);
    put_u32(&mut message, m.system_status);
    put_u16(&mut message, m.gps_status);
    message.push(m.power_status);
    put_u32(&mut message, m.power_3v_usb_bits);
    message.push(m.power);
    put_u16(&mut message, m.lock_time_week);
    put_u32(&mut message, m.lock_time_ms);
    assert(message@ =~= misc_bytes(*m));
    message
}

} // verus!
