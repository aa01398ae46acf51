//! Flight software core for a small satellite.
//!
//! Two things here must not go wrong. The [`deploy`] sequencer releases the
//! solar panels, once in a mission: it honours the remove-before-flight
//! interlock and a hold timer that survives reboots ([`hold`]). The [`radio`]
//! link sends short status packets ([`frame`], [`command`]) over a slow
//! one-way channel, one at a time, and reads from the channel's [`status`]
//! whether a packet went out.
//!
//! Neither of them touches the outside world. Each is a state machine that
//! says what is to be done next and is told what became of it; reading the
//! store and the clock, waiting, and talking to the hardware are left to the
//! program that drives it.
//!
//! The rest is what goes into the packets ([`packets`], [`wire`]), the
//! housekeeping of the flight computer ([`usage`], [`telemetry`],
//! [`services`]), and the reading and writing of numbers and text that these
//! need ([`decimal`], [`hexnum`], [`scan`], [`text`], [`json`]).

pub mod command;
pub mod decimal;
pub mod deploy;
pub mod frame;
pub mod hexnum;
pub mod hold;
pub mod json;
pub mod packets;
pub mod radio;
pub mod scan;
pub mod services;
pub mod status;
pub mod telemetry;
pub mod text;
pub mod usage;
pub mod wire;
