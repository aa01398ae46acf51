//! What goes into the beacon packets of each telemetry category.

pub mod adcs;
pub mod errors;
pub mod gps;
pub mod obc;
pub mod power;
pub mod supmcu;
pub mod temperature;
