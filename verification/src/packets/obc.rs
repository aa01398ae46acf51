//! The payload of the flight computer packet: memory available in percent,
//! disk in use in percent, and whether the panels have deployed.

use vstd::prelude::*;

verus! {

/// The three bytes of the payload.
pub open spec fn message_of(ram_percent: u8, disk_percent: u8, deployed: bool) -> Seq<u8> {
    seq![
        ram_percent,
        disk_percent,
        if deployed {
            1u8
        } else {
            0u8
        },
    ]
}

/// Builds the payload.
pub fn obc_message(ram_percent: u8, disk_percent: u8, deployed: bool) -> (message: Vec<u8>)
    ensures
        message@ == message_of(ram_percent, disk_percent, deployed),
{
    let mut message: Vec<u8> = Vec::new();
    message.push(ram_percent);
    message.push(disk_percent);
    message.push(if deployed { 1 } else { 0 });
    message
}

} // verus!
