//! Commands from the host to the base station.

use vstd::prelude::*;

verus! {

// OTA commands (0x01 to 0x0F)
pub const START_OTA: u8 = 0x01;

pub const FW_DATA: u8 = 0x02;

pub const BEGIN_TRANSFER: u8 = 0x03;

pub const QUERY_STATUS: u8 = 0x04;

pub const ABORT_OTA: u8 = 0x05;

// Data relay commands (0x10 to 0x1F)
pub const SEND_MSG: u8 = 0x10;

pub const SEND_BROADCAST: u8 = 0x11;

} // verus!
