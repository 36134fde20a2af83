//! Responses from the base station to the host.

use vstd::prelude::*;

verus! {

pub const ACK: u8 = 0x81;

pub const NAK: u8 = 0x82;

pub const PROGRESS: u8 = 0x83;

pub const OTA_DONE: u8 = 0x84;

// Data relay responses (0x90 to 0x9F)
pub const RECV_MSG: u8 = 0x90;

} // verus!
