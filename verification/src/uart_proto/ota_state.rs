//! OTA state codes (used in PROGRESS responses).

use vstd::prelude::*;

verus! {

pub const IDLE: u8 = 0x00;

pub const RECEIVING_FW: u8 = 0x01;

pub const TRANSFERRING: u8 = 0x02;

pub const COMPLETE: u8 = 0x03;

pub const FAILED: u8 = 0x04;

} // verus!
