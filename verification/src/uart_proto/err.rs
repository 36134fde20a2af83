//! NAK error codes.

use vstd::prelude::*;

verus! {

pub const INVALID_STATE: u8 = 0x01;

pub const BAD_SIZE: u8 = 0x02;

pub const FLASH_ERROR: u8 = 0x03;

pub const BAD_FRAME: u8 = 0x04;

pub const NO_FW_DATA: u8 = 0x05;

} // verus!
