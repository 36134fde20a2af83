//! Reject / abort reason codes.

use vstd::prelude::*;

verus! {

pub const NO_SPACE: u8 = 0x01;

pub const BAD_VERSION: u8 = 0x02;

pub const CRC_MISMATCH: u8 = 0x03;

pub const FLASH_ERROR: u8 = 0x04;

pub const TIMEOUT: u8 = 0x05;

pub const BUSY: u8 = 0x06;

} // verus!
