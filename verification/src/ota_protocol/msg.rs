//! Message type IDs (first byte of mesh payload).

use vstd::prelude::*;

verus! {

pub const OTA_OFFER: u8 = 0xF0;

pub const OTA_ACCEPT: u8 = 0xF1;

pub const OTA_REJECT: u8 = 0xF2;

pub const OTA_CHUNK: u8 = 0xF3;

pub const OTA_CHUNK_ACK: u8 = 0xF4;

pub const OTA_ABORT: u8 = 0xF5;

pub const OTA_COMPLETE: u8 = 0xF6;

} // verus!
