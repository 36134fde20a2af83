//! The radio as the RadioHead stack sees it.

use vstd::prelude::*;

verus! {

/// Trait that users implement to bridge their radio hardware to RadioHead.
///
/// All packets are raw over-the-air format: a 4-byte RadioHead header
/// (`[TO, FROM, ID, FLAGS]`) followed by the payload. The C++ routing
/// stack handles header construction and parsing internally.
pub trait RadioDriver {
    /// Poll for a received packet (non-blocking).
    ///
    /// If a packet is available, write it into `buf` and return
    /// `Some((total_bytes_written, rssi_dbm))`.
    /// If nothing is available, return `None`.
    fn poll_recv(&mut self, buf: &mut [u8]) -> Option<(u8, i16)>;

    /// Transmit a raw packet. Should block until transmission is complete.
    fn send(&mut self, data: &[u8]) -> bool;

    /// Maximum raw packet size the radio supports (including the 4-byte
    /// RadioHead header). For SX1262 this is typically 255.
    fn max_message_length(&self) -> u8;
}

} // verus!
