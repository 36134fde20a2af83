//! OTA firmware-update sender (initiator).
//!
//! Takes firmware from the DFU flash partition and pushes it chunk-by-chunk
//! to a target node over the mesh radio link.
//!
//! # Usage
//!
//! 1. Flash the new firmware `.bin` into the DFU partition (pages 64+).
//! 2. Create an [`OtaSender`] with the firmware metadata.
//! 3. Call [`OtaSender::next_message`] in the main loop to get the next
//!    outgoing OTA message.
//! 4. Route incoming OTA responses to [`OtaSender::handle_message`].
//!
//! The sender follows stop-and-wait ARQ: it sends one chunk, waits for an
//! ACK, then sends the next. Retransmission on timeout is handled internally.

use vstd::prelude::*;
use crate::bytes::{copy_into, u16_from, u16_of};
use crate::crc::image_crc;
use crate::ota::compute_crc32;
use crate::ota_protocol::{
    chunk_bytes, msg, offer_bytes, OtaChunk, OtaOffer, CHUNK_DATA_SIZE,
};

verus! {

/// Retransmit a chunk if no ACK arrives within this many calls to
/// `next_message`. At ~1 ms per loop iteration this is roughly 2 seconds.
pub const RETRANSMIT_TIMEOUT: u32 = 2000;

/// How far a sender is.
#[derive(Debug, Clone, Copy, PartialEq, Eq, Structural)]
pub enum Phase {
    /// Send the initial OTA_OFFER.
    Offering,
    /// Waiting for OTA_ACCEPT / OTA_REJECT after sending the offer.
    WaitAccept,
    /// Sending chunks (stop-and-wait).
    Sending,
    /// Transfer finished (success or failure).
    Done,
}

/// Result of a completed (or failed) OTA transfer.
#[derive(Debug, Clone, Copy, PartialEq, Eq, Structural)]
pub enum OtaResult {
    /// Target confirmed CRC match and will reboot.
    Success,
    /// Target rejected the offer (reason code).
    Rejected(u8),
    /// Target aborted the transfer (reason code).
    Aborted(u8),
}

/// A sender as the contracts speak of it.
pub struct SenderView {
    pub offer: OtaOffer,
    pub phase: Phase,
    /// Chunk to (re-)transmit.
    pub current_chunk: u16,
    /// Calls of `next_message` until the next retransmission.
    pub timer: u32,
    pub result: Option<OtaResult>,
}

/// The number of chunks that `size` bytes make.
pub open spec fn chunk_count(size: int) -> int {
    (size + CHUNK_DATA_SIZE - 1) / CHUNK_DATA_SIZE as int
}

/// The data of chunk `index` of the first `size` bytes of `dfu`: empty past
/// their end.
pub open spec fn chunk_data(dfu: Seq<u8>, size: int, index: int) -> Seq<u8> {
    let start = index * CHUNK_DATA_SIZE;
    if start >= size {
        Seq::empty()
    } else if start + CHUNK_DATA_SIZE <= size {
        dfu.subrange(start, start + CHUNK_DATA_SIZE)
    } else {
        dfu.subrange(start, size)
    }
}

/// The message that (re-)transmits the current chunk.
pub open spec fn current_chunk_bytes(s: SenderView, dfu: Seq<u8>) -> Seq<u8> {
    chunk_bytes(
        s.current_chunk,
        chunk_data(dfu, s.offer.firmware_size as int, s.current_chunk as int),
    )
}

/// One call of `next_message`.
pub open spec fn tx_next(s: SenderView, dfu: Seq<u8>) -> (SenderView, Option<Seq<u8>>) {
    if s.phase == Phase::Done {
        (s, None)
    } else if s.phase == Phase::Offering {
        (
            SenderView { phase: Phase::WaitAccept, timer: RETRANSMIT_TIMEOUT, ..s },
            Some(offer_bytes(s.offer)),
        )
    } else if s.timer > 0 {
        (SenderView { timer: (s.timer - 1) as u32, ..s }, None)
    } else {
        (
            SenderView { timer: RETRANSMIT_TIMEOUT, ..s },
            Some(
                if s.phase == Phase::WaitAccept {
                    offer_bytes(s.offer)
                } else {
                    current_chunk_bytes(s, dfu)
                },
            ),
        )
    }
}

/// The transfer is over, with this result.
pub open spec fn tx_done(s: SenderView, result: OtaResult) -> (SenderView, Option<OtaResult>) {
    (SenderView { phase: Phase::Done, result: Some(result), ..s }, Some(result))
}

/// The reason code of a message: its second byte, or zero.
pub open spec fn reason_of(message: Seq<u8>) -> u8 {
    if message.len() > 1 {
        message[1]
    } else {
        0
    }
}

/// A message from the target arrives.
pub open spec fn tx_message(s: SenderView, message: Seq<u8>) -> (SenderView, Option<OtaResult>) {
    if message.len() == 0 {
        (s, None)
    } else if message[0] == msg::OTA_ACCEPT && s.phase == Phase::WaitAccept {
        // Send first chunk immediately
        (SenderView { phase: Phase::Sending, current_chunk: 0, timer: 0, ..s }, None)
    } else if message[0] == msg::OTA_REJECT {
        tx_done(s, OtaResult::Rejected(reason_of(message)))
    } else if message[0] == msg::OTA_CHUNK_ACK && s.phase == Phase::Sending && message.len() >= 5 {
        let next_needed = u16_of(message[3], message[4]);
        (
            SenderView {
                current_chunk: next_needed,
                // Send the next chunk immediately, or wait for OTA_COMPLETE
                timer: if next_needed >= s.offer.total_chunks {
                    RETRANSMIT_TIMEOUT
                } else {
                    0
                },
                ..s
            },
            None,
        )
    } else if message[0] == msg::OTA_COMPLETE {
        tx_done(s, OtaResult::Success)
    } else if message[0] == msg::OTA_ABORT {
        tx_done(s, OtaResult::Aborted(reason_of(message)))
    } else {
        (s, None)
    }
}

/// OTA firmware-update sender.
pub struct OtaSender {
    offer: OtaOffer,
    phase: Phase,
    /// Current chunk index to (re-)transmit.
    current_chunk: u16,
    /// Countdown ticks until retransmit.
    retransmit_timer: u32,
    /// Final result once `phase == Done`.
    result: Option<OtaResult>,
}

/// An outgoing OTA message to send to the target node.
pub struct OtaMessage {
    pub data: [u8; 32],
    pub len: usize,
}

impl OtaMessage {
    /// The bytes to send.
    pub open spec fn view(self) -> Seq<u8> {
        self.data@.subrange(0, self.len as int)
    }
}

impl OtaSender {
    /// The sender as the contracts speak of it.
    pub closed spec fn view(self) -> SenderView {
        SenderView {
            offer: self.offer,
            phase: self.phase,
            current_chunk: self.current_chunk,
            timer: self.retransmit_timer,
            result: self.result,
        }
    }

    /// Create a new sender for firmware stored in the DFU partition.
    ///
    /// # Arguments
    /// - `firmware_size`: total firmware size in bytes (must fit in DFU partition).
    /// - `crc32`: expected CRC32 of the firmware data.
    /// - `version`: firmware version number.
    pub fn new(firmware_size: u32, crc32: u32, version: u16) -> (r: OtaSender)
        ensures
            r@ == (SenderView {
                offer: OtaOffer {
                    firmware_size,
                    total_chunks: (chunk_count(firmware_size as int) % 0x1_0000) as u16,
                    crc32,
                    version,
                },
                phase: Phase::Offering,
                current_chunk: 0,
                timer: 0,
                result: None,
            }),
    {
        let whole: u32 = firmware_size / CHUNK_DATA_SIZE as u32;
        let chunks: u32 = if firmware_size % CHUNK_DATA_SIZE as u32 == 0 {
            whole
        } else {
            whole + 1
        };
        assert(chunks == chunk_count(firmware_size as int));
        let total_chunks: u16 = (chunks % 0x1_0000) as u16;
        OtaSender {
            offer: OtaOffer { firmware_size, total_chunks, crc32, version },
            phase: Phase::Offering,
            current_chunk: 0,
            retransmit_timer: 0,
            result: None,
        }
    }

    /// Compute the CRC32 of the firmware in the DFU partition, whose contents
    /// are `dfu`.
    ///
    /// Call this before creating the sender to obtain the `crc32` parameter.
    pub fn compute_dfu_crc32(dfu: &[u8], firmware_size: u32) -> (r: u32)
        requires
            firmware_size <= dfu@.len(),
        ensures
            r == image_crc(dfu@.subrange(0, firmware_size as int)),
    {
        compute_crc32(&dfu[0..firmware_size as usize])
    }

    /// Get the next message to send, if any. `dfu` is what the DFU partition
    /// holds.
    ///
    /// Call this on every main-loop iteration. Returns `Some(msg)` when there
    /// is something to transmit, `None` when waiting for a response.
    pub fn next_message(&mut self, dfu: &[u8]) -> (r: Option<OtaMessage>)
        requires
            old(self)@.offer.firmware_size <= dfu@.len(),
        ensures
            final(self)@ == tx_next(old(self)@, dfu@).0,
            r is Some == tx_next(old(self)@, dfu@).1 is Some,
            r matches Some(m) ==> m.len <= 32 && tx_next(old(self)@, dfu@).1 == Some(m@),
    {
        match self.phase {
            Phase::Offering => {
                self.phase = Phase::WaitAccept;
                self.retransmit_timer = RETRANSMIT_TIMEOUT;
                Some(self.build_offer())
            },
            Phase::WaitAccept => {
                if self.retransmit_timer == 0 {
                    // Retransmit offer
                    self.retransmit_timer = RETRANSMIT_TIMEOUT;
                    Some(self.build_offer())
                } else {
                    self.retransmit_timer = self.retransmit_timer - 1;
                    None
                }
            },
            Phase::Sending => {
                if self.retransmit_timer == 0 {
                    // (Re-)transmit current chunk
                    self.retransmit_timer = RETRANSMIT_TIMEOUT;
                    Some(self.build_chunk(self.current_chunk, dfu))
                } else {
                    self.retransmit_timer = self.retransmit_timer - 1;
                    None
                }
            },
            Phase::Done => None,
        }
    }

    /// Handle an incoming OTA response from the target node.
    ///
    /// Returns `Some(result)` when the transfer is finished.
    pub fn handle_message(&mut self, msg_data: &[u8]) -> (r: Option<OtaResult>)
        ensures
            (final(self)@, r) == tx_message(old(self)@, msg_data@),
    {
        if msg_data.len() == 0 {
            return None;
        }
        match msg_data[0] {
            msg::OTA_ACCEPT => {
                if self.phase == Phase::WaitAccept {
                    self.phase = Phase::Sending;
                    self.current_chunk = 0;
                    // Send first chunk immediately
                    self.retransmit_timer = 0;
                }
                None
            },
            msg::OTA_REJECT => {
                self.phase = Phase::Done;
                self.result = Some(OtaResult::Rejected(message_reason(msg_data)));
                self.result
            },
            msg::OTA_CHUNK_ACK => {
                if self.phase == Phase::Sending && msg_data.len() >= 5 {
                    let next_needed: u16 = u16_from(msg_data[3], msg_data[4]);
                    self.current_chunk = next_needed;
                    if next_needed >= self.offer.total_chunks {
                        // All chunks acknowledged, wait for OTA_COMPLETE
                        self.retransmit_timer = RETRANSMIT_TIMEOUT;
                    } else {
                        // Send next chunk immediately
                        self.retransmit_timer = 0;
                    }
                }
                None
            },
            msg::OTA_COMPLETE => {
                self.phase = Phase::Done;
                self.result = Some(OtaResult::Success);
                self.result
            },
            msg::OTA_ABORT => {
                self.phase = Phase::Done;
                self.result = Some(OtaResult::Aborted(message_reason(msg_data)));
                self.result
            },
            _ => None,
        }
    }

    /// Return current progress as (sent_chunks, total_chunks), or `None` if done.
    pub fn progress(&self) -> (r: Option<(u16, u16)>)
        ensures
            r == (if self@.phase == Phase::Done {
                None
            } else {
                Some((self@.current_chunk, self@.offer.total_chunks))
            }),
    {
        match self.phase {
            Phase::Done => None,
            _ => Some((self.current_chunk, self.offer.total_chunks)),
        }
    }

    /// Whether the transfer has finished.
    pub fn is_done(&self) -> (r: bool)
        ensures
            r == (self@.phase == Phase::Done),
    {
        self.phase == Phase::Done
    }

    /// Get the final result after the transfer is done.
    pub fn result(&self) -> (r: Option<OtaResult>)
        ensures
            r == self@.result,
    {
        self.result
    }

    /// Size of the firmware that the sender offers.
    pub fn firmware_size(&self) -> (r: u32)
        ensures
            r == self@.offer.firmware_size,
    {
        self.offer.firmware_size
    }

    fn build_offer(&self) -> (r: OtaMessage)
        ensures
            r.len <= 32,
            r@ == offer_bytes(self@.offer),
    {
        let mut buf: [u8; 32] = [0u8; 32];
        let len: usize = self.offer.serialize(&mut buf);
        let r = OtaMessage { data: buf, len };
        assert(r@ =~= offer_bytes(self@.offer));
        r
    }

    /// Build an OTA_CHUNK message for the given chunk index from the contents
    /// of the DFU partition.
    fn build_chunk(&self, index: u16, dfu: &[u8]) -> (r: OtaMessage)
        requires
            self@.offer.firmware_size <= dfu@.len(),
        ensures
            r.len <= 32,
            r@ == chunk_bytes(
                index,
                chunk_data(dfu@, self@.offer.firmware_size as int, index as int),
            ),
    {
        let byte_offset: u32 = index as u32 * CHUNK_DATA_SIZE as u32;
        let remaining: u32 = self.offer.firmware_size.saturating_sub(byte_offset);
        let data_len: usize = if (remaining as usize) <= CHUNK_DATA_SIZE {
            remaining as usize
        } else {
            CHUNK_DATA_SIZE
        };
        let mut chunk_data_buf: [u8; CHUNK_DATA_SIZE] = [0u8; CHUNK_DATA_SIZE];
        if data_len > 0 {
            let start: usize = byte_offset as usize;
            copy_into(&mut chunk_data_buf, 0, &dfu[start..start + data_len]);
        }
        let chunk = OtaChunk { index, data: chunk_data_buf, data_len: data_len as u8 };
        assert(chunk.bytes() =~= chunk_data(
            dfu@,
            self@.offer.firmware_size as int,
            index as int,
        ));
        let mut buf: [u8; 32] = [0u8; 32];
        let len: usize = chunk.serialize(&mut buf);
        let r = OtaMessage { data: buf, len };
        assert(r@ =~= chunk_bytes(index, chunk.bytes()));
        r
    }
}

fn message_reason(message: &[u8]) -> (r: u8)
    ensures
        r == reason_of(message@),
{
    if message.len() > 1 {
        message[1]
    } else {
        0
    }
}

} // verus!
