//! OTA firmware-update protocol message types and serialization.
//!
//! All messages fit within a 32-byte mesh payload. The first byte is the
//! message type; remaining bytes are the payload.

pub mod msg;
pub mod reason;

use vstd::prelude::*;
use crate::bytes::{
    copy_into, hi8, lo8, overwrite, u16_from, u16_le, u16_of, u16_round_trip, u32_from, u32_le,
    u32_of, u32_round_trip, u32_to_le,
};

verus! {

/// Maximum data bytes per chunk (32 - 1 type - 2 index - 1 length = 27).
pub const CHUNK_DATA_SIZE: usize = 27;

/// Firmware offer sent from initiator to target.
#[derive(Debug, Clone, Copy)]
pub struct OtaOffer {
    pub firmware_size: u32,
    pub total_chunks: u16,
    pub crc32: u32,
    pub version: u16,
}

/// The message that makes offer `o`.
pub open spec fn offer_bytes(o: OtaOffer) -> Seq<u8> {
    seq![msg::OTA_OFFER] + u32_le(o.firmware_size) + u16_le(o.total_chunks) + u32_le(o.crc32)
        + u16_le(o.version)
}

/// The offer that the bytes after the type byte make, if they make one.
pub open spec fn parse_offer(data: Seq<u8>) -> Option<OtaOffer> {
    if data.len() < 12 {
        None
    } else {
        Some(
            OtaOffer {
                firmware_size: u32_of(data[0], data[1], data[2], data[3]),
                total_chunks: u16_of(data[4], data[5]),
                crc32: u32_of(data[6], data[7], data[8], data[9]),
                version: u16_of(data[10], data[11]),
            },
        )
    }
}

impl OtaOffer {
    /// Serialize into a 32-byte buffer (type prefix included). Returns slice length.
    pub fn serialize(&self, buf: &mut [u8; 32]) -> (n: usize)
        ensures
            n == offer_bytes(*self).len(),
            final(buf)@ == overwrite(old(buf)@, 0, offer_bytes(*self)),
    {
        buf[0] = msg::OTA_OFFER;
        copy_into(buf, 1, &u32_to_le(self.firmware_size));
        buf[5] = lo8(self.total_chunks);
        buf[6] = hi8(self.total_chunks);
        copy_into(buf, 7, &u32_to_le(self.crc32));
        buf[11] = lo8(self.version);
        buf[12] = hi8(self.version);
        assert(buf@ =~= overwrite(old(buf)@, 0, offer_bytes(*self)));
        13
    }

    /// Deserialize from raw bytes (excluding the type prefix byte).
    pub fn deserialize(data: &[u8]) -> (r: Option<OtaOffer>)
        ensures
            r == parse_offer(data@),
    {
        if data.len() < 12 {
            return None;
        }
        Some(
            OtaOffer {
                firmware_size: u32_from(data[0], data[1], data[2], data[3]),
                total_chunks: u16_from(data[4], data[5]),
                crc32: u32_from(data[6], data[7], data[8], data[9]),
                version: u16_from(data[10], data[11]),
            },
        )
    }
}

/// A single firmware chunk: index + up to 27 bytes of data.
#[derive(Debug, Clone)]
pub struct OtaChunk {
    pub index: u16,
    pub data: [u8; CHUNK_DATA_SIZE],
    pub data_len: u8,
}

/// The message that carries `data` as chunk `index`.
pub open spec fn chunk_bytes(index: u16, data: Seq<u8>) -> Seq<u8> {
    seq![msg::OTA_CHUNK] + u16_le(index) + seq![data.len() as u8] + data
}

/// The number of data bytes that a chunk message with length byte `n` carries.
pub open spec fn chunk_len(n: u8) -> int {
    if n <= CHUNK_DATA_SIZE {
        n as int
    } else {
        CHUNK_DATA_SIZE as int
    }
}

/// The chunk index and data that the bytes after the type byte carry, if they
/// carry a chunk.
pub open spec fn parse_chunk(data: Seq<u8>) -> Option<(u16, Seq<u8>)> {
    if data.len() < 3 || data.len() < 3 + chunk_len(data[2]) {
        None
    } else {
        Some((u16_of(data[0], data[1]), data.subrange(3, 3 + chunk_len(data[2]))))
    }
}

impl OtaChunk {
    /// The data that the chunk carries.
    pub open spec fn bytes(self) -> Seq<u8> {
        self.data@.subrange(0, self.data_len as int)
    }

    /// Serialize into a 32-byte buffer (type prefix included). Returns slice length.
    pub fn serialize(&self, buf: &mut [u8; 32]) -> (n: usize)
        requires
            self.data_len <= CHUNK_DATA_SIZE,
        ensures
            n == chunk_bytes(self.index, self.bytes()).len(),
            final(buf)@ == overwrite(old(buf)@, 0, chunk_bytes(self.index, self.bytes())),
    {
        buf[0] = msg::OTA_CHUNK;
        buf[1] = lo8(self.index);
        buf[2] = hi8(self.index);
        buf[3] = self.data_len;
        let end: usize = 4 + self.data_len as usize;
        copy_into(buf, 4, &self.data[0..self.data_len as usize]);
        assert(buf@ =~= overwrite(old(buf)@, 0, chunk_bytes(self.index, self.bytes())));
        end
    }

    /// Deserialize from raw bytes (excluding the type prefix byte). Data bytes
    /// past the chunk's length are zero.
    pub fn deserialize(data: &[u8]) -> (r: Option<OtaChunk>)
        ensures
            r is Some == parse_chunk(data@) is Some,
            r matches Some(c) ==> {
                &&& c.data_len <= CHUNK_DATA_SIZE
                &&& parse_chunk(data@) == Some((c.index, c.bytes()))
                &&& forall|i: int| c.data_len <= i < CHUNK_DATA_SIZE ==> c.data@[i] == 0
            },
    {
        if data.len() < 3 {
            return None;
        }
        let index: u16 = u16_from(data[0], data[1]);
        let data_len: u8 = if data[2] <= CHUNK_DATA_SIZE as u8 {
            data[2]
        } else {
            CHUNK_DATA_SIZE as u8
        };
        if data.len() - 3 < data_len as usize {
            return None;
        }
        let mut chunk_data: [u8; CHUNK_DATA_SIZE] = [0u8; CHUNK_DATA_SIZE];
        copy_into(&mut chunk_data, 0, &data[3..3 + data_len as usize]);
        let c = OtaChunk { index, data: chunk_data, data_len };
        assert(c.bytes() =~= data@.subrange(3, 3 + chunk_len(data@[2])));
        Some(c)
    }
}

/// The answer to a chunk: which one it was, and which one is needed next.
#[derive(Debug, Clone, Copy)]
pub struct OtaChunkAck {
    pub chunk_index: u16,
    pub next_needed: u16,
}

/// The message that acknowledges chunk `chunk_index` and asks for `next_needed`.
pub open spec fn ack_bytes(chunk_index: u16, next_needed: u16) -> Seq<u8> {
    seq![msg::OTA_CHUNK_ACK] + u16_le(chunk_index) + u16_le(next_needed)
}

impl OtaChunkAck {
    /// Serialize into a 32-byte buffer (type prefix included). Returns slice length.
    pub fn serialize(&self, buf: &mut [u8; 32]) -> (n: usize)
        ensures
            n == ack_bytes(self.chunk_index, self.next_needed).len(),
            final(buf)@ == overwrite(
                old(buf)@,
                0,
                ack_bytes(self.chunk_index, self.next_needed),
            ),
    {
        buf[0] = msg::OTA_CHUNK_ACK;
        buf[1] = lo8(self.chunk_index);
        buf[2] = hi8(self.chunk_index);
        buf[3] = lo8(self.next_needed);
        buf[4] = hi8(self.next_needed);
        assert(buf@ =~= overwrite(
            old(buf)@,
            0,
            ack_bytes(self.chunk_index, self.next_needed),
        ));
        5
    }
}

/// The message that accepts an offer.
pub open spec fn accept_bytes() -> Seq<u8> {
    seq![msg::OTA_ACCEPT]
}

/// The message that rejects an offer.
pub open spec fn reject_bytes(reason: u8) -> Seq<u8> {
    seq![msg::OTA_REJECT, reason]
}

/// The message that aborts a transfer.
pub open spec fn abort_bytes(reason: u8) -> Seq<u8> {
    seq![msg::OTA_ABORT, reason]
}

/// The message that reports a verified image.
pub open spec fn complete_bytes(crc32: u32) -> Seq<u8> {
    seq![msg::OTA_COMPLETE] + u32_le(crc32)
}

/// Serialize a simple 1-byte-type message (ACCEPT).
pub fn serialize_accept(buf: &mut [u8; 32]) -> (n: usize)
    ensures
        n == accept_bytes().len(),
        final(buf)@ == overwrite(old(buf)@, 0, accept_bytes()),
{
    buf[0] = msg::OTA_ACCEPT;
    assert(buf@ =~= overwrite(old(buf)@, 0, accept_bytes()));
    1
}

/// Serialize a REJECT with reason.
pub fn serialize_reject(buf: &mut [u8; 32], reason: u8) -> (n: usize)
    ensures
        n == reject_bytes(reason).len(),
        final(buf)@ == overwrite(old(buf)@, 0, reject_bytes(reason)),
{
    buf[0] = msg::OTA_REJECT;
    buf[1] = reason;
    assert(buf@ =~= overwrite(old(buf)@, 0, reject_bytes(reason)));
    2
}

/// Serialize an ABORT with reason.
pub fn serialize_abort(buf: &mut [u8; 32], reason: u8) -> (n: usize)
    ensures
        n == abort_bytes(reason).len(),
        final(buf)@ == overwrite(old(buf)@, 0, abort_bytes(reason)),
{
    buf[0] = msg::OTA_ABORT;
    buf[1] = reason;
    assert(buf@ =~= overwrite(old(buf)@, 0, abort_bytes(reason)));
    2
}

/// Serialize OTA_COMPLETE with verified CRC.
pub fn serialize_complete(buf: &mut [u8; 32], crc32: u32) -> (n: usize)
    ensures
        n == complete_bytes(crc32).len(),
        final(buf)@ == overwrite(old(buf)@, 0, complete_bytes(crc32)),
{
    buf[0] = msg::OTA_COMPLETE;
    copy_into(buf, 1, &u32_to_le(crc32));
    assert(buf@ =~= overwrite(old(buf)@, 0, complete_bytes(crc32)));
    5
}

/// Whether a mesh payload is an OTA message.
pub open spec fn is_ota(data: Seq<u8>) -> bool {
    data.len() > 0 && 0xF0 <= data[0] <= 0xF6
}

/// Returns `true` if the first byte of a mesh payload is an OTA message type.
pub fn is_ota_message(data: &[u8]) -> (r: bool)
    ensures
        r == is_ota(data@),
{
    data.len() > 0 && 0xF0 <= data[0] && data[0] <= 0xF6
}

/// An offer reads back as it was written, whatever padding follows it.
pub proof fn offer_round_trip(o: OtaOffer, padding: Seq<u8>)
    ensures
        parse_offer((offer_bytes(o) + padding).skip(1)) == Some(o),
{
    let data = (offer_bytes(o) + padding).skip(1);
    u32_round_trip(o.firmware_size);
    u16_round_trip(o.total_chunks);
    u32_round_trip(o.crc32);
    u16_round_trip(o.version);
    assert(u32_le(o.firmware_size) =~= seq![data[0], data[1], data[2], data[3]]);
    assert(u16_le(o.total_chunks) =~= seq![data[4], data[5]]);
    assert(u32_le(o.crc32) =~= seq![data[6], data[7], data[8], data[9]]);
    assert(u16_le(o.version) =~= seq![data[10], data[11]]);
}

/// A chunk reads back as it was written, whatever padding follows it: zero
/// bytes in the data and zero bytes after it stay apart.
pub proof fn chunk_round_trip(index: u16, data: Seq<u8>, padding: Seq<u8>)
    requires
        data.len() <= CHUNK_DATA_SIZE,
    ensures
        parse_chunk((chunk_bytes(index, data) + padding).skip(1)) == Some((index, data)),
{
    let bytes = (chunk_bytes(index, data) + padding).skip(1);
    u16_round_trip(index);
    assert(u16_le(index) =~= seq![bytes[0], bytes[1]]);
    assert(bytes.subrange(3, 3 + data.len() as int) =~= data);
}

/// Every message fits a 32-byte mesh payload and is told apart as an OTA
/// message by its first byte.
pub proof fn messages_fit_the_mesh(
    o: OtaOffer,
    index: u16,
    data: Seq<u8>,
    next: u16,
    reason: u8,
    crc32: u32,
)
    requires
        data.len() <= CHUNK_DATA_SIZE,
    ensures
        offer_bytes(o).len() <= 32 && is_ota(offer_bytes(o)),
        chunk_bytes(index, data).len() <= 32 && is_ota(chunk_bytes(index, data)),
        ack_bytes(index, next).len() <= 32 && is_ota(ack_bytes(index, next)),
        accept_bytes().len() <= 32 && is_ota(accept_bytes()),
        reject_bytes(reason).len() <= 32 && is_ota(reject_bytes(reason)),
        abort_bytes(reason).len() <= 32 && is_ota(abort_bytes(reason)),
        complete_bytes(crc32).len() <= 32 && is_ota(complete_bytes(crc32)),
{
}

} // verus!
