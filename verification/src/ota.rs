//! OTA firmware-update receiver.
//!
//! Incoming mesh messages with an OTA type prefix are routed to
//! [`OtaReceiver::handle_message`], which drives a state machine that buffers
//! chunks, hands out flash pages to write, and eventually asks for the swap to the
//! new firmware; the node then reboots into it
//! ([`Node::transfer_finished`](crate::node::Node::transfer_finished)). The
//! receiver never touches the flash: it says which page to write or which bytes
//! to read back, and is told how that went.

use vstd::prelude::*;
use crate::bytes::copy_into;
use crate::config::DEFAULT_FIRMWARE_VERSION;
use crate::crc::{crc32_run, image_crc};
use crate::ota_protocol::{
    abort_bytes, accept_bytes, ack_bytes, complete_bytes, msg, parse_chunk, parse_offer, reason,
    reject_bytes, serialize_abort, serialize_accept, serialize_complete, serialize_reject,
    OtaChunk, OtaChunkAck, OtaOffer, CHUNK_DATA_SIZE,
};

verus! {

/// Size of a flash page in bytes.
pub const PAGE_SIZE: usize = 2048;

/// First DFU page index.
pub const DFU_PAGE_START: u8 = 64;

/// Pages of the DFU staging partition that hold an image.
pub const DFU_PAGES: u8 = 56;

/// Maximum firmware size (ACTIVE partition = 112 KB = 56 pages).
pub const MAX_FW_SIZE: u32 = 114688;

/// A transfer that has been silent for this long is dropped.
pub const TRANSFER_TIMEOUT_MS: u32 = 60000;

/// A transfer under way.
#[derive(Clone, Copy)]
struct Receiving {
    offer: OtaOffer,
    /// Next expected chunk index.
    next_chunk: u16,
    /// Current DFU page being filled (0-based index into DFU partition).
    current_page: u16,
    /// Byte offset within the page buffer.
    page_offset: u16,
    /// When the last chunk of the transfer came.
    last_ms: u32,
}

enum State {
    Idle,
    Active(Receiving),
    /// A full page is being written; `rest` holds what of chunk `index`
    /// belongs to the page after it.
    Flushing { rx: Receiving, index: u16, rest: [u8; CHUNK_DATA_SIZE], rest_len: usize },
    /// The last, partly filled page is being written.
    LastPage(Receiving),
    /// The image is being read back.
    Verifying(Receiving),
}

/// A transfer under way, as the contracts speak of it.
pub struct Transfer {
    pub offer: OtaOffer,
    /// Next expected chunk index.
    pub next_chunk: u16,
    /// Pages written so far.
    pub current_page: u16,
    /// What the page being filled holds so far.
    pub page: Seq<u8>,
    /// When the last chunk of the transfer came.
    pub last_ms: u32,
}

/// Where a receiver stands.
pub enum RxPhase {
    /// No transfer.
    Idle,
    /// Waiting for the next chunk.
    Active(Transfer),
    /// The page of the transfer is full and being written; `rest` is what of
    /// chunk `index` belongs to the page after it.
    Flushing { t: Transfer, index: u16, rest: Seq<u8> },
    /// All chunks are here; the last page is being written.
    LastPage(Transfer),
    /// All pages are written; the image is being read back.
    Verifying(Transfer),
}

/// What a receiver asks of its caller.
pub enum RxDo {
    /// Nothing but to send this reply, if there is one.
    Reply(Option<Seq<u8>>),
    /// Write the page buffer to this flash page, then say how it went.
    WritePage(u8),
    /// Read back this many bytes of the DFU partition.
    Verify(u32),
    /// Send this reply; if `swap`, ask the bootloader for a swap before.
    Finish { reply: Seq<u8>, swap: bool },
}

/// The flash page that holds page `current_page` of the image.
pub open spec fn page_index(current_page: u16) -> u8 {
    ((DFU_PAGE_START + current_page % 256) % 256) as u8
}

/// A whole page whose first bytes are `page`; the rest is as erased.
pub open spec fn page_image(page: Seq<u8>) -> Seq<u8> {
    Seq::new(
        PAGE_SIZE as nat,
        |i: int|
            if i < page.len() {
                page[i]
            } else {
                0xFF
            },
    )
}

/// What follows once the data of chunk `index` is in the page being filled.
pub open spec fn rx_advance(t: Transfer, index: u16) -> (RxPhase, RxDo) {
    if t.next_chunk < t.offer.total_chunks {
        (RxPhase::Active(t), RxDo::Reply(Some(ack_bytes(index, t.next_chunk))))
    } else if t.page.len() > 0 {
        (RxPhase::LastPage(t), RxDo::WritePage(page_index(t.current_page)))
    } else {
        (RxPhase::Verifying(t), RxDo::Verify(t.offer.firmware_size))
    }
}

/// An offer arrives.
pub open spec fn rx_offer(p: RxPhase, fw_version: u16, payload: Seq<u8>, now_ms: u32) -> (
    RxPhase,
    RxDo,
) {
    if !(p is Idle) {
        (p, RxDo::Reply(Some(reject_bytes(reason::BUSY))))
    } else {
        match parse_offer(payload) {
            None => (p, RxDo::Reply(None)),
            Some(offer) => if offer.firmware_size == 0 || offer.firmware_size > MAX_FW_SIZE {
                (p, RxDo::Reply(Some(reject_bytes(reason::NO_SPACE))))
            } else if offer.version <= fw_version {
                (p, RxDo::Reply(Some(reject_bytes(reason::BAD_VERSION))))
            } else {
                (
                    RxPhase::Active(
                        Transfer {
                            offer,
                            next_chunk: 0,
                            current_page: 0,
                            page: Seq::empty(),
                            last_ms: now_ms,
                        },
                    ),
                    RxDo::Reply(Some(accept_bytes())),
                )
            },
        }
    }
}

/// A chunk arrives.
pub open spec fn rx_chunk(p: RxPhase, payload: Seq<u8>, now_ms: u32) -> (RxPhase, RxDo) {
    match (p, parse_chunk(payload)) {
        (RxPhase::Active(t), Some((index, data))) => {
            let all = t.page + data;
            if index != t.next_chunk {
                (
                    RxPhase::Active(Transfer { last_ms: now_ms, ..t }),
                    RxDo::Reply(Some(ack_bytes(index, t.next_chunk))),
                )
            } else if all.len() < PAGE_SIZE {
                rx_advance(
                    Transfer {
                        next_chunk: (index + 1) as u16,
                        page: all,
                        last_ms: now_ms,
                        ..t
                    },
                    index,
                )
            } else {
                (
                    RxPhase::Flushing {
                        t: Transfer {
                            next_chunk: (index + 1) as u16,
                            page: all.subrange(0, PAGE_SIZE as int),
                            last_ms: now_ms,
                            ..t
                        },
                        index,
                        rest: all.skip(PAGE_SIZE as int),
                    },
                    RxDo::WritePage(page_index(t.current_page)),
                )
            }
        },
        _ => (p, RxDo::Reply(None)),
    }
}

/// A mesh message arrives.
pub open spec fn rx_message(p: RxPhase, fw_version: u16, message: Seq<u8>, now_ms: u32) -> (
    RxPhase,
    RxDo,
) {
    if message.len() == 0 {
        (p, RxDo::Reply(None))
    } else if message[0] == msg::OTA_OFFER {
        rx_offer(p, fw_version, message.skip(1), now_ms)
    } else if message[0] == msg::OTA_CHUNK {
        rx_chunk(p, message.skip(1), now_ms)
    } else if message[0] == msg::OTA_ABORT {
        (RxPhase::Idle, RxDo::Reply(None))
    } else {
        (p, RxDo::Reply(None))
    }
}

/// The page that was asked to be written has been written, or could not be.
pub open spec fn rx_page_written(p: RxPhase, ok: bool) -> (RxPhase, RxDo) {
    match p {
        RxPhase::Flushing { t, index, rest } => if !ok {
            (RxPhase::Idle, RxDo::Reply(Some(abort_bytes(reason::FLASH_ERROR))))
        } else {
            rx_advance(
                Transfer { current_page: ((t.current_page + 1) % 0x1_0000) as u16, page: rest, ..t },
                index,
            )
        },
        RxPhase::LastPage(t) => if !ok {
            (RxPhase::Idle, RxDo::Reply(Some(abort_bytes(reason::FLASH_ERROR))))
        } else {
            (RxPhase::Verifying(t), RxDo::Verify(t.offer.firmware_size))
        },
        _ => (p, RxDo::Reply(None)),
    }
}

/// The image has been read back.
pub open spec fn rx_image_read(p: RxPhase, image: Seq<u8>) -> (RxPhase, RxDo) {
    match p {
        RxPhase::Verifying(t) => if image_crc(image) == t.offer.crc32 {
            (
                RxPhase::Idle,
                RxDo::Finish { reply: complete_bytes(image_crc(image)), swap: true },
            )
        } else {
            (
                RxPhase::Idle,
                RxDo::Finish { reply: abort_bytes(reason::CRC_MISMATCH), swap: false },
            )
        },
        _ => (p, RxDo::Reply(None)),
    }
}

/// Time passes without a message.
pub open spec fn rx_expire(p: RxPhase, now_ms: u32) -> RxPhase {
    match p {
        RxPhase::Active(t) => if (now_ms - t.last_ms) % 0x1_0000_0000 >= TRANSFER_TIMEOUT_MS {
            RxPhase::Idle
        } else {
            p
        },
        _ => p,
    }
}

/// Response to send back to the OTA initiator.
pub struct OtaResponse {
    pub data: [u8; 32],
    pub len: usize,
}

impl OtaResponse {
    /// The bytes to send.
    pub open spec fn view(self) -> Seq<u8> {
        self.data@.subrange(0, self.len as int)
    }
}

/// What a receiver asks of its caller.
pub enum OtaStep {
    /// Nothing but to send this reply, if there is one.
    Reply(Option<OtaResponse>),
    /// Write [`OtaReceiver::page_buf`] to flash page `page_idx`, then call
    /// [`OtaReceiver::page_written`].
    WritePage { page_idx: u8 },
    /// Read back the first `size` bytes of the DFU partition, then call
    /// [`OtaReceiver::image_read`].
    Verify { size: u32 },
    /// Send this reply; if `swap`, ask the bootloader for a swap before.
    Finish { response: OtaResponse, swap: bool },
}

impl OtaStep {
    /// Every reply fits its buffer.
    pub open spec fn wf(self) -> bool {
        match self {
            OtaStep::Reply(Some(r)) => r.len <= 32,
            OtaStep::Finish { response, .. } => response.len <= 32,
            _ => true,
        }
    }

    /// What is asked, as the contracts speak of it.
    pub open spec fn view(self) -> RxDo {
        match self {
            OtaStep::Reply(Some(r)) => RxDo::Reply(Some(r@)),
            OtaStep::Reply(None) => RxDo::Reply(None),
            OtaStep::WritePage { page_idx } => RxDo::WritePage(page_idx),
            OtaStep::Verify { size } => RxDo::Verify(size),
            OtaStep::Finish { response, swap } => RxDo::Finish { reply: response@, swap },
        }
    }
}

/// OTA firmware-update receiver.
pub struct OtaReceiver {
    state: State,
    page: [u8; PAGE_SIZE],
    firmware_version: u16,
}

impl Default for OtaReceiver {
    fn default() -> (r: OtaReceiver)
        ensures
            r.wf(),
            r.phase() is Idle,
            r.version() == DEFAULT_FIRMWARE_VERSION,
    {
        OtaReceiver::new(DEFAULT_FIRMWARE_VERSION)
    }
}

impl Receiving {
    closed spec fn fits(self, page: Seq<u8>) -> bool {
        &&& self.page_offset <= PAGE_SIZE
        &&& page == page_image(page.subrange(0, self.page_offset as int))
    }

    closed spec fn transfer(self, page: Seq<u8>) -> Transfer {
        Transfer {
            offer: self.offer,
            next_chunk: self.next_chunk,
            current_page: self.current_page,
            page: page.subrange(0, self.page_offset as int),
            last_ms: self.last_ms,
        }
    }
}

impl OtaReceiver {
    /// Every receiver that `new` and the other methods give.
    pub closed spec fn wf(self) -> bool {
        match self.state {
            State::Idle => true,
            State::Active(rx) => {
                &&& rx.fits(self.page@)
                &&& rx.page_offset < PAGE_SIZE
                &&& rx.next_chunk == 0 || rx.next_chunk < rx.offer.total_chunks
            },
            State::Flushing { rx, index, rest, rest_len } => {
                &&& rx.fits(self.page@)
                &&& rx.page_offset == PAGE_SIZE
                &&& rest_len <= CHUNK_DATA_SIZE
                &&& rx.next_chunk >= 1
            },
            State::LastPage(rx) => rx.fits(self.page@),
            State::Verifying(rx) => rx.fits(self.page@),
        }
    }

    /// Where the receiver stands.
    pub closed spec fn phase(self) -> RxPhase {
        match self.state {
            State::Idle => RxPhase::Idle,
            State::Active(rx) => RxPhase::Active(rx.transfer(self.page@)),
            State::Flushing { rx, index, rest, rest_len } => RxPhase::Flushing {
                t: rx.transfer(self.page@),
                index,
                rest: rest@.subrange(0, rest_len as int),
            },
            State::LastPage(rx) => RxPhase::LastPage(rx.transfer(self.page@)),
            State::Verifying(rx) => RxPhase::Verifying(rx.transfer(self.page@)),
        }
    }

    /// The version that the node runs.
    pub closed spec fn version(self) -> u16 {
        self.firmware_version
    }

    /// The receiver has asked for nothing that it still waits for.
    pub open spec fn settled(self) -> bool {
        self.phase() is Idle || self.phase() is Active
    }

    /// The page being filled has room for more, and the next chunk of a transfer
    /// under way is the first or one of those that were offered.
    pub proof fn bounds(self)
        requires
            self.wf(),
        ensures
            match self.phase() {
                RxPhase::Idle => true,
                RxPhase::Active(t) => {
                    &&& t.page.len() < PAGE_SIZE
                    &&& t.next_chunk == 0 || t.next_chunk < t.offer.total_chunks
                },
                RxPhase::Flushing { t, rest, .. } => {
                    &&& t.page.len() == PAGE_SIZE
                    &&& t.next_chunk >= 1
                    &&& rest.len() <= CHUNK_DATA_SIZE
                },
                RxPhase::LastPage(t) => t.page.len() <= PAGE_SIZE,
                RxPhase::Verifying(t) => t.page.len() <= PAGE_SIZE,
            },
    {
    }

    /// A receiver on a node that runs firmware `firmware_version`.
    pub fn new(firmware_version: u16) -> (r: OtaReceiver)
        ensures
            r.wf(),
            r.phase() is Idle,
            r.version() == firmware_version,
    {
        OtaReceiver { state: State::Idle, page: [0xFFu8; PAGE_SIZE], firmware_version }
    }

    /// The page buffer: what [`OtaStep::WritePage`] asks to write.
    pub fn page_buf(&self) -> (r: &[u8; PAGE_SIZE])
        requires
            self.wf(),
        ensures
            self.phase() matches RxPhase::Flushing { t, .. } ==> r@ == page_image(t.page),
            self.phase() matches RxPhase::LastPage(t) ==> r@ == page_image(t.page),
    {
        &self.page
    }

    /// Process an incoming OTA mesh message that came at `now_ms`.
    pub fn handle_message(&mut self, msg_data: &[u8], now_ms: u32) -> (r: OtaStep)
        requires
            old(self).wf(),
            old(self).settled(),
        ensures
            final(self).wf(),
            r.wf(),
            final(self).version() == old(self).version(),
            (final(self).phase(), r@) == rx_message(
                old(self).phase(),
                old(self).version(),
                msg_data@,
                now_ms,
            ),
    {
        if msg_data.len() == 0 {
            return OtaStep::Reply(None);
        }
        let msg_type: u8 = msg_data[0];
        let payload: &[u8] = &msg_data[1..msg_data.len()];
        assert(payload@ =~= msg_data@.skip(1));
        match msg_type {
            msg::OTA_OFFER => self.handle_offer(payload, now_ms),
            msg::OTA_CHUNK => self.handle_chunk(payload, now_ms),
            msg::OTA_ABORT => {
                self.reset();
                OtaStep::Reply(None)
            },
            _ => OtaStep::Reply(None),
        }
    }

    /// Handle an OTA_OFFER message: `payload` is what follows its type.
    pub fn handle_offer(&mut self, payload: &[u8], now_ms: u32) -> (r: OtaStep)
        requires
            old(self).wf(),
            old(self).settled(),
        ensures
            final(self).wf(),
            r.wf(),
            final(self).version() == old(self).version(),
            (final(self).phase(), r@) == rx_offer(
                old(self).phase(),
                old(self).version(),
                payload@,
                now_ms,
            ),
    {
        if self.is_active() {
            return OtaStep::Reply(Some(make_reject(reason::BUSY)));
        }
        let offer: OtaOffer = match OtaOffer::deserialize(payload) {
            Some(offer) => offer,
            None => return OtaStep::Reply(None),
        };
        if offer.firmware_size > MAX_FW_SIZE || offer.firmware_size == 0 {
            return OtaStep::Reply(Some(make_reject(reason::NO_SPACE)));
        }
        // Reject downgrades or same-version re-flashes.
        if offer.version <= self.firmware_version {
            return OtaStep::Reply(Some(make_reject(reason::BAD_VERSION)));
        }
        self.page = [0xFFu8; PAGE_SIZE];
        self.state = State::Active(
            Receiving { offer, next_chunk: 0, current_page: 0, page_offset: 0, last_ms: now_ms },
        );
        assert(self.page@ =~= page_image(Seq::empty()));
        assert(self.page@.subrange(0, 0) =~= Seq::<u8>::empty());
        let mut buf: [u8; 32] = [0u8; 32];
        let len: usize = serialize_accept(&mut buf);
        let response = OtaResponse { data: buf, len };
        assert(response@ =~= accept_bytes());
        OtaStep::Reply(Some(response))
    }

    /// Handle an OTA_CHUNK message: `payload` is what follows its type.
    pub fn handle_chunk(&mut self, payload: &[u8], now_ms: u32) -> (r: OtaStep)
        requires
            old(self).wf(),
            old(self).settled(),
        ensures
            final(self).wf(),
            r.wf(),
            final(self).version() == old(self).version(),
            (final(self).phase(), r@) == rx_chunk(old(self).phase(), payload@, now_ms),
    {
        let mut rx: Receiving = match &self.state {
            State::Active(rx) => *rx,
            _ => return OtaStep::Reply(None),
        };
        let chunk: OtaChunk = match OtaChunk::deserialize(payload) {
            Some(chunk) => chunk,
            None => return OtaStep::Reply(None),
        };
        // A sender that is retrying counts as present.
        rx.last_ms = now_ms;
        let index: u16 = chunk.index;

        // Duplicate or out of order: say what is needed.
        if index != rx.next_chunk {
            let next: u16 = rx.next_chunk;
            self.state = State::Active(rx);
            return OtaStep::Reply(Some(make_ack(index, next)));
        }
        // Correct next chunk: copy data into page buffer.

        let data_len: usize = chunk.data_len as usize;
        let offset: usize = rx.page_offset as usize;
        let space: usize = PAGE_SIZE - offset;
        let to_copy: usize = if data_len <= space {
            data_len
        } else {
            space
        };
        let ghost before = self.page@.subrange(0, offset as int);
        let ghost all = before + chunk.bytes();
        copy_into(&mut self.page, offset, &chunk.data[0..to_copy]);
        rx.page_offset = (offset + to_copy) as u16;
        rx.next_chunk = index + 1;
        assert(self.page@.subrange(0, offset + to_copy) =~= all.subrange(0, offset + to_copy));
        assert(self.page@ =~= page_image(self.page@.subrange(0, offset + to_copy)));

        // If the page buffer is full, it goes to flash.
        if rx.page_offset as usize >= PAGE_SIZE {
            let mut rest: [u8; CHUNK_DATA_SIZE] = [0u8; CHUNK_DATA_SIZE];
            let rest_len: usize = data_len - to_copy;
            copy_into(&mut rest, 0, &chunk.data[to_copy..data_len]);
            assert(rest@.subrange(0, rest_len as int) =~= all.skip(PAGE_SIZE as int));
            let page_idx: u8 = dfu_page(rx.current_page);
            self.state = State::Flushing { rx, index, rest, rest_len };
            return OtaStep::WritePage { page_idx };
        }
        assert(all.subrange(0, offset + to_copy) =~= all);
        self.advance(rx, index)
    }

    /// The data of chunk `index` is in the page buffer: ask for the next one,
    /// or finish.
    fn advance(&mut self, rx: Receiving, index: u16) -> (r: OtaStep)
        requires
            rx.fits(old(self).page@),
            rx.page_offset < PAGE_SIZE,
        ensures
            final(self).wf(),
            r.wf(),
            final(self).version() == old(self).version(),
            (final(self).phase(), r@) == rx_advance(rx.transfer(old(self).page@), index),
    {
        if rx.next_chunk >= rx.offer.total_chunks {
            // Flush any remaining partial page.
            if rx.page_offset > 0 {
                self.state = State::LastPage(rx);
                return OtaStep::WritePage { page_idx: dfu_page(rx.current_page) };
            }
            self.state = State::Verifying(rx);
            return OtaStep::Verify { size: rx.offer.firmware_size };
        }
        self.state = State::Active(rx);
        OtaStep::Reply(Some(make_ack(index, rx.next_chunk)))
    }

    /// The page that [`OtaStep::WritePage`] asked for has been written, or
    /// could not be.
    pub fn page_written(&mut self, ok: bool) -> (r: OtaStep)
        requires
            old(self).wf(),
            old(self).phase() is Flushing || old(self).phase() is LastPage,
        ensures
            final(self).wf(),
            r.wf(),
            final(self).version() == old(self).version(),
            (final(self).phase(), r@) == rx_page_written(old(self).phase(), ok),
    {
        if !ok {
            self.reset();
            return OtaStep::Reply(Some(make_abort(reason::FLASH_ERROR)));
        }
        match &self.state {
            State::Flushing { rx, index, rest, rest_len } => {
                let mut rx: Receiving = *rx;
                let index: u16 = *index;
                let rest_len: usize = *rest_len;
                let mut page: [u8; PAGE_SIZE] = [0xFFu8; PAGE_SIZE];
                // Data that spanned the page boundary starts the next page.
                copy_into(&mut page, 0, &rest[0..rest_len]);
                assert(page@.subrange(0, rest_len as int) =~= rest@.subrange(0, rest_len as int));
                assert(page@ =~= page_image(page@.subrange(0, rest_len as int)));
                self.page = page;
                rx.current_page = rx.current_page.wrapping_add(1);
                rx.page_offset = rest_len as u16;
                self.advance(rx, index)
            },
            State::LastPage(rx) => {
                let rx: Receiving = *rx;
                self.state = State::Verifying(rx);
                OtaStep::Verify { size: rx.offer.firmware_size }
            },
            _ => OtaStep::Reply(None),
        }
    }

    /// The bytes that [`OtaStep::Verify`] asked for have been read.
    pub fn image_read(&mut self, image: &[u8]) -> (r: OtaStep)
        requires
            old(self).wf(),
            old(self).phase() is Verifying,
        ensures
            final(self).wf(),
            r.wf(),
            final(self).version() == old(self).version(),
            (final(self).phase(), r@) == rx_image_read(old(self).phase(), image@),
    {
        let expected_crc: u32 = match &self.state {
            State::Verifying(rx) => rx.offer.crc32,
            _ => return OtaStep::Reply(None),
        };
        let computed_crc: u32 = compute_crc32(image);
        self.reset();
        if computed_crc == expected_crc {
            let mut buf: [u8; 32] = [0u8; 32];
            let len: usize = serialize_complete(&mut buf, computed_crc);
            let response = OtaResponse { data: buf, len };
            assert(response@ =~= complete_bytes(computed_crc));
            OtaStep::Finish { response, swap: true }
        } else {
            OtaStep::Finish { response: make_abort(reason::CRC_MISMATCH), swap: false }
        }
    }

    /// Drop a transfer whose sender has been silent for too long. Returns
    /// whether one was dropped.
    pub fn expire(&mut self, now_ms: u32) -> (r: bool)
        requires
            old(self).wf(),
        ensures
            final(self).wf(),
            final(self).version() == old(self).version(),
            final(self).phase() == rx_expire(old(self).phase(), now_ms),
            r == (old(self).phase() is Active && final(self).phase() is Idle),
    {
        let silent: bool = match &self.state {
            State::Active(rx) => now_ms.wrapping_sub(rx.last_ms) >= TRANSFER_TIMEOUT_MS,
            _ => false,
        };
        if silent {
            self.reset();
        }
        silent
    }

    /// Return current progress as (received_chunks, total_chunks), or None if idle.
    pub fn progress(&self) -> (r: Option<(u16, u16)>)
        requires
            self.settled(),
        ensures
            r == match self.phase() {
                RxPhase::Active(t) => Some((t.next_chunk, t.offer.total_chunks)),
                _ => None,
            },
    {
        match &self.state {
            State::Active(rx) => Some((rx.next_chunk, rx.offer.total_chunks)),
            _ => None,
        }
    }

    /// Whether the receiver is currently in a transfer.
    pub fn is_active(&self) -> (r: bool)
        ensures
            r == !(self.phase() is Idle),
    {
        !matches!(self.state, State::Idle)
    }

    fn reset(&mut self)
        ensures
            final(self).wf(),
            final(self).phase() is Idle,
            final(self).version() == old(self).version(),
    {
        self.state = State::Idle;
    }
}

/// Flash page of page `current_page` of the image.
fn dfu_page(current_page: u16) -> (r: u8)
    ensures
        r == page_index(current_page),
{
    DFU_PAGE_START.wrapping_add((current_page % 256) as u8)
}

/// CRC32 of an image.
pub fn compute_crc32(image: &[u8]) -> (r: u32)
    ensures
        r == image_crc(image@),
{
    !crc32_run(0xEDB8_8320, 0xFFFF_FFFF, image)
}

fn make_ack(chunk_index: u16, next_needed: u16) -> (r: OtaResponse)
    ensures
        r.len <= 32,
        r@ == ack_bytes(chunk_index, next_needed),
{
    let ack = OtaChunkAck { chunk_index, next_needed };
    let mut buf: [u8; 32] = [0u8; 32];
    let len: usize = ack.serialize(&mut buf);
    let r = OtaResponse { data: buf, len };
    assert(r@ =~= ack_bytes(chunk_index, next_needed));
    r
}

fn make_reject(reason: u8) -> (r: OtaResponse)
    ensures
        r.len <= 32,
        r@ == reject_bytes(reason),
{
    let mut buf: [u8; 32] = [0u8; 32];
    let len: usize = serialize_reject(&mut buf, reason);
    let r = OtaResponse { data: buf, len };
    assert(r@ =~= reject_bytes(reason));
    r
}

fn make_abort(reason: u8) -> (r: OtaResponse)
    ensures
        r.len <= 32,
        r@ == abort_bytes(reason),
{
    let mut buf: [u8; 32] = [0u8; 32];
    let len: usize = serialize_abort(&mut buf, reason);
    let r = OtaResponse { data: buf, len };
    assert(r@ =~= abort_bytes(reason));
    r
}

} // verus!
