//! The base station's rules: host commands, the firmware upload into the DFU
//! partition, the transfer to a node, and the relay between host and mesh.
//!
//! The base station never touches the flash, the radio or the UART itself: it
//! says what to do next, and is told how that went.

use vstd::prelude::*;
use crate::bytes::{append, copy_into, hi8, i16_bits, i16_to_bits, lo8, u16_le, u16_of, u32_of};
use crate::bytes::{u16_from, u32_from};
use crate::crc::image_crc;
use crate::ota::{compute_crc32, page_image, page_index, MAX_FW_SIZE, PAGE_SIZE};
use crate::ota::DFU_PAGE_START;
use crate::ota_protocol::{is_ota, is_ota_message, OtaOffer};
use crate::ota_sender::{
    chunk_count, tx_message, tx_next, OtaMessage, OtaResult, OtaSender, Phase, SenderView,
};
use crate::timer::{after, due, is_due, later};
use crate::uart_proto::{cmd, err, frame_bytes, ota_state, resp, FrameBuf, MAX_FRAME, MAX_PAYLOAD};

verus! {

/// How often the host is told about progress.
pub const PROGRESS_INTERVAL_MS: u32 = 500;

/// Base station operating state.
#[derive(Clone, Copy)]
pub enum BsState {
    /// No OTA in progress. Relaying data only.
    Idle,
    /// Receiving firmware binary from host over UART.
    ReceivingFw {
        target_addr: u8,
        fw_size: u32,
        fw_version: u16,
        bytes_received: u32,
        page_offset: u16,
        current_page: u16,
    },
    /// Sending firmware to target node over mesh radio.
    Transferring { target_addr: u8 },
}

/// What the base station still waits for.
enum Pending {
    Nothing,
    /// A full page is being written; `rest` is what of the payload follows it.
    Page { rest: Vec<u8> },
    /// The last, partly filled page is being written.
    LastPage,
    /// The uploaded image is being read back.
    Image,
    /// A message is being handed to the mesh.
    Radio,
}

/// An upload from the host.
pub struct Upload {
    pub target_addr: u8,
    pub fw_size: u32,
    pub fw_version: u16,
    /// Bytes received, on a counter of 32 bits.
    pub received: u32,
    /// What the page being filled holds so far.
    pub page: Seq<u8>,
    /// Pages written so far.
    pub current_page: u16,
}

/// The operating state, as the contracts speak of it.
pub enum BsMode {
    Idle,
    ReceivingFw(Upload),
    Transferring(u8),
}

/// The base station, as the contracts speak of it.
pub struct BsView {
    pub mode: BsMode,
    pub sender: Option<SenderView>,
    pub waits: BsWait,
}

/// What the base station still waits for.
pub enum BsWait {
    Nothing,
    Page { rest: Seq<u8> },
    LastPage,
    Image,
    Radio,
}

/// What the base station asks for.
pub enum BsDo {
    /// Send this frame to the host.
    Reply(Seq<u8>),
    /// Write the page buffer to this flash page.
    WritePage(u8),
    /// Read this many bytes from the start of the DFU partition.
    ReadImage(u32),
    /// Send `data` to node `dest`.
    Send { dest: u8, data: Seq<u8> },
    /// Send this to every node.
    Broadcast(Seq<u8>),
}

/// The frame that acknowledges a command.
pub open spec fn ack() -> Seq<u8> {
    frame_bytes(resp::ACK, Seq::empty())
}

/// The frame that refuses a command.
pub open spec fn nak(code: u8) -> Seq<u8> {
    frame_bytes(resp::NAK, seq![code])
}

/// Percentage of an upload, as its byte counters give it.
pub open spec fn upload_percent(received: u32, fw_size: u32) -> u8 {
    if fw_size == 0 {
        0
    } else {
        ((received * 100) % 0x1_0000_0000 / fw_size as int % 256) as u8
    }
}

/// Percentage of a transfer.
pub open spec fn transfer_percent(sent: u16, total: u16) -> u8 {
    if total == 0 {
        0
    } else {
        (sent * 100 / total as int % 256) as u8
    }
}

/// When the next progress report is due, once one that is due at `next_ms` has
/// been looked for at `now_ms`.
pub open spec fn next_progress(now_ms: u32, next_ms: u32) -> u32 {
    if is_due(now_ms, next_ms) {
        later(now_ms, PROGRESS_INTERVAL_MS)
    } else {
        next_ms
    }
}

/// State code, percentage, chunks sent and chunks in all.
pub open spec fn status(b: BsView) -> (u8, u8, u16, u16) {
    match b.mode {
        BsMode::Idle => (ota_state::IDLE, 0, 0, 0),
        BsMode::ReceivingFw(u) => (
            ota_state::RECEIVING_FW,
            upload_percent(u.received, u.fw_size),
            0,
            0,
        ),
        BsMode::Transferring(_) => match b.sender {
            None => (ota_state::IDLE, 0, 0, 0),
            Some(s) => if s.phase == Phase::Done {
                (ota_state::COMPLETE, 100, 0, 0)
            } else {
                (
                    ota_state::TRANSFERRING,
                    transfer_percent(s.current_chunk, s.offer.total_chunks),
                    s.current_chunk,
                    s.offer.total_chunks,
                )
            },
        },
    }
}

/// The frame that reports progress.
pub open spec fn progress_bytes(b: BsView) -> Seq<u8> {
    let (st, pct, sent, total) = status(b);
    frame_bytes(resp::PROGRESS, seq![st, pct] + u16_le(sent) + u16_le(total))
}

/// The payload of START_OTA: the upload that it begins, or the error code.
pub open spec fn start_upload(payload: Seq<u8>) -> Result<Upload, u8> {
    if payload.len() < 7 {
        Err(err::BAD_FRAME)
    } else {
        let fw_size = u32_of(payload[1], payload[2], payload[3], payload[4]);
        if fw_size == 0 || fw_size > MAX_FW_SIZE {
            Err(err::BAD_SIZE)
        } else {
            Ok(
                Upload {
                    target_addr: payload[0],
                    fw_size,
                    fw_version: u16_of(payload[5], payload[6]),
                    received: 0,
                    page: Seq::empty(),
                    current_page: 0,
                },
            )
        }
    }
}

/// `data` goes on into the page being filled: as much as the page takes. A
/// full page, and a last page once everything is here, go to flash.
pub open spec fn bs_fill(b: BsView, u: Upload, data: Seq<u8>) -> (BsView, BsDo) {
    let all = u.page + data;
    let taken = if all.len() < PAGE_SIZE {
        data.len() as int
    } else {
        PAGE_SIZE - u.page.len()
    };
    let received = ((u.received + taken) % 0x1_0000_0000) as u32;
    if all.len() >= PAGE_SIZE {
        let filled = Upload { received, page: all.subrange(0, PAGE_SIZE as int), ..u };
        (
            BsView {
                mode: BsMode::ReceivingFw(filled),
                waits: BsWait::Page { rest: all.skip(PAGE_SIZE as int) },
                ..b
            },
            BsDo::WritePage(page_index(u.current_page)),
        )
    } else {
        let filled = Upload { received, page: all, ..u };
        if received >= u.fw_size && all.len() > 0 {
            (
                BsView { mode: BsMode::ReceivingFw(filled), waits: BsWait::LastPage, ..b },
                BsDo::WritePage(page_index(u.current_page)),
            )
        } else {
            (
                BsView { mode: BsMode::ReceivingFw(filled), waits: BsWait::Nothing, ..b },
                BsDo::Reply(ack()),
            )
        }
    }
}

/// A command arrives from the host.
pub open spec fn bs_command(b: BsView, cmd_id: u8, payload: Seq<u8>) -> (BsView, BsDo) {
    if cmd_id == cmd::START_OTA {
        if !(b.mode is Idle) {
            (b, BsDo::Reply(nak(err::INVALID_STATE)))
        } else {
            match start_upload(payload) {
                Err(code) => (b, BsDo::Reply(nak(code))),
                Ok(u) => (BsView { mode: BsMode::ReceivingFw(u), ..b }, BsDo::Reply(ack())),
            }
        }
    } else if cmd_id == cmd::FW_DATA {
        match b.mode {
            BsMode::ReceivingFw(u) => if payload.len() == 0 {
                (b, BsDo::Reply(nak(err::BAD_FRAME)))
            } else {
                bs_fill(b, u, payload)
            },
            _ => (b, BsDo::Reply(nak(err::INVALID_STATE))),
        }
    } else if cmd_id == cmd::BEGIN_TRANSFER {
        match b.mode {
            BsMode::ReceivingFw(u) => if u.received < u.fw_size {
                (b, BsDo::Reply(nak(err::NO_FW_DATA)))
            } else {
                (BsView { waits: BsWait::Image, ..b }, BsDo::ReadImage(u.fw_size))
            },
            _ => (b, BsDo::Reply(nak(err::INVALID_STATE))),
        }
    } else if cmd_id == cmd::QUERY_STATUS {
        (b, BsDo::Reply(progress_bytes(b)))
    } else if cmd_id == cmd::ABORT_OTA {
        (BsView { mode: BsMode::Idle, sender: None, ..b }, BsDo::Reply(ack()))
    } else if cmd_id == cmd::SEND_MSG && payload.len() >= 2 {
        (
            BsView { waits: BsWait::Radio, ..b },
            BsDo::Send { dest: payload[0], data: payload.skip(1) },
        )
    } else if cmd_id == cmd::SEND_BROADCAST && payload.len() >= 1 {
        (BsView { waits: BsWait::Radio, ..b }, BsDo::Broadcast(payload))
    } else {
        (b, BsDo::Reply(nak(err::BAD_FRAME)))
    }
}

/// The page that was asked for has been written, or could not be.
pub open spec fn bs_page_written(b: BsView, ok: bool) -> (BsView, BsDo) {
    match (b.mode, b.waits) {
        (BsMode::ReceivingFw(u), BsWait::Page { rest }) => if !ok {
            (
                BsView { mode: BsMode::Idle, waits: BsWait::Nothing, ..b },
                BsDo::Reply(nak(err::FLASH_ERROR)),
            )
        } else {
            bs_fill(
                b,
                Upload {
                    page: Seq::empty(),
                    current_page: ((u.current_page + 1) % 0x1_0000) as u16,
                    ..u
                },
                rest,
            )
        },
        _ => if !ok {
            (
                BsView { mode: BsMode::Idle, waits: BsWait::Nothing, ..b },
                BsDo::Reply(nak(err::FLASH_ERROR)),
            )
        } else {
            (BsView { waits: BsWait::Nothing, ..b }, BsDo::Reply(ack()))
        },
    }
}

/// A new sender for an image of `size` bytes.
pub open spec fn fresh_sender(size: u32, crc32: u32, version: u16) -> SenderView {
    SenderView {
        offer: OtaOffer {
            firmware_size: size,
            total_chunks: (chunk_count(size as int) % 0x1_0000) as u16,
            crc32,
            version,
        },
        phase: Phase::Offering,
        current_chunk: 0,
        timer: 0,
        result: None,
    }
}

/// The uploaded image has been read back.
pub open spec fn bs_image_read(b: BsView, image: Seq<u8>) -> (BsView, BsDo) {
    match b.mode {
        BsMode::ReceivingFw(u) => (
            BsView {
                mode: BsMode::Transferring(u.target_addr),
                sender: Some(fresh_sender(u.fw_size, image_crc(image), u.fw_version)),
                waits: BsWait::Nothing,
            },
            BsDo::Reply(ack()),
        ),
        _ => (b, BsDo::Reply(ack())),
    }
}

/// The result byte that the host is given.
pub open spec fn result_byte(result: OtaResult) -> u8 {
    match result {
        OtaResult::Success => 0,
        OtaResult::Rejected(r) => r,
        OtaResult::Aborted(r) => r,
    }
}

/// A mesh message arrives: the base station after it, and the frame for the
/// host, if there is one.
pub open spec fn bs_mesh_message(b: BsView, source: u8, rssi: i16, data: Seq<u8>) -> (
    BsView,
    Option<Seq<u8>>,
) {
    if is_ota(data) {
        match b.sender {
            None => (b, None),
            Some(s) => match tx_message(s, data) {
                (_, Some(result)) => (
                    BsView { mode: BsMode::Idle, sender: None, ..b },
                    Some(frame_bytes(resp::OTA_DONE, seq![result_byte(result)])),
                ),
                (after, None) => (BsView { sender: Some(after), ..b }, None),
            },
        }
    } else if 3 + data.len() <= MAX_PAYLOAD {
        (b, Some(frame_bytes(resp::RECV_MSG, seq![source] + u16_le(i16_bits(rssi)) + data)))
    } else {
        (b, None)
    }
}

/// What the base station asks for.
pub enum BsStep {
    /// Send this frame to the host.
    Reply(FrameBuf),
    /// Write [`Basestation::page_buf`] to flash page `page_idx`, then call
    /// [`Basestation::page_written`].
    WritePage { page_idx: u8 },
    /// Read `size` bytes from the start of the DFU partition, then call
    /// [`Basestation::image_read`].
    ReadImage { size: u32 },
    /// Send `data` to node `dest`, then call [`Basestation::sent`].
    Send { dest: u8, data: Vec<u8> },
    /// Send `data` to every node, then call [`Basestation::sent`].
    Broadcast { data: Vec<u8> },
}

impl BsStep {
    /// A frame fits its buffer.
    pub open spec fn wf(self) -> bool {
        match self {
            BsStep::Reply(f) => f.len <= MAX_FRAME,
            _ => true,
        }
    }

    /// What is asked, as the contracts speak of it.
    pub open spec fn view(self) -> BsDo {
        match self {
            BsStep::Reply(f) => BsDo::Reply(f@),
            BsStep::WritePage { page_idx } => BsDo::WritePage(page_idx),
            BsStep::ReadImage { size } => BsDo::ReadImage(size),
            BsStep::Send { dest, data } => BsDo::Send { dest, data: data@ },
            BsStep::Broadcast { data } => BsDo::Broadcast(data@),
        }
    }
}

/// The base station.
pub struct Basestation {
    state: BsState,
    ota_sender: Option<OtaSender>,
    page: [u8; PAGE_SIZE],
    pending: Pending,
}

impl Basestation {
    /// Every base station that `new` and the other methods give.
    pub closed spec fn wf(self) -> bool {
        &&& match self.state {
            BsState::ReceivingFw { page_offset, fw_size, .. } => {
                &&& page_offset <= PAGE_SIZE
                &&& page_offset < PAGE_SIZE || self.pending is Page
                &&& self.page@ == page_image(self.page@.subrange(0, page_offset as int))
                &&& fw_size <= MAX_FW_SIZE
            },
            _ => true,
        }
        &&& self.pending is Page || self.pending is LastPage || self.pending is Image
            ==> self.state is ReceivingFw
        &&& self.ota_sender matches Some(s) ==> s@.offer.firmware_size <= MAX_FW_SIZE
    }

    /// The base station as the contracts speak of it.
    pub closed spec fn view(self) -> BsView {
        BsView {
            mode: match self.state {
                BsState::Idle => BsMode::Idle,
                BsState::ReceivingFw {
                    target_addr,
                    fw_size,
                    fw_version,
                    bytes_received,
                    page_offset,
                    current_page,
                } => BsMode::ReceivingFw(
                    Upload {
                        target_addr,
                        fw_size,
                        fw_version,
                        received: bytes_received,
                        page: self.page@.subrange(0, page_offset as int),
                        current_page,
                    },
                ),
                BsState::Transferring { target_addr } => BsMode::Transferring(target_addr),
            },
            sender: match self.ota_sender {
                Some(s) => Some(s@),
                None => None,
            },
            waits: match self.pending {
                Pending::Nothing => BsWait::Nothing,
                Pending::Page { rest } => BsWait::Page { rest: rest@ },
                Pending::LastPage => BsWait::LastPage,
                Pending::Image => BsWait::Image,
                Pending::Radio => BsWait::Radio,
            },
        }
    }

    /// A base station that only relays data.
    pub fn new() -> (r: Basestation)
        ensures
            r.wf(),
            r@ == (BsView { mode: BsMode::Idle, sender: None, waits: BsWait::Nothing }),
    {
        Basestation {
            state: BsState::Idle,
            ota_sender: None,
            page: [0xFFu8; PAGE_SIZE],
            pending: Pending::Nothing,
        }
    }

    /// The page buffer: what [`BsStep::WritePage`] asks to write.
    pub fn page_buf(&self) -> (r: &[u8; PAGE_SIZE])
        requires
            self.wf(),
        ensures
            self@.mode matches BsMode::ReceivingFw(u) ==> r@ == page_image(u.page),
    {
        &self.page
    }

    /// Handle a command from the host.
    pub fn handle_cmd(&mut self, cmd_id: u8, payload: &[u8]) -> (r: BsStep)
        requires
            old(self).wf(),
            old(self)@.waits is Nothing,
        ensures
            final(self).wf(),
            r.wf(),
            (final(self)@, r@) == bs_command(old(self)@, cmd_id, payload@),
    {
        match cmd_id {
            // OTA commands
            cmd::START_OTA => self.start_ota(payload),
            cmd::FW_DATA => {
                if !matches!(self.state, BsState::ReceivingFw { .. }) {
                    return reply_nak(err::INVALID_STATE);
                }
                if payload.len() == 0 {
                    return reply_nak(err::BAD_FRAME);
                }
                self.fill(payload)
            },
            cmd::BEGIN_TRANSFER => match self.state {
                BsState::ReceivingFw { fw_size, bytes_received, .. } => {
                    if bytes_received < fw_size {
                        return reply_nak(err::NO_FW_DATA);
                    }
                    self.pending = Pending::Image;
                    BsStep::ReadImage { size: fw_size }
                },
                _ => reply_nak(err::INVALID_STATE),
            },
            cmd::QUERY_STATUS => BsStep::Reply(self.progress_frame()),
            cmd::ABORT_OTA => {
                self.ota_sender = None;
                self.state = BsState::Idle;
                reply_ack()
            },
            // Data relay commands
            cmd::SEND_MSG => {
                if payload.len() < 2 {
                    return reply_nak(err::BAD_FRAME);
                }
                let mut data: Vec<u8> = Vec::new();
                append(&mut data, &payload[1..payload.len()]);
                assert(data@ =~= payload@.skip(1));
                self.pending = Pending::Radio;
                BsStep::Send { dest: payload[0], data }
            },
            cmd::SEND_BROADCAST => {
                if payload.len() == 0 {
                    return reply_nak(err::BAD_FRAME);
                }
                let mut data: Vec<u8> = Vec::new();
                append(&mut data, payload);
                assert(data@ =~= payload@);
                self.pending = Pending::Radio;
                BsStep::Broadcast { data }
            },
            _ => reply_nak(err::BAD_FRAME),
        }
    }

    fn start_ota(&mut self, payload: &[u8]) -> (r: BsStep)
        requires
            old(self).wf(),
            old(self)@.waits is Nothing,
        ensures
            final(self).wf(),
            r.wf(),
            (final(self)@, r@) == bs_command(old(self)@, cmd::START_OTA, payload@),
    {
        if !matches!(self.state, BsState::Idle) {
            return reply_nak(err::INVALID_STATE);
        }
        if payload.len() < 7 {
            return reply_nak(err::BAD_FRAME);
        }
        let target_addr: u8 = payload[0];
        let fw_size: u32 = u32_from(payload[1], payload[2], payload[3], payload[4]);
        let fw_version: u16 = u16_from(payload[5], payload[6]);
        if fw_size == 0 || fw_size > MAX_FW_SIZE {
            return reply_nak(err::BAD_SIZE);
        }
        self.page = [0xFFu8; PAGE_SIZE];
        self.state = BsState::ReceivingFw {
            target_addr,
            fw_size,
            fw_version,
            bytes_received: 0,
            page_offset: 0,
            current_page: 0,
        };
        assert(self.page@.subrange(0, 0) =~= Seq::<u8>::empty());
        assert(self.page@ =~= page_image(Seq::empty()));
        reply_ack()
    }

    /// Take in as much of `data` as the page being filled takes.
    fn fill(&mut self, data: &[u8]) -> (r: BsStep)
        requires
            old(self).wf(),
            old(self)@.mode is ReceivingFw,
            old(self)@.mode->ReceivingFw_0.page.len() < PAGE_SIZE,
        ensures
            final(self).wf(),
            r.wf(),
            (final(self)@, r@) == bs_fill(old(self)@, old(self)@.mode->ReceivingFw_0, data@),
    {
        match self.state {
            BsState::ReceivingFw {
                target_addr,
                fw_size,
                fw_version,
                bytes_received,
                page_offset,
                current_page,
            } => {
                let offset: usize = page_offset as usize;
                let space: usize = PAGE_SIZE - offset;
                let to_copy: usize = if data.len() <= space {
                    data.len()
                } else {
                    space
                };
                let ghost all = self.page@.subrange(0, offset as int) + data@;
                copy_into(&mut self.page, offset, &data[0..to_copy]);
                let new_offset: u16 = (offset + to_copy) as u16;
                let received: u32 = bytes_received.wrapping_add(to_copy as u32);
                assert(self.page@.subrange(0, new_offset as int) =~= all.subrange(
                    0,
                    new_offset as int,
                ));
                assert(self.page@ =~= page_image(self.page@.subrange(0, new_offset as int)));
                self.state = BsState::ReceivingFw {
                    target_addr,
                    fw_size,
                    fw_version,
                    bytes_received: received,
                    page_offset: new_offset,
                    current_page,
                };
                let page_idx: u8 = DFU_PAGE_START.wrapping_add((current_page % 256) as u8);
                if new_offset as usize >= PAGE_SIZE {
                    let mut rest: Vec<u8> = Vec::new();
                    append(&mut rest, &data[to_copy..data.len()]);
                    assert(rest@ =~= all.skip(PAGE_SIZE as int));
                    self.pending = Pending::Page { rest };
                    return BsStep::WritePage { page_idx };
                }
                assert(all.subrange(0, new_offset as int) =~= all);
                if received >= fw_size && new_offset > 0 {
                    self.pending = Pending::LastPage;
                    return BsStep::WritePage { page_idx };
                }
                self.pending = Pending::Nothing;
                reply_ack()
            },
            _ => reply_ack(),
        }
    }

    /// The page that [`BsStep::WritePage`] asked for has been written, or
    /// could not be.
    pub fn page_written(&mut self, ok: bool) -> (r: BsStep)
        requires
            old(self).wf(),
            old(self)@.waits is Page || old(self)@.waits is LastPage,
        ensures
            final(self).wf(),
            r.wf(),
            (final(self)@, r@) == bs_page_written(old(self)@, ok),
    {
        if !ok {
            self.state = BsState::Idle;
            self.pending = Pending::Nothing;
            return reply_nak(err::FLASH_ERROR);
        }
        let mut pending: Pending = Pending::Nothing;
        core::mem::swap(&mut pending, &mut self.pending);
        match pending {
            Pending::Page { rest } => {
                self.page = [0xFFu8; PAGE_SIZE];
                match self.state {
                    BsState::ReceivingFw {
                        target_addr,
                        fw_size,
                        fw_version,
                        bytes_received,
                        page_offset,
                        current_page,
                    } => {
                        self.state = BsState::ReceivingFw {
                            target_addr,
                            fw_size,
                            fw_version,
                            bytes_received,
                            page_offset: 0,
                            current_page: current_page.wrapping_add(1),
                        };
                    },
                    _ => {},
                }
                assert(self.page@.subrange(0, 0) =~= Seq::<u8>::empty());
                assert(self.page@ =~= page_image(Seq::empty()));
                self.fill(&rest)
            },
            _ => reply_ack(),
        }
    }

    /// The bytes that [`BsStep::ReadImage`] asked for have been read.
    pub fn image_read(&mut self, image: &[u8]) -> (r: BsStep)
        requires
            old(self).wf(),
            old(self)@.waits is Image,
        ensures
            final(self).wf(),
            r.wf(),
            (final(self)@, r@) == bs_image_read(old(self)@, image@),
    {
        match self.state {
            BsState::ReceivingFw { target_addr, fw_size, fw_version, .. } => {
                let crc32: u32 = compute_crc32(image);
                self.ota_sender = Some(OtaSender::new(fw_size, crc32, fw_version));
                self.state = BsState::Transferring { target_addr };
                self.pending = Pending::Nothing;
                reply_ack()
            },
            _ => reply_ack(),
        }
    }

    /// The mesh has taken the message of [`BsStep::Send`] or
    /// [`BsStep::Broadcast`], or has not.
    pub fn sent(&mut self, ok: bool) -> (r: BsStep)
        requires
            old(self).wf(),
            old(self)@.waits is Radio,
        ensures
            final(self).wf(),
            r.wf(),
            final(self)@ == (BsView { waits: BsWait::Nothing, ..old(self)@ }),
            r@ == BsDo::Reply(
                if ok {
                    ack()
                } else {
                    nak(err::INVALID_STATE)
                },
            ),
    {
        self.pending = Pending::Nothing;
        if ok {
            reply_ack()
        } else {
            reply_nak(err::INVALID_STATE)
        }
    }

    /// Handle a message from the mesh, heard at `rssi` dBm. Returns the frame
    /// for the host, if there is one.
    pub fn mesh_message(&mut self, source: u8, rssi: i16, data: &[u8]) -> (r: Option<FrameBuf>)
        requires
            old(self).wf(),
            old(self)@.waits is Nothing,
        ensures
            final(self).wf(),
            final(self)@ == bs_mesh_message(old(self)@, source, rssi, data@).0,
            r is Some == bs_mesh_message(old(self)@, source, rssi, data@).1 is Some,
            r matches Some(f) ==> {
                &&& f.len <= MAX_FRAME
                &&& bs_mesh_message(old(self)@, source, rssi, data@).1 == Some(f@)
            },
    {
        if is_ota_message(data) {
            // Route OTA responses to sender
            let mut sender: OtaSender = match self.ota_sender.take() {
                Some(sender) => sender,
                None => return None,
            };
            let ghost size = sender@.offer.firmware_size;
            match sender.handle_message(data) {
                Some(result) => {
                    let byte: u8 = match result {
                        OtaResult::Success => 0,
                        OtaResult::Rejected(r) => r,
                        OtaResult::Aborted(r) => r,
                    };
                    self.state = BsState::Idle;
                    let payload: [u8; 1] = [byte];
                    assert(payload@ =~= seq![result_byte(result)]);
                    Some(build_frame(resp::OTA_DONE, &payload))
                },
                None => {
                    assert(sender@.offer.firmware_size == size);
                    self.ota_sender = Some(sender);
                    None
                },
            }
        } else if data.len() <= MAX_PAYLOAD - 3 {
            // Regular message: forward to host.
            // Payload: src(1) + rssi(2 LE) + data(N)
            let bits: u16 = i16_to_bits(rssi);
            let mut payload: Vec<u8> = Vec::new();
            payload.push(source);
            payload.push(lo8(bits));
            payload.push(hi8(bits));
            append(&mut payload, data);
            assert(payload@ =~= seq![source] + u16_le(i16_bits(rssi)) + data@);
            Some(build_frame(resp::RECV_MSG, &payload))
        } else {
            None
        }
    }

    /// The next message of a transfer under way, with its destination. `dfu`
    /// is what the DFU partition holds.
    pub fn next_ota_message(&mut self, dfu: &[u8]) -> (r: Option<(u8, OtaMessage)>)
        requires
            old(self).wf(),
            old(self)@.waits is Nothing,
            dfu@.len() >= MAX_FW_SIZE,
        ensures
            final(self).wf(),
            match (old(self)@.mode, old(self)@.sender) {
                (BsMode::Transferring(target), Some(s)) => {
                    &&& final(self)@ == (BsView { sender: Some(tx_next(s, dfu@).0), ..old(self)@ })
                    &&& r is Some == tx_next(s, dfu@).1 is Some
                    &&& r matches Some(m) ==> {
                        &&& m.0 == target
                        &&& m.1.len <= 32
                        &&& tx_next(s, dfu@).1 == Some(m.1@)
                    }
                },
                _ => final(self)@ == old(self)@ && r is None,
            },
    {
        let target: u8 = match self.state {
            BsState::Transferring { target_addr } => target_addr,
            _ => return None,
        };
        let mut sender: OtaSender = match self.ota_sender.take() {
            Some(sender) => sender,
            None => return None,
        };
        let message: Option<OtaMessage> = sender.next_message(dfu);
        self.ota_sender = Some(sender);
        match message {
            Some(m) => Some((target, m)),
            None => None,
        }
    }

    /// The frame that reports progress.
    pub fn progress_frame(&self) -> (r: FrameBuf)
        ensures
            r.len <= MAX_FRAME,
            r@ == progress_bytes(self@),
    {
        let (st, pct, sent, total): (u8, u8, u16, u16) = match self.state {
            BsState::Idle => (ota_state::IDLE, 0, 0, 0),
            BsState::ReceivingFw { fw_size, bytes_received, .. } => {
                let pct: u8 = if fw_size > 0 {
                    (bytes_received.wrapping_mul(100) / fw_size % 256) as u8
                } else {
                    0
                };
                (ota_state::RECEIVING_FW, pct, 0, 0)
            },
            BsState::Transferring { .. } => match &self.ota_sender {
                Some(sender) => match sender.progress() {
                    Some((s, t)) => {
                        let pct: u8 = if t > 0 {
                            (s as u32 * 100 / t as u32 % 256) as u8
                        } else {
                            0
                        };
                        (ota_state::TRANSFERRING, pct, s, t)
                    },
                    None => (ota_state::COMPLETE, 100, 0, 0),
                },
                None => (ota_state::IDLE, 0, 0, 0),
            },
        };
        let payload: [u8; 6] = [st, pct, lo8(sent), hi8(sent), lo8(total), hi8(total)];
        assert(payload@ =~= seq![st, pct] + u16_le(sent) + u16_le(total));
        build_frame(resp::PROGRESS, &payload)
    }

    /// The progress report that is due at `now_ms`, if one is: then the next
    /// one is due an interval later.
    pub fn poll_progress(&self, now_ms: u32, next_ms: &mut u32) -> (r: Option<FrameBuf>)
        ensures
            *final(next_ms) == next_progress(now_ms, *old(next_ms)),
            r is Some == is_due(now_ms, *old(next_ms)),
            r matches Some(f) ==> f.len <= MAX_FRAME && f@ == progress_bytes(self@),
    {
        if due(now_ms, *next_ms) {
            *next_ms = after(now_ms, PROGRESS_INTERVAL_MS);
            Some(self.progress_frame())
        } else {
            None
        }
    }
}

fn build_frame(cmd_id: u8, payload: &[u8]) -> (r: FrameBuf)
    ensures
        r.len <= MAX_FRAME,
        r@ == frame_bytes(cmd_id, payload@),
{
    let mut tx: FrameBuf = FrameBuf::new();
    tx.build(cmd_id, payload);
    tx
}

fn reply_ack() -> (r: BsStep)
    ensures
        r.wf(),
        r@ == BsDo::Reply(ack()),
{
    let payload: [u8; 0] = [];
    assert(payload@ =~= Seq::<u8>::empty());
    BsStep::Reply(build_frame(resp::ACK, &payload))
}

fn reply_nak(code: u8) -> (r: BsStep)
    ensures
        r.wf(),
        r@ == BsDo::Reply(nak(code)),
{
    let payload: [u8; 1] = [code];
    assert(payload@ =~= seq![code]);
    BsStep::Reply(build_frame(resp::NAK, &payload))
}

} // verus!
