//! Minimal SD card driver in SPI mode: init plus single-block read/write.
//!
//! The driver never touches the bus: it says which bytes to exchange next, and
//! is told what came back and when.

use vstd::prelude::*;
use crate::bytes::{u32_be, u32_to_le};

verus! {

/// Bytes of a block.
pub const SD_BLOCK_LEN: usize = 512;

/// Bytes clocked out before the first command: at least 74 clocks with chip
/// select high.
pub const WAKE_BYTES: u8 = 10;

/// A response arrives within this many bytes.
pub const R1_TRIES: u8 = 8;

/// Software resets tried.
pub const RESET_TRIES: u8 = 32;

/// How long a card may take to leave its idle state (ms).
pub const READY_TIMEOUT_MS: u32 = 1000;

/// How long a card may take to start sending a block (ms).
pub const TOKEN_TIMEOUT_MS: u32 = 200;

/// How long a card may be busy after a write (ms).
pub const BUSY_TIMEOUT_MS: u32 = 500;

/// SD card errors.
#[derive(Debug, Clone, Copy, PartialEq, Eq, Structural)]
pub enum SdError {
    /// Card detect switch open: no card in the socket.
    NoCard,
    /// Card did not respond in time.
    Timeout,
    /// Unexpected R1/token response (value included).
    Response(u8),
    /// SPI bus error.
    Spi,
    /// Card not initialized (call [`SdCard::init`] first).
    NotInitialized,
}

/// Card kinds.
#[derive(Debug, Clone, Copy, PartialEq, Eq, Structural)]
pub enum SdKind {
    /// SDSC v1, byte addressing.
    Sd1,
    /// SDSC v2, byte addressing.
    Sd2,
    /// SDHC/SDXC, block addressing.
    Sdhc,
}

/// How an operation ended well: a card of this kind was found, or a block was
/// read or written.
#[derive(Debug, Clone, Copy, PartialEq, Eq, Structural)]
pub enum SdDone {
    Kind(SdKind),
    Block,
}

/// Where an operation is, with the card selected.
#[derive(Clone, Copy)]
pub enum Job {
    /// CMD0: software reset into idle state, `left` more tries after this one.
    Reset { left: u8 },
    /// CMD8: voltage check, which distinguishes v2 from v1 cards.
    Check,
    /// The byte of the voltage check's answer after `seen` others.
    CheckByte { seen: u8 },
    /// CMD55: the next command is an application command.
    App { v2: bool, start: u32 },
    /// ACMD41: leave idle.
    Ready { v2: bool, start: u32 },
    /// CMD58: read OCR.
    Ocr,
    /// The byte of OCR after `seen` others, the first of which is `first`.
    OcrByte { seen: u8, first: u8 },
    /// CMD16: fix the block length of a byte-addressed card.
    BlockLen { v2: bool },
    /// CMD17: read a block.
    Read { addr: u32 },
    /// Waiting for the data start token since `start`.
    ReadToken { start: u32 },
    /// The data of the block.
    ReadData,
    /// The 16-bit CRC after the data, which is discarded.
    ReadCrc { left: u8 },
    /// CMD24: write a block.
    Write { addr: u32 },
    /// Gap before the data token.
    WriteGap,
    /// Start token.
    WriteToken,
    /// The data of the block.
    WriteData,
    /// Dummy CRC.
    WriteCrc { left: u8 },
    /// Data response.
    WriteResponse,
    /// Waiting since `start` for the card to release its busy signal.
    Busy { start: u32 },
}

/// Where the driver is.
#[derive(Clone, Copy)]
pub enum SdState {
    /// No operation is under way.
    Idle,
    /// The bus is being slowed down.
    Slow,
    /// The card is being deselected before it is woken.
    Deselect,
    /// The card is being woken, with `left` more bytes after this one.
    Wake { left: u8 },
    /// The card is being selected.
    Select { job: Job },
    /// The frame of the job's command is being sent.
    Frame { job: Job },
    /// The response to the job's command is awaited, with `left` more bytes
    /// after this one.
    R1 { job: Job, left: u8 },
    /// A byte or a block of the job is being exchanged.
    Data { job: Job },
    /// The card is being deselected.
    Release { result: Result<SdDone, SdError> },
    /// One trailing clock byte releases the card's DO line.
    Trail { result: Result<SdDone, SdError> },
    /// The bus is being sped up for data transfers.
    Fast { kind: SdKind },
}

/// What the driver asks for.
#[derive(Clone, Copy)]
pub enum SdStep {
    /// Set the bus speed: below 400 kHz, or fast for data transfers.
    Speed { fast: bool },
    /// Drive chip select: `true` selects the card.
    ChipSelect(bool),
    /// Send a command frame.
    Send { frame: [u8; 6], feed_watchdog: bool },
    /// Exchange one byte.
    Exchange { byte: u8, feed_watchdog: bool },
    /// Read the block: exchange 512 bytes of 0xFF.
    ReadBlock,
    /// Write the block.
    WriteBlock,
    /// The operation is over.
    Done(Result<SdDone, SdError>),
}

/// What came back.
#[derive(Clone, Copy)]
pub enum SdEvent {
    /// It is done.
    Finished,
    /// It is done, and this byte came back.
    Byte(u8),
    /// The bus failed.
    Failed,
}

/// What the driver asks for, as the contracts speak of it.
pub enum SdDo {
    Speed { fast: bool },
    ChipSelect(bool),
    Send { frame: Seq<u8>, feed_watchdog: bool },
    Exchange { byte: u8, feed_watchdog: bool },
    ReadBlock,
    WriteBlock,
    Done(Result<SdDone, SdError>),
}

impl SdStep {
    /// What is asked, as the contracts speak of it.
    pub open spec fn view(self) -> SdDo {
        match self {
            SdStep::Speed { fast } => SdDo::Speed { fast },
            SdStep::ChipSelect(on) => SdDo::ChipSelect(on),
            SdStep::Send { frame, feed_watchdog } => SdDo::Send { frame: frame@, feed_watchdog },
            SdStep::Exchange { byte, feed_watchdog } => SdDo::Exchange { byte, feed_watchdog },
            SdStep::ReadBlock => SdDo::ReadBlock,
            SdStep::WriteBlock => SdDo::WriteBlock,
            SdStep::Done(r) => SdDo::Done(r),
        }
    }
}

/// The driver, as the contracts speak of it.
pub struct SdView {
    /// The kind of card that was found, if one was.
    pub kind: Option<SdKind>,
    pub state: SdState,
}

/// The check byte of a command: it only matters for CMD0 and CMD8.
pub open spec fn command_crc(cmd: u8) -> u8 {
    if cmd == 0 {
        0x95
    } else if cmd == 8 {
        0x87
    } else {
        0x01
    }
}

/// The frame of a command.
pub open spec fn command_frame(cmd: u8, arg: u32) -> Seq<u8> {
    seq![(0x40 + cmd) as u8] + u32_be(arg) + seq![command_crc(cmd)]
}

/// The command of a job, and whether the watchdog is fed before it.
pub open spec fn job_command(job: Job) -> Option<(u8, u32, bool)> {
    match job {
        Job::Reset { .. } => Some((0, 0, false)),
        Job::Check => Some((8, 0x1AA, false)),
        Job::App { .. } => Some((55, 0, true)),
        Job::Ready { v2, .. } => Some(
            (
                41,
                if v2 {
                    0x4000_0000
                } else {
                    0
                },
                false,
            ),
        ),
        Job::Ocr => Some((58, 0, false)),
        Job::BlockLen { .. } => Some((16, SD_BLOCK_LEN as u32, false)),
        Job::Read { addr } => Some((17, addr, false)),
        Job::Write { addr } => Some((24, addr, false)),
        _ => None,
    }
}

/// What goes on the bus for a job that is no command.
pub open spec fn job_data(job: Job) -> SdDo {
    match job {
        Job::ReadData => SdDo::ReadBlock,
        Job::WriteData => SdDo::WriteBlock,
        Job::WriteToken => SdDo::Exchange { byte: 0xFE, feed_watchdog: false },
        Job::Busy { .. } => SdDo::Exchange { byte: 0xFF, feed_watchdog: true },
        _ => SdDo::Exchange { byte: 0xFF, feed_watchdog: false },
    }
}

/// The operation goes on with `job`.
pub open spec fn go_on(v: SdView, job: Job) -> (SdView, SdDo) {
    match job_command(job) {
        Some((cmd, arg, feed_watchdog)) => (
            SdView { state: SdState::Frame { job }, ..v },
            SdDo::Send { frame: command_frame(cmd, arg), feed_watchdog },
        ),
        None => (SdView { state: SdState::Data { job }, ..v }, job_data(job)),
    }
}

/// The operation ends with `result`: the card is deselected.
pub open spec fn end(v: SdView, result: Result<SdDone, SdError>) -> (SdView, SdDo) {
    (SdView { state: SdState::Release { result }, ..v }, SdDo::ChipSelect(false))
}

/// More than `limit` milliseconds have passed.
pub open spec fn overdue(start: u32, now_ms: u32, limit: u32) -> bool {
    (now_ms - start) % 0x1_0000_0000 > limit
}

/// The card has answered the job's command with `r1`.
pub open spec fn on_response(v: SdView, job: Job, r1: u8, now_ms: u32) -> (SdView, SdDo) {
    match job {
        Job::Reset { left } => if r1 == 0x01 {
            go_on(v, Job::Check)
        } else if left > 0 {
            go_on(v, Job::Reset { left: (left - 1) as u8 })
        } else {
            end(v, Err(SdError::Response(r1)))
        },
        Job::Check => if r1 == 0x01 {
            go_on(v, Job::CheckByte { seen: 0 })
        } else {
            // Illegal command: v1 card.
            go_on(v, Job::App { v2: false, start: now_ms })
        },
        Job::App { v2, start } => go_on(v, Job::Ready { v2, start }),
        Job::Ready { v2, start } => if r1 == 0x00 {
            if v2 {
                go_on(v, Job::Ocr)
            } else {
                go_on(v, Job::BlockLen { v2 })
            }
        } else if overdue(start, now_ms, READY_TIMEOUT_MS) {
            end(v, Err(SdError::Timeout))
        } else {
            go_on(v, Job::App { v2, start })
        },
        Job::Ocr => if r1 != 0x00 {
            end(v, Err(SdError::Spi))
        } else {
            go_on(v, Job::OcrByte { seen: 0, first: 0 })
        },
        Job::BlockLen { v2 } => if r1 != 0x00 {
            end(v, Err(SdError::Response(r1)))
        } else {
            end(
                v,
                Ok(
                    SdDone::Kind(
                        if v2 {
                            SdKind::Sd2
                        } else {
                            SdKind::Sd1
                        },
                    ),
                ),
            )
        },
        Job::Read { .. } => if r1 != 0x00 {
            end(v, Err(SdError::Response(r1)))
        } else {
            go_on(v, Job::ReadToken { start: now_ms })
        },
        Job::Write { .. } => if r1 != 0x00 {
            end(v, Err(SdError::Response(r1)))
        } else {
            go_on(v, Job::WriteGap)
        },
        _ => end(v, Err(SdError::Spi)),
    }
}

/// The job's byte came back as `b`, or its block is through.
pub open spec fn on_data(v: SdView, job: Job, b: u8, now_ms: u32) -> (SdView, SdDo) {
    match job {
        Job::CheckByte { seen } => if seen < 3 {
            go_on(v, Job::CheckByte { seen: (seen + 1) as u8 })
        } else if b != 0xAA {
            end(v, Err(SdError::Response(b)))
        } else {
            go_on(v, Job::App { v2: true, start: now_ms })
        },
        Job::OcrByte { seen, first } => {
            let first = if seen == 0 {
                b
            } else {
                first
            };
            if seen < 3 {
                go_on(v, Job::OcrByte { seen: (seen + 1) as u8, first })
            } else if first & 0x40 != 0 {
                // The CCS bit selects block addressing.
                end(v, Ok(SdDone::Kind(SdKind::Sdhc)))
            } else {
                go_on(v, Job::BlockLen { v2: true })
            }
        },
        Job::ReadToken { start } => if b == 0xFE {
            go_on(v, Job::ReadData)
        } else if b != 0xFF {
            end(v, Err(SdError::Response(b)))
        } else if overdue(start, now_ms, TOKEN_TIMEOUT_MS) {
            end(v, Err(SdError::Timeout))
        } else {
            go_on(v, job)
        },
        Job::ReadData => go_on(v, Job::ReadCrc { left: 1 }),
        Job::ReadCrc { left } => if left > 0 {
            go_on(v, Job::ReadCrc { left: (left - 1) as u8 })
        } else {
            end(v, Ok(SdDone::Block))
        },
        Job::WriteGap => go_on(v, Job::WriteToken),
        Job::WriteToken => go_on(v, Job::WriteData),
        Job::WriteData => go_on(v, Job::WriteCrc { left: 1 }),
        Job::WriteCrc { left } => if left > 0 {
            go_on(v, Job::WriteCrc { left: (left - 1) as u8 })
        } else {
            go_on(v, Job::WriteResponse)
        },
        Job::WriteResponse => if b & 0x1F != 0x05 {
            end(v, Err(SdError::Response(b & 0x1F)))
        } else {
            go_on(v, Job::Busy { start: now_ms })
        },
        Job::Busy { start } => if b == 0xFF {
            end(v, Ok(SdDone::Block))
        } else if overdue(start, now_ms, BUSY_TIMEOUT_MS) {
            end(v, Err(SdError::Timeout))
        } else {
            go_on(v, job)
        },
        _ => end(v, Err(SdError::Spi)),
    }
}

/// The operation is over.
pub open spec fn over(v: SdView, result: Result<SdDone, SdError>) -> (SdView, SdDo) {
    (SdView { state: SdState::Idle, ..v }, SdDo::Done(result))
}

/// The byte that came back; 0xFF where none was asked for.
pub open spec fn byte_of(ev: SdEvent) -> u8 {
    match ev {
        SdEvent::Byte(b) => b,
        _ => 0xFF,
    }
}

/// What was asked for is done, or could not be.
pub open spec fn sd_event(v: SdView, ev: SdEvent, now_ms: u32) -> (SdView, SdDo) {
    let failed = ev is Failed;
    match v.state {
        SdState::Idle => (v, SdDo::Done(Err(SdError::NotInitialized))),
        SdState::Slow => (
            SdView { state: SdState::Deselect, ..v },
            SdDo::ChipSelect(false),
        ),
        SdState::Deselect => (
            SdView { state: SdState::Wake { left: (WAKE_BYTES - 1) as u8 }, ..v },
            SdDo::Exchange { byte: 0xFF, feed_watchdog: false },
        ),
        SdState::Wake { left } => if failed {
            over(v, Err(SdError::Spi))
        } else if left > 0 {
            (
                SdView { state: SdState::Wake { left: (left - 1) as u8 }, ..v },
                SdDo::Exchange { byte: 0xFF, feed_watchdog: false },
            )
        } else {
            (
                SdView {
                    state: SdState::Select { job: Job::Reset { left: (RESET_TRIES - 1) as u8 } },
                    ..v
                },
                SdDo::ChipSelect(true),
            )
        },
        SdState::Select { job } => go_on(v, job),
        SdState::Frame { job } => if failed {
            end(v, Err(SdError::Spi))
        } else {
            (
                SdView { state: SdState::R1 { job, left: (R1_TRIES - 1) as u8 }, ..v },
                SdDo::Exchange { byte: 0xFF, feed_watchdog: false },
            )
        },
        SdState::R1 { job, left } => if failed {
            end(v, Err(SdError::Spi))
        } else if byte_of(ev) < 0x80 {
            on_response(v, job, byte_of(ev), now_ms)
        } else if left > 0 {
            (
                SdView { state: SdState::R1 { job, left: (left - 1) as u8 }, ..v },
                SdDo::Exchange { byte: 0xFF, feed_watchdog: false },
            )
        } else {
            end(v, Err(SdError::Timeout))
        },
        SdState::Data { job } => if failed {
            end(v, Err(SdError::Spi))
        } else {
            on_data(v, job, byte_of(ev), now_ms)
        },
        SdState::Release { result } => (
            SdView { state: SdState::Trail { result }, ..v },
            SdDo::Exchange { byte: 0xFF, feed_watchdog: false },
        ),
        SdState::Trail { result } => match result {
            Ok(SdDone::Kind(kind)) => (
                SdView { state: SdState::Fast { kind }, ..v },
                SdDo::Speed { fast: true },
            ),
            _ => over(v, result),
        },
        SdState::Fast { kind } => (
            SdView { kind: Some(kind), state: SdState::Idle },
            SdDo::Done(Ok(SdDone::Kind(kind))),
        ),
    }
}

/// The address of a block on a card of this kind: block addresses on SDHC, byte
/// addresses on the others.
pub open spec fn address_of(kind: SdKind, lba: u32) -> int {
    if kind == SdKind::Sdhc {
        lba as int
    } else {
        lba * SD_BLOCK_LEN
    }
}

/// SD card driver.
pub struct SdCard {
    kind: Option<SdKind>,
    state: SdState,
}

impl SdCard {
    /// The driver as the contracts speak of it.
    pub closed spec fn view(self) -> SdView {
        SdView { kind: self.kind, state: self.state }
    }

    /// A driver that knows of no card.
    pub fn new() -> (r: SdCard)
        ensures
            r@ == (SdView { kind: None, state: SdState::Idle }),
    {
        SdCard { kind: None, state: SdState::Idle }
    }

    /// Card kind detected by the last successful [`init`](Self::init).
    pub fn kind(&self) -> (r: Option<SdKind>)
        ensures
            r == self@.kind,
    {
        self.kind
    }

    /// Initialize the card (CMD0 / CMD8 / ACMD41 / CMD58 sequence), if the
    /// socket's card detect switch reports one.
    pub fn init(&mut self, card_present: bool) -> (r: SdStep)
        requires
            old(self)@.state is Idle,
        ensures
            !card_present ==> *final(self) == *old(self) && r@ == SdDo::Done(Err(SdError::NoCard)),
            card_present ==> final(self)@ == (SdView { kind: None, state: SdState::Slow }) && r@
                == (SdDo::Speed { fast: false }),
    {
        if !card_present {
            return SdStep::Done(Err(SdError::NoCard));
        }
        self.kind = None;
        self.state = SdState::Slow;
        SdStep::Speed { fast: false }
    }

    fn block_addr(&self, lba: u32) -> (r: Result<u32, SdError>)
        requires
            self@.kind matches Some(kind) ==> address_of(kind, lba) <= u32::MAX,
        ensures
            self@.kind is None ==> r == Err::<u32, SdError>(SdError::NotInitialized),
            self@.kind matches Some(kind) ==> r matches Ok(a) && a == address_of(kind, lba),
    {
        match self.kind {
            Some(kind) => match kind {
                SdKind::Sdhc => Ok(lba),
                _ => Ok(lba * SD_BLOCK_LEN as u32),
            },
            None => Err(SdError::NotInitialized),
        }
    }

    /// Read one 512-byte block.
    pub fn read_block(&mut self, lba: u32) -> (r: SdStep)
        requires
            old(self)@.state is Idle,
            old(self)@.kind matches Some(kind) ==> address_of(kind, lba) <= u32::MAX,
        ensures
            old(self)@.kind is None ==> *final(self) == *old(self) && r@ == SdDo::Done(
                Err(SdError::NotInitialized),
            ),
            old(self)@.kind matches Some(kind) ==> final(self)@ == (SdView {
                state: SdState::Select {
                    job: Job::Read { addr: address_of(kind, lba) as u32 },
                },
                ..old(self)@
            }) && r@ == SdDo::ChipSelect(true),
    {
        match self.block_addr(lba) {
            Ok(addr) => {
                self.state = SdState::Select { job: Job::Read { addr } };
                SdStep::ChipSelect(true)
            },
            Err(e) => SdStep::Done(Err(e)),
        }
    }

    /// Write one 512-byte block.
    pub fn write_block(&mut self, lba: u32) -> (r: SdStep)
        requires
            old(self)@.state is Idle,
            old(self)@.kind matches Some(kind) ==> address_of(kind, lba) <= u32::MAX,
        ensures
            old(self)@.kind is None ==> *final(self) == *old(self) && r@ == SdDo::Done(
                Err(SdError::NotInitialized),
            ),
            old(self)@.kind matches Some(kind) ==> final(self)@ == (SdView {
                state: SdState::Select {
                    job: Job::Write { addr: address_of(kind, lba) as u32 },
                },
                ..old(self)@
            }) && r@ == SdDo::ChipSelect(true),
    {
        match self.block_addr(lba) {
            Ok(addr) => {
                self.state = SdState::Select { job: Job::Write { addr } };
                SdStep::ChipSelect(true)
            },
            Err(e) => SdStep::Done(Err(e)),
        }
    }

    /// Go on with the operation under way: what was asked for is done, or could
    /// not be, and it is now `now_ms`.
    pub fn event(&mut self, ev: SdEvent, now_ms: u32) -> (r: SdStep)
        requires
            !(old(self)@.state is Idle),
        ensures
            (final(self)@, r@) == sd_event(old(self)@, ev, now_ms),
    {
        let failed: bool = matches!(ev, SdEvent::Failed);
        let byte: u8 = match ev {
            SdEvent::Byte(b) => b,
            _ => 0xFF,
        };
        let idle_clock: SdStep = SdStep::Exchange { byte: 0xFF, feed_watchdog: false };
        match self.state {
            SdState::Idle => SdStep::Done(Err(SdError::NotInitialized)),
            SdState::Slow => {
                self.state = SdState::Deselect;
                SdStep::ChipSelect(false)
            },
            SdState::Deselect => {
                self.state = SdState::Wake { left: WAKE_BYTES - 1 };
                idle_clock
            },
            SdState::Wake { left } => {
                if failed {
                    self.state = SdState::Idle;
                    return SdStep::Done(Err(SdError::Spi));
                }
                if left > 0 {
                    self.state = SdState::Wake { left: left - 1 };
                    return idle_clock;
                }
                self.state = SdState::Select { job: Job::Reset { left: RESET_TRIES - 1 } };
                SdStep::ChipSelect(true)
            },
            SdState::Select { job } => self.go_on(job),
            SdState::Frame { job } => {
                if failed {
                    return self.end(Err(SdError::Spi));
                }
                self.state = SdState::R1 { job, left: R1_TRIES - 1 };
                idle_clock
            },
            SdState::R1 { job, left } => {
                if failed {
                    return self.end(Err(SdError::Spi));
                }
                if byte < 0x80 {
                    return self.on_response(job, byte, now_ms);
                }
                if left > 0 {
                    self.state = SdState::R1 { job, left: left - 1 };
                    return idle_clock;
                }
                self.end(Err(SdError::Timeout))
            },
            SdState::Data { job } => {
                if failed {
                    return self.end(Err(SdError::Spi));
                }
                self.on_data(job, byte, now_ms)
            },
            SdState::Release { result } => {
                self.state = SdState::Trail { result };
                idle_clock
            },
            SdState::Trail { result } => match result {
                Ok(SdDone::Kind(kind)) => {
                    self.state = SdState::Fast { kind };
                    SdStep::Speed { fast: true }
                },
                _ => {
                    self.state = SdState::Idle;
                    SdStep::Done(result)
                },
            },
            SdState::Fast { kind } => {
                self.kind = Some(kind);
                self.state = SdState::Idle;
                SdStep::Done(Ok(SdDone::Kind(kind)))
            },
        }
    }

    fn go_on(&mut self, job: Job) -> (r: SdStep)
        ensures
            (final(self)@, r@) == go_on(old(self)@, job),
    {
        let command: Option<(u8, u32, bool)> = match job {
            Job::Reset { .. } => Some((0, 0, false)),
            Job::Check => Some((8, 0x1AA, false)),
            Job::App { .. } => Some((55, 0, true)),
            Job::Ready { v2, .. } => Some(
                (
                    41,
                    if v2 {
                        0x4000_0000
                    } else {
                        0
                    },
                    false,
                ),
            ),
            Job::Ocr => Some((58, 0, false)),
            Job::BlockLen { .. } => Some((16, SD_BLOCK_LEN as u32, false)),
            Job::Read { addr } => Some((17, addr, false)),
            Job::Write { addr } => Some((24, addr, false)),
            _ => None,
        };
        match command {
            Some((cmd, arg, feed_watchdog)) => {
                self.state = SdState::Frame { job };
                SdStep::Send { frame: cmd_frame(cmd, arg), feed_watchdog }
            },
            None => {
                self.state = SdState::Data { job };
                match job {
                    Job::ReadData => SdStep::ReadBlock,
                    Job::WriteData => SdStep::WriteBlock,
                    Job::WriteToken => SdStep::Exchange { byte: 0xFE, feed_watchdog: false },
                    Job::Busy { .. } => SdStep::Exchange { byte: 0xFF, feed_watchdog: true },
                    _ => SdStep::Exchange { byte: 0xFF, feed_watchdog: false },
                }
            },
        }
    }

    fn end(&mut self, result: Result<SdDone, SdError>) -> (r: SdStep)
        ensures
            (final(self)@, r@) == end(old(self)@, result),
    {
        self.state = SdState::Release { result };
        SdStep::ChipSelect(false)
    }

    fn on_response(&mut self, job: Job, r1: u8, now_ms: u32) -> (r: SdStep)
        ensures
            (final(self)@, r@) == on_response(old(self)@, job, r1, now_ms),
    {
        match job {
            // Software reset into idle state.
            Job::Reset { left } => {
                if r1 == 0x01 {
                    self.go_on(Job::Check)
                } else if left > 0 {
                    self.go_on(Job::Reset { left: left - 1 })
                } else {
                    self.end(Err(SdError::Response(r1)))
                }
            },
            // Voltage check distinguishes v2 from v1 cards.
            Job::Check => {
                if r1 == 0x01 {
                    self.go_on(Job::CheckByte { seen: 0 })
                } else {
                    // Illegal command: v1 card.
                    self.go_on(Job::App { v2: false, start: now_ms })
                }
            },
            // ACMD41 until the card leaves idle (up to 1 s).
            Job::App { v2, start } => self.go_on(Job::Ready { v2, start }),
            Job::Ready { v2, start } => {
                if r1 == 0x00 {
                    if v2 {
                        self.go_on(Job::Ocr)
                    } else {
                        self.go_on(Job::BlockLen { v2 })
                    }
                } else if now_ms.wrapping_sub(start) > READY_TIMEOUT_MS {
                    self.end(Err(SdError::Timeout))
                } else {
                    self.go_on(Job::App { v2, start })
                }
            },
            Job::Ocr => {
                if r1 != 0x00 {
                    self.end(Err(SdError::Spi))
                } else {
                    self.go_on(Job::OcrByte { seen: 0, first: 0 })
                }
            },
            Job::BlockLen { v2 } => {
                if r1 != 0x00 {
                    self.end(Err(SdError::Response(r1)))
                } else if v2 {
                    self.end(Ok(SdDone::Kind(SdKind::Sd2)))
                } else {
                    self.end(Ok(SdDone::Kind(SdKind::Sd1)))
                }
            },
            Job::Read { .. } => {
                if r1 != 0x00 {
                    self.end(Err(SdError::Response(r1)))
                } else {
                    self.go_on(Job::ReadToken { start: now_ms })
                }
            },
            Job::Write { .. } => {
                if r1 != 0x00 {
                    self.end(Err(SdError::Response(r1)))
                } else {
                    self.go_on(Job::WriteGap)
                }
            },
            _ => self.end(Err(SdError::Spi)),
        }
    }

    fn on_data(&mut self, job: Job, b: u8, now_ms: u32) -> (r: SdStep)
        ensures
            (final(self)@, r@) == on_data(old(self)@, job, b, now_ms),
    {
        match job {
            Job::CheckByte { seen } => {
                if seen < 3 {
                    self.go_on(Job::CheckByte { seen: seen + 1 })
                } else if b != 0xAA {
                    self.end(Err(SdError::Response(b)))
                } else {
                    self.go_on(Job::App { v2: true, start: now_ms })
                }
            },
            Job::OcrByte { seen, first } => {
                let first: u8 = if seen == 0 {
                    b
                } else {
                    first
                };
                if seen < 3 {
                    self.go_on(Job::OcrByte { seen: seen + 1, first })
                } else if first & 0x40 != 0 {
                    self.end(Ok(SdDone::Kind(SdKind::Sdhc)))
                } else {
                    self.go_on(Job::BlockLen { v2: true })
                }
            },
            Job::ReadToken { start } => {
                if b == 0xFE {
                    self.go_on(Job::ReadData)
                } else if b != 0xFF {
                    self.end(Err(SdError::Response(b)))
                } else if now_ms.wrapping_sub(start) > TOKEN_TIMEOUT_MS {
                    self.end(Err(SdError::Timeout))
                } else {
                    self.go_on(job)
                }
            },
            Job::ReadData => self.go_on(Job::ReadCrc { left: 1 }),
            Job::ReadCrc { left } => {
                if left > 0 {
                    self.go_on(Job::ReadCrc { left: left - 1 })
                } else {
                    self.end(Ok(SdDone::Block))
                }
            },
            Job::WriteGap => self.go_on(Job::WriteToken),
            Job::WriteToken => self.go_on(Job::WriteData),
            Job::WriteData => self.go_on(Job::WriteCrc { left: 1 }),
            Job::WriteCrc { left } => {
                if left > 0 {
                    self.go_on(Job::WriteCrc { left: left - 1 })
                } else {
                    self.go_on(Job::WriteResponse)
                }
            },
            Job::WriteResponse => {
                let resp: u8 = b & 0x1F;
                if resp != 0x05 {
                    self.end(Err(SdError::Response(resp)))
                } else {
                    self.go_on(Job::Busy { start: now_ms })
                }
            },
            Job::Busy { start } => {
                if b == 0xFF {
                    self.end(Ok(SdDone::Block))
                } else if now_ms.wrapping_sub(start) > BUSY_TIMEOUT_MS {
                    self.end(Err(SdError::Timeout))
                } else {
                    self.go_on(job)
                }
            },
            _ => self.end(Err(SdError::Spi)),
        }
    }
}

fn cmd_frame(cmd: u8, arg: u32) -> (r: [u8; 6])
    requires
        cmd < 0x40,
    ensures
        r@ == command_frame(cmd, arg),
{
    // CRC is only checked for CMD0/CMD8 in SPI mode.
    let crc: u8 = match cmd {
        0 => 0x95,
        8 => 0x87,
        _ => 0x01,
    };
    let le: [u8; 4] = u32_to_le(arg);
    let r: [u8; 6] = [0x40 + cmd, le[3], le[2], le[1], le[0], crc];
    assert(r@ =~= command_frame(cmd, arg));
    r
}

/// The card is selected, or is just being deselected.
pub open spec fn is_selected(state: SdState) -> bool {
    state is Frame || state is R1 || state is Data || state is Release
}

/// Whatever the card does, an operation that has selected it deselects it
/// before it is over, and clocks one more byte.
pub proof fn card_is_released(v: SdView, ev: SdEvent, now_ms: u32)
    requires
        !(v.state is Idle),
    ensures
        ({
            let after = sd_event(v, ev, now_ms);
            &&& is_selected(v.state) ==> !(after.1 is Done) && !(after.0.state is Idle)
            &&& is_selected(v.state) && !is_selected(after.0.state) ==> v.state is Release
                && after.0.state is Trail
            &&& after.0.state is Release && !(v.state is Release) ==> after.1
                == SdDo::ChipSelect(false)
            &&& after.0.state is Trail ==> after.1 is Exchange
        }),
{
}

/// The driver knows a card exactly after an initialisation that found one: the
/// kind changes only with the result that reports it.
pub proof fn kind_comes_with_its_report(v: SdView, ev: SdEvent, now_ms: u32)
    requires
        !(v.state is Idle),
    ensures
        ({
            let after = sd_event(v, ev, now_ms);
            &&& after.0.kind != v.kind ==> after.0.state is Idle && after.0.kind is Some && after.1
                == SdDo::Done(Ok(SdDone::Kind(after.0.kind->0)))
            &&& v.state matches SdState::Fast { kind } ==> after.0.kind == Some(kind) && after.1
                == SdDo::Done(Ok(SdDone::Kind(kind)))
        }),
{
}

/// The kind that is found follows from the card's answers: block addressing
/// where a v2 card sets the CCS bit in the first byte of its OCR, else byte
/// addressing, once the block length is accepted; and nothing else ends an
/// initialisation well.
pub proof fn kind_follows_the_answers(v: SdView, job: Job, b: u8, now_ms: u32, kind: SdKind)
    ensures
        on_data(v, job, b, now_ms).0.state == (SdState::Release {
            result: Ok(SdDone::Kind(kind)),
        }) <==> kind == SdKind::Sdhc && (job matches Job::OcrByte { seen, first } && seen >= 3
            && first & 0x40 != 0),
        on_response(v, job, b, now_ms).0.state == (SdState::Release {
            result: Ok(SdDone::Kind(kind)),
        }) <==> b == 0 && (job matches Job::BlockLen { v2 } && kind == if v2 {
            SdKind::Sd2
        } else {
            SdKind::Sd1
        }),
{
}

/// Every wait is bounded: by a number of bytes, or by a deadline after which the
/// operation ends with a timeout.
pub proof fn waits_are_bounded(v: SdView, job: Job, left: u8, start: u32, b: u8, now_ms: u32)
    requires
        b >= 0x80,
    ensures
        // The response to a command.
        ({
            let after = sd_event(
                SdView { state: SdState::R1 { job, left }, ..v },
                SdEvent::Byte(b),
                now_ms,
            );
            if left > 0 {
                after.0.state == (SdState::R1 { job, left: (left - 1) as u8 })
            } else {
                after.0.state == (SdState::Release { result: Err(SdError::Timeout) })
            }
        }),
        // A card that stays idle, that sends no data, or that stays busy.
        overdue(start, now_ms, READY_TIMEOUT_MS) ==> forall|v2: bool, r1: u8|
            r1 != 0 ==> (#[trigger] on_response(v, Job::Ready { v2, start }, r1, now_ms)).0.state
                == (SdState::Release { result: Err(SdError::Timeout) }),
        overdue(start, now_ms, TOKEN_TIMEOUT_MS) ==> on_data(
            v,
            Job::ReadToken { start },
            0xFF,
            now_ms,
        ).0.state == (SdState::Release { result: Err(SdError::Timeout) }),
        overdue(start, now_ms, BUSY_TIMEOUT_MS) && b != 0xFF ==> on_data(
            v,
            Job::Busy { start },
            b,
            now_ms,
        ).0.state == (SdState::Release { result: Err(SdError::Timeout) }),
{
}

/// The watchdog is fed only inside the two waits that can outlast it, each of
/// which has a deadline of its own.
pub proof fn watchdog_is_fed_under_a_deadline(v: SdView, ev: SdEvent, now_ms: u32)
    ensures
        ({
            let after = sd_event(v, ev, now_ms);
            &&& after.1 matches SdDo::Exchange { feed_watchdog, .. } ==> (feed_watchdog ==> (
            after.0.state matches SdState::Data { job } && job is Busy))
            &&& after.1 matches SdDo::Send { feed_watchdog, .. } ==> (feed_watchdog ==> (
            after.0.state matches SdState::Frame { job } && job is App))
        }),
{
}

} // verus!
