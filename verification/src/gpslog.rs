//! GPS + radio link logger.
//!
//! Every checksum-valid RMC/GGA sentence, every radio TX/RX event (with
//! packet RSSI, SNR and signal RSSI from the SX126x packet status) and a
//! periodic LoRa stats snapshot (received/CRC error/header error counts)
//! are appended as ASCII lines, timestamped with the millisecond uptime
//! counter, to a raw block region of the SD card:
//!
//! ```text
//! t=<ms> GPS $GPRMC,...*hh
//! t=<ms> RX len=<n> rssi=<dBm> snr=<dB> srssi=<dBm>
//! t=<ms> TX len=<n> ok=<0|1>
//! t=<ms> STATS rx=<n> crc_err=<n> hdr_err=<n>
//! ```

pub mod block_log;
pub mod events;
pub mod gps;
pub mod retry;

use vstd::prelude::*;
use crate::bytes::append;
use crate::text::{
    dec, dec2, dec_len, dec_signed, lit, lit_codes, lit_vec, magnitude, piece_views, push_dec,
    push_dec2, push_lit, push_signed,
};
use block_log::{
    all_text, log_append, log_setup, log_sync, log_written, BlockLog, LogDo, LogStep, LogView,
    LogWait, BLOCK_LEN, DATA_START_LBA, HEADER_LBA,
};
use events::{pop, Queue, RadioEvent};
use gps::{gps_poll, gps_unheard, Gps, GpsPoll, GpsView, UartRead, DRAIN_BUDGET, NMEA_MAX};

verus! {

/// NMEA line rate: the near-universal GPS module factory default.
pub const BAUD: u32 = 9600;

/// Flush a partially filled block this often, so at most a few seconds
/// of log are lost on power failure.
pub const SYNC_MS: u32 = 10000;

/// Retry SD setup this often while the card is missing or failing.
pub const RETRY_MS: u32 = 10000;

/// The line of a radio event. Quarter-dB SNR is printed as a signed decimal.
pub open spec fn event_line(now_ms: u32, ev: RadioEvent) -> Seq<u8> {
    match ev {
        RadioEvent::Tx { len, ok } => lit("t=") + dec(now_ms as nat) + lit(" TX len=") + dec(
            len as nat,
        ) + lit(" ok=") + dec(
            if ok {
                1
            } else {
                0
            },
        ) + lit("\n"),
        RadioEvent::Rx { len, rssi_dbm, snr_qdb, signal_rssi_dbm } => {
            let mag = if snr_qdb < 0 {
                -25 * snr_qdb
            } else {
                25 * snr_qdb
            };
            lit("t=") + dec(now_ms as nat) + lit(" RX len=") + dec(len as nat) + lit(" rssi=")
                + dec_signed(rssi_dbm as int) + lit(" snr=") + (if snr_qdb < 0 {
                lit("-")
            } else {
                Seq::empty()
            }) + dec((mag / 100) as nat) + lit(".") + dec2((mag % 100) as nat) + lit(" srssi=")
                + dec_signed(signal_rssi_dbm as int) + lit("\n")
        },
    }
}

/// The line of a GPS sentence.
pub open spec fn gps_line(now_ms: u32, sentence: Seq<u8>) -> Seq<u8> {
    lit("t=") + dec(now_ms as nat) + lit(" GPS ") + sentence + lit("\n")
}

/// The line of a LoRa stats snapshot.
pub open spec fn stats_line(now_ms: u32, stats: (u16, u16, u16)) -> Seq<u8> {
    lit("t=") + dec(now_ms as nat) + lit(" STATS rx=") + dec(stats.0 as nat) + lit(" crc_err=")
        + dec(stats.1 as nat) + lit(" hdr_err=") + dec(stats.2 as nat) + lit("\n")
}

/// Whether something that was to happen at `deadline` should happen at `now`.
pub open spec fn is_time(now: u32, deadline: u32) -> bool {
    (now - deadline) % 0x1_0000_0000 < 0x7FFF_FFFF
}

/// How far a poll is.
#[derive(Clone, Copy)]
pub enum LogStage {
    /// No poll is under way.
    Idle,
    /// Is a card there?
    CheckCard,
    /// The card is being brought up.
    InitCard,
    /// The header is being read.
    ReadHeader,
    /// The header is being written.
    Setup,
    /// The line of a radio event is being written.
    Drain,
    /// The UART is being read, with so many reads left.
    ReadUart { budget: usize },
    /// The UART's error flags are being cleared, with so many reads left.
    ClearUart { budget: usize },
    /// The line of a sentence is being written.
    Sentence,
    /// The partial block is being written.
    Sync,
    /// The line of a stats snapshot is being written.
    Stats,
}

/// The logger, as the contracts speak of it.
pub struct LoggerView {
    pub gps: GpsView,
    pub log: LogView,
    pub next_sync_ms: u32,
    pub next_retry_ms: u32,
    /// When the poll under way began.
    pub now_ms: u32,
    pub stage: LogStage,
    /// The fix quality that was last told.
    pub last_fix_quality: u8,
    /// The card has failed, and has not been brought up since.
    pub card_failed: bool,
    /// Lines of the poll under way, or of the last one, for the console.
    pub echo: Seq<Seq<u8>>,
}

/// A logger that has neither heard nor logged anything, with no card taken up.
pub open spec fn logger_unused() -> LoggerView {
    LoggerView {
        gps: gps_unheard(),
        log: LogView {
            ready: false,
            dirty: false,
            lba: DATA_START_LBA,
            filled: Seq::empty(),
            waits: LogWait::Nothing,
        },
        next_sync_ms: 0,
        next_retry_ms: 0,
        now_ms: 0,
        stage: LogStage::Idle,
        last_fix_quality: 0,
        card_failed: false,
        echo: Seq::empty(),
    }
}

/// A line for the console.
pub open spec fn echoed(v: LoggerView, line: Seq<u8>) -> LoggerView {
    LoggerView { echo: v.echo.push(line), ..v }
}

/// The console line of a radio event: its log line without the newline.
pub open spec fn event_echo(now_ms: u32, ev: RadioEvent) -> Seq<u8> {
    event_line(now_ms, ev).drop_last()
}

/// The console line of a sentence.
pub open spec fn sentence_echo(sentence: Seq<u8>) -> Seq<u8> {
    lit("GPS ") + sentence
}

/// The console line that tells the fix quality.
pub open spec fn quality_echo(fix_quality: u8, sats: u8) -> Seq<u8> {
    lit("GPS fix quality ") + dec(fix_quality as nat) + lit(" (") + dec(sats as nat) + lit(
        " sats)",
    )
}

/// The console line that tells where the log goes on.
pub open spec fn logging_echo(lba: u32) -> Seq<u8> {
    lit("gps-radio-log: logging at block ") + dec(lba as nat)
}

/// A sentence was heard: it is echoed, and so is the fix quality where that is
/// not the one last told.
pub open spec fn heard(v: LoggerView, sentence: Seq<u8>) -> LoggerView {
    let told = echoed(v, sentence_echo(sentence));
    if v.gps.fix_quality != v.last_fix_quality {
        echoed(
            LoggerView { last_fix_quality: v.gps.fix_quality, ..told },
            quality_echo(v.gps.fix_quality, v.gps.sats),
        )
    } else {
        told
    }
}

/// What a poll asks for.
pub enum PollDo {
    /// Nothing more: the poll is over.
    Done,
    /// Is there a card, and has it been brought up?
    CheckCard,
    /// Bring up the card.
    InitCard,
    /// Read this block.
    ReadBlock(u32),
    /// Write this block.
    Write { lba: u32, block: Seq<u8> },
    /// Read the GPS UART.
    ReadUart,
    /// Clear the GPS UART's error flags.
    ClearUart,
}

/// What the logger and its event queue have become, and what is asked for.
pub type Polled = (LoggerView, Seq<RadioEvent>, PollDo);

/// The same as an ask of the poll.
pub open spec fn write_do(d: LogDo) -> PollDo {
    match d {
        LogDo::Done => PollDo::Done,
        LogDo::Write { lba, block } => PollDo::Write { lba, block },
    }
}

/// The partial block is synced, if it is time.
pub open spec fn poll_sync(v: LoggerView, q: Seq<RadioEvent>) -> Polled {
    if is_time(v.now_ms, v.next_sync_ms) {
        let next_sync_ms = ((v.now_ms + SYNC_MS) % 0x1_0000_0000) as u32;
        let s = log_sync(v.log);
        (
            LoggerView {
                log: s.0,
                next_sync_ms,
                stage: if s.1 is Write {
                    LogStage::Sync
                } else {
                    LogStage::Idle
                },
                ..v
            },
            q,
            write_do(s.1),
        )
    } else {
        (LoggerView { stage: LogStage::Idle, ..v }, q, PollDo::Done)
    }
}

/// The queued radio events are echoed and logged, and the UART is read next.
pub open spec fn poll_drain(v: LoggerView, q: Seq<RadioEvent>) -> Polled
    decreases q.len(),
{
    if q.len() == 0 {
        (
            LoggerView { stage: LogStage::ReadUart { budget: DRAIN_BUDGET }, ..v },
            q,
            PollDo::ReadUart,
        )
    } else {
        let a = log_append(v.log, event_line(v.now_ms, q[0]));
        let v = echoed(v, event_echo(v.now_ms, q[0]));
        if a.1 is Write {
            (LoggerView { log: a.0, stage: LogStage::Drain, ..v }, q.skip(1), write_do(a.1))
        } else {
            poll_drain(LoggerView { log: a.0, ..v }, q.skip(1))
        }
    }
}

/// A poll begins: bring up the SD region if it is time, drain the radio event
/// queue and the GPS, and periodically sync the partial block.
pub open spec fn poll_start(v: LoggerView, q: Seq<RadioEvent>, now_ms: u32) -> Polled {
    let v = LoggerView { now_ms, echo: Seq::empty(), ..v };
    if !v.log.ready && is_time(now_ms, v.next_retry_ms) {
        (
            LoggerView {
                next_retry_ms: ((now_ms + RETRY_MS) % 0x1_0000_0000) as u32,
                stage: LogStage::CheckCard,
                ..v
            },
            q,
            PollDo::CheckCard,
        )
    } else {
        poll_drain(v, q)
    }
}

/// The answer to [`PollDo::CheckCard`]. A card is brought up where its kind is
/// not known, and also where it has failed: it may have been removed.
pub open spec fn poll_card_checked(
    v: LoggerView,
    q: Seq<RadioEvent>,
    present: bool,
    known: bool,
) -> Polled {
    if !present {
        poll_drain(v, q)
    } else if known && !v.card_failed {
        (LoggerView { stage: LogStage::ReadHeader, ..v }, q, PollDo::ReadBlock(HEADER_LBA))
    } else {
        (LoggerView { stage: LogStage::InitCard, ..v }, q, PollDo::InitCard)
    }
}

/// The answer to [`PollDo::InitCard`].
pub open spec fn poll_card_ready(v: LoggerView, q: Seq<RadioEvent>, ok: bool) -> Polled {
    let v = LoggerView { card_failed: !ok, ..v };
    if ok {
        (LoggerView { stage: LogStage::ReadHeader, ..v }, q, PollDo::ReadBlock(HEADER_LBA))
    } else {
        poll_drain(v, q)
    }
}

/// The answer to [`PollDo::ReadBlock`].
pub open spec fn poll_header_read(
    v: LoggerView,
    q: Seq<RadioEvent>,
    block: Option<Seq<u8>>,
) -> Polled {
    match block {
        Some(block) => {
            let s = log_setup(v.log, block);
            (LoggerView { log: s.0, stage: LogStage::Setup, ..v }, q, write_do(s.1))
        },
        None => poll_drain(LoggerView { card_failed: true, ..v }, q),
    }
}

/// The answer to [`PollDo::Write`].
pub open spec fn poll_written(v: LoggerView, q: Seq<RadioEvent>, ok: bool) -> Polled {
    let w = log_written(v.log, ok);
    let v = LoggerView { log: w.0, card_failed: v.card_failed || !ok, ..v };
    if w.1 is Write {
        (v, q, write_do(w.1))
    } else {
        match v.stage {
            LogStage::Setup => poll_drain(
                if v.log.ready {
                    echoed(v, logging_echo(v.log.lba))
                } else {
                    v
                },
                q,
            ),
            LogStage::Drain => poll_drain(v, q),
            LogStage::Sentence => poll_sync(v, q),
            _ => (LoggerView { stage: LogStage::Idle, ..v }, q, PollDo::Done),
        }
    }
}

/// The answer to [`PollDo::ReadUart`], with `budget` reads left, itself
/// included.
pub open spec fn poll_uart(
    v: LoggerView,
    q: Seq<RadioEvent>,
    read: UartRead,
    budget: usize,
) -> Polled {
    let g = gps_poll(v.gps, budget as int, read);
    let v = LoggerView { gps: g.0, ..v };
    let left = (budget - 1) as usize;
    match g.1 {
        GpsPoll::Line => {
            let v = heard(v, g.2->0);
            let a = log_append(v.log, gps_line(v.now_ms, g.2->0));
            if a.1 is Write {
                (LoggerView { log: a.0, stage: LogStage::Sentence, ..v }, q, write_do(a.1))
            } else {
                poll_sync(LoggerView { log: a.0, ..v }, q)
            }
        },
        GpsPoll::Read { clear_errors } => if clear_errors {
            (
                LoggerView { stage: LogStage::ClearUart { budget: left }, ..v },
                q,
                PollDo::ClearUart,
            )
        } else {
            (LoggerView { stage: LogStage::ReadUart { budget: left }, ..v }, q, PollDo::ReadUart)
        },
        GpsPoll::Nothing { clear_errors } => if clear_errors {
            (
                LoggerView { stage: LogStage::ClearUart { budget: 0 }, ..v },
                q,
                PollDo::ClearUart,
            )
        } else {
            poll_sync(v, q)
        },
    }
}

/// The answer to [`PollDo::ClearUart`], with `budget` reads left.
pub open spec fn poll_cleared(v: LoggerView, q: Seq<RadioEvent>, budget: usize) -> Polled {
    if budget > 0 {
        (LoggerView { stage: LogStage::ReadUart { budget }, ..v }, q, PollDo::ReadUart)
    } else {
        poll_sync(v, q)
    }
}

/// What a poll asks for.
pub enum PollStep {
    /// Nothing more: the poll is over.
    Done,
    /// See whether there is a card and whether it has been brought up, then
    /// call [`GpsRadioLog::card_checked`].
    CheckCard,
    /// Bring up the card, then call [`GpsRadioLog::card_ready`].
    InitCard,
    /// Read block `lba`, then call [`GpsRadioLog::header_read`].
    ReadBlock { lba: u32 },
    /// Write `block`, then call [`GpsRadioLog::block_written`].
    Write { lba: u32, block: [u8; BLOCK_LEN] },
    /// Read the GPS UART, then call [`GpsRadioLog::uart_read`].
    ReadUart,
    /// Clear the GPS UART's error flags (overrun keeps erroring until
    /// acknowledged), then call [`GpsRadioLog::uart_cleared`].
    ClearUart,
}

impl PollStep {
    /// What is asked, as the contracts speak of it.
    pub open spec fn view(self) -> PollDo {
        match self {
            PollStep::Done => PollDo::Done,
            PollStep::CheckCard => PollDo::CheckCard,
            PollStep::InitCard => PollDo::InitCard,
            PollStep::ReadBlock { lba } => PollDo::ReadBlock(lba),
            PollStep::Write { lba, block } => PollDo::Write { lba, block: block@ },
            PollStep::ReadUart => PollDo::ReadUart,
            PollStep::ClearUart => PollDo::ClearUart,
        }
    }
}

/// The whole feature: GPS receiver plus SD block logger.
pub struct GpsRadioLog {
    pub gps: Gps,
    pub log: BlockLog,
    pub next_sync_ms: u32,
    pub next_retry_ms: u32,
    /// When the poll under way began.
    pub now_ms: u32,
    /// How far it is.
    pub stage: LogStage,
    /// The fix quality that was last told.
    pub last_fix_quality: u8,
    /// The card has failed, and has not been brought up since.
    pub card_failed: bool,
    /// Lines for the console: see [`echo`](Self::echo).
    pub echo: Vec<Vec<u8>>,
}

impl GpsRadioLog {
    /// Every logger that `new` and the other methods give.
    pub open spec fn wf(self) -> bool {
        &&& self.gps.wf()
        &&& self.log.wf()
        &&& (self.log@.waits is Nothing) == !(self.stage is Setup || self.stage is Drain
            || self.stage is Sentence || self.stage is Sync || self.stage is Stats)
        &&& self.stage is CheckCard || self.stage is InitCard || self.stage is ReadHeader
            ==> !self.log@.ready
        &&& self.stage matches LogStage::ReadUart { budget } ==> 1 <= budget
    }

    /// The logger as the contracts speak of it.
    pub open spec fn view(self) -> LoggerView {
        LoggerView {
            gps: self.gps@,
            log: self.log@,
            next_sync_ms: self.next_sync_ms,
            next_retry_ms: self.next_retry_ms,
            now_ms: self.now_ms,
            stage: self.stage,
            last_fix_quality: self.last_fix_quality,
            card_failed: self.card_failed,
            echo: piece_views(self.echo@),
        }
    }

    /// A logger that has neither heard nor logged anything.
    pub fn new() -> (r: GpsRadioLog)
        ensures
            r.wf(),
            r@ == logger_unused(),
    {
        let r = GpsRadioLog {
            gps: Gps::new(),
            log: BlockLog::new(),
            next_sync_ms: 0,
            next_retry_ms: 0,
            now_ms: 0,
            stage: LogStage::Idle,
            last_fix_quality: 0,
            card_failed: false,
            echo: Vec::new(),
        };
        assert(r@.echo =~= Seq::<Seq<u8>>::empty());
        r
    }

    /// The lines that the poll under way, or the last one, has for the console:
    /// every radio event and sentence as it is logged, the fix quality when a
    /// sentence changes it, and where the log goes on when it is taken up.
    pub fn echo(&self) -> (r: &Vec<Vec<u8>>)
        ensures
            piece_views(r@) == self@.echo,
    {
        &self.echo
    }

    fn say(&mut self, line: Vec<u8>)
        ensures
            final(self)@ == echoed(old(self)@, line@),
            final(self).wf() == old(self).wf(),
            final(self).wf_parts() == old(self).wf_parts(),
            final(self).gps == old(self).gps,
    {
        self.echo.push(line);
        assert(self@.echo =~= old(self)@.echo.push(line@));
    }

    /// Whether the log takes text.
    pub fn is_logging(&self) -> (r: bool)
        ensures
            r == self@.log.ready,
    {
        self.log.is_ready()
    }

    /// Drive the logger: bring up the SD region, drain the GPS and the
    /// radio event queue, and periodically sync the partial block.
    /// Call every main loop iteration.
    #[verifier::spinoff_prover]
    #[verifier::rlimit(30)]
    pub fn poll(&mut self, queue: &mut Queue, now_ms: u32) -> (r: PollStep)
        requires
            old(self).wf(),
            old(queue).wf(),
            old(self)@.stage is Idle,
        ensures
            final(self).wf(),
            final(queue).wf(),
            (final(self)@, final(queue)@, r@) == poll_start(old(self)@, old(queue)@, now_ms),
    {
        self.now_ms = now_ms;
        self.echo = Vec::new();
        let ghost begun = LoggerView { now_ms, echo: Seq::empty(), ..old(self)@ };
        assert(self@ == begun) by {
            assert(self@.echo =~= Seq::<Seq<u8>>::empty());
        }
        assert(self.wf_parts());
        if !self.log.is_ready() && now_ms.wrapping_sub(self.next_retry_ms) < 0x7FFF_FFFF {
            self.next_retry_ms = now_ms.wrapping_add(RETRY_MS);
            self.stage = LogStage::CheckCard;
            return PollStep::CheckCard;
        }
        self.drain(queue)
    }

    /// The answer to [`PollStep::CheckCard`].
    pub fn card_checked(&mut self, queue: &mut Queue, present: bool, known: bool) -> (r: PollStep)
        requires
            old(self).wf(),
            old(queue).wf(),
            old(self)@.stage is CheckCard,
        ensures
            final(self).wf(),
            final(queue).wf(),
            (final(self)@, final(queue)@, r@) == poll_card_checked(
                old(self)@,
                old(queue)@,
                present,
                known,
            ),
    {
        if !present {
            self.drain(queue)
        } else if known && !self.card_failed {
            self.stage = LogStage::ReadHeader;
            PollStep::ReadBlock { lba: HEADER_LBA }
        } else {
            self.stage = LogStage::InitCard;
            PollStep::InitCard
        }
    }

    /// The answer to [`PollStep::InitCard`].
    pub fn card_ready(&mut self, queue: &mut Queue, ok: bool) -> (r: PollStep)
        requires
            old(self).wf(),
            old(queue).wf(),
            old(self)@.stage is InitCard,
        ensures
            final(self).wf(),
            final(queue).wf(),
            (final(self)@, final(queue)@, r@) == poll_card_ready(old(self)@, old(queue)@, ok),
    {
        self.card_failed = !ok;
        if ok {
            self.stage = LogStage::ReadHeader;
            PollStep::ReadBlock { lba: HEADER_LBA }
        } else {
            self.drain(queue)
        }
    }

    /// The answer to [`PollStep::ReadBlock`]: what the block holds, if it could
    /// be read.
    pub fn header_read(&mut self, queue: &mut Queue, block: Option<&[u8; BLOCK_LEN]>) -> (r:
        PollStep)
        requires
            old(self).wf(),
            old(queue).wf(),
            old(self)@.stage is ReadHeader,
        ensures
            final(self).wf(),
            final(queue).wf(),
            (final(self)@, final(queue)@, r@) == poll_header_read(
                old(self)@,
                old(queue)@,
                match block {
                    Some(b) => Some(b@),
                    None => None,
                },
            ),
    {
        match block {
            Some(block) => {
                let step: LogStep = self.log.setup(block);
                self.stage = LogStage::Setup;
                as_poll(step)
            },
            None => {
                self.card_failed = true;
                self.drain(queue)
            },
        }
    }

    /// The answer to [`PollStep::Write`].
    pub fn block_written(&mut self, queue: &mut Queue, ok: bool) -> (r: PollStep)
        requires
            old(self).wf(),
            old(queue).wf(),
            !(old(self)@.log.waits is Nothing),
        ensures
            final(self).wf(),
            final(queue).wf(),
            (final(self)@, final(queue)@, r@) == poll_written(old(self)@, old(queue)@, ok),
    {
        if !ok {
            self.card_failed = true;
        }
        let step: LogStep = self.log.written(ok);
        if matches!(step, LogStep::Write { .. }) {
            return as_poll(step);
        }
        match self.stage {
            LogStage::Setup => {
                if self.log.is_ready() {
                    let mut line: Vec<u8> = lit_vec("gps-radio-log: logging at block ");
                    push_dec(&mut line, self.log.lba());
                    self.say(line);
                }
                self.drain(queue)
            },
            LogStage::Drain => self.drain(queue),
            LogStage::Sentence => self.finish(),
            _ => {
                self.stage = LogStage::Idle;
                PollStep::Done
            },
        }
    }

    /// The answer to [`PollStep::ReadUart`].
    pub fn uart_read(&mut self, read: UartRead) -> (r: PollStep)
        requires
            old(self).wf(),
            old(self)@.stage is ReadUart,
        ensures
            final(self).wf(),
            forall|q: Seq<RadioEvent>|
                (final(self)@, q, r@) == #[trigger] poll_uart(
                    old(self)@,
                    q,
                    read,
                    old(self)@.stage->ReadUart_budget,
                ),
    {
        let budget: usize = match self.stage {
            LogStage::ReadUart { budget } => budget,
            _ => 1,
        };
        match self.gps.poll_line(read, budget) {
            GpsPoll::Line => {
                let mut text: Vec<u8> = Vec::new();
                push_lit(&mut text, "t=");
                push_dec(&mut text, self.now_ms);
                push_lit(&mut text, " GPS ");
                append(&mut text, self.gps.line());
                push_lit(&mut text, "\n");
                assert(text@ =~= gps_line(self.now_ms, self.gps.text()));
                self.tell_sentence();
                let step: LogStep = self.log.append(&text);
                if matches!(step, LogStep::Write { .. }) {
                    self.stage = LogStage::Sentence;
                    return as_poll(step);
                }
                self.finish()
            },
            GpsPoll::Read { clear_errors } => {
                if clear_errors {
                    self.stage = LogStage::ClearUart { budget: budget - 1 };
                    PollStep::ClearUart
                } else {
                    self.stage = LogStage::ReadUart { budget: budget - 1 };
                    PollStep::ReadUart
                }
            },
            GpsPoll::Nothing { clear_errors } => {
                if clear_errors {
                    self.stage = LogStage::ClearUart { budget: 0 };
                    PollStep::ClearUart
                } else {
                    self.finish()
                }
            },
        }
    }

    /// The answer to [`PollStep::ClearUart`].
    pub fn uart_cleared(&mut self) -> (r: PollStep)
        requires
            old(self).wf(),
            old(self)@.stage is ClearUart,
        ensures
            final(self).wf(),
            forall|q: Seq<RadioEvent>|
                (final(self)@, q, r@) == #[trigger] poll_cleared(
                    old(self)@,
                    q,
                    old(self)@.stage->ClearUart_budget,
                ),
    {
        match self.stage {
            LogStage::ClearUart { budget } => {
                if budget > 0 {
                    self.stage = LogStage::ReadUart { budget };
                    return PollStep::ReadUart;
                }
            },
            _ => {},
        }
        self.finish()
    }

    /// Echo the sentence that was heard, and the fix quality where that is not
    /// the one last told.
    fn tell_sentence(&mut self)
        requires
            old(self).gps.wf(),
        ensures
            final(self)@ == heard(old(self)@, old(self).gps.text()),
            final(self).wf() == old(self).wf(),
            final(self).wf_parts() == old(self).wf_parts(),
            final(self).gps == old(self).gps,
    {
        let mut line: Vec<u8> = lit_vec("GPS ");
        append(&mut line, self.gps.line());
        self.say(line);
        if self.gps.fix_quality != self.last_fix_quality {
            self.last_fix_quality = self.gps.fix_quality;
            let mut line: Vec<u8> = lit_vec("GPS fix quality ");
            push_dec(&mut line, self.gps.fix_quality as u32);
            push_lit(&mut line, " (");
            push_dec(&mut line, self.gps.sats as u32);
            push_lit(&mut line, " sats)");
            self.say(line);
        }
    }

    /// Log the queued radio events, then read the UART.
    #[verifier::rlimit(40)]
    fn drain(&mut self, queue: &mut Queue) -> (r: PollStep)
        requires
            old(self).wf_parts(),
            old(queue).wf(),
        ensures
            final(self).wf(),
            final(queue).wf(),
            (final(self)@, final(queue)@, r@) == poll_drain(old(self)@, old(queue)@),
    {
        loop
            invariant
                self.wf_parts(),
                queue.wf(),
                poll_drain(self@, queue@) == poll_drain(old(self)@, old(queue)@),
            ensures
                self.wf_parts(),
                queue.wf(),
                queue@.len() == 0,
                poll_drain(self@, queue@) == poll_drain(old(self)@, old(queue)@),
            decreases queue@.len(),
        {
            let ghost v = self@;
            let ghost q = queue@;
            let ev: RadioEvent = match pop(queue) {
                Some(ev) => ev,
                None => {
                    break;
                },
            };
            let text: Vec<u8> = event_text(self.now_ms, ev);
            let mut line: Vec<u8> = event_text(self.now_ms, ev);
            proof {
                lines_are_short(self.now_ms, ev, Seq::empty(), (0, 0, 0));
            }
            line.pop();
            assert(line@ =~= event_echo(v.now_ms, q[0]));
            self.say(line);
            let step: LogStep = self.log.append(&text);
            let ghost w = echoed(v, event_echo(v.now_ms, q[0]));
            assert((self@.log, step@) == log_append(v.log, event_line(v.now_ms, q[0])));
            assert(self@ == (LoggerView { log: self@.log, ..w }));
            assert(step@ is Done ==> poll_drain(v, q) == poll_drain(self@, q.skip(1)));
            if matches!(step, LogStep::Write { .. }) {
                self.stage = LogStage::Drain;
                return as_poll(step);
            }
        }
        self.stage = LogStage::ReadUart { budget: DRAIN_BUDGET };
        PollStep::ReadUart
    }

    closed spec fn wf_parts(self) -> bool {
        &&& self.gps.wf()
        &&& self.log.wf()
        &&& self.log@.waits is Nothing
    }

    /// Sync the partial block if it is time, and end the poll.
    fn finish(&mut self) -> (r: PollStep)
        requires
            old(self).wf_parts(),
        ensures
            final(self).wf(),
            forall|q: Seq<RadioEvent>|
                (final(self)@, q, r@) == #[trigger] poll_sync(old(self)@, q),
    {
        if self.now_ms.wrapping_sub(self.next_sync_ms) < 0x7FFF_FFFF {
            self.next_sync_ms = self.now_ms.wrapping_add(SYNC_MS);
            let step: LogStep = self.log.sync();
            if matches!(step, LogStep::Write { .. }) {
                self.stage = LogStage::Sync;
                return as_poll(step);
            }
        }
        self.stage = LogStage::Idle;
        PollStep::Done
    }

    /// Log a LoRa stats snapshot: packets received, CRC errors, header errors.
    pub fn log_stats(&mut self, now_ms: u32, stats: (u16, u16, u16)) -> (r: PollStep)
        requires
            old(self).wf(),
            old(self)@.stage is Idle,
        ensures
            final(self).wf(),
            ({
                let a = log_append(old(self)@.log, stats_line(now_ms, stats));
                &&& final(self)@ == (LoggerView {
                    log: a.0,
                    stage: if a.1 is Write {
                        LogStage::Stats
                    } else {
                        LogStage::Idle
                    },
                    ..old(self)@
                })
                &&& r@ == write_do(a.1)
            }),
    {
        let mut text: Vec<u8> = Vec::new();
        push_lit(&mut text, "t=");
        push_dec(&mut text, now_ms);
        push_lit(&mut text, " STATS rx=");
        push_dec(&mut text, stats.0 as u32);
        push_lit(&mut text, " crc_err=");
        push_dec(&mut text, stats.1 as u32);
        push_lit(&mut text, " hdr_err=");
        push_dec(&mut text, stats.2 as u32);
        push_lit(&mut text, "\n");
        assert(text@ =~= stats_line(now_ms, stats));
        let step: LogStep = self.log.append(&text);
        if matches!(step, LogStep::Write { .. }) {
            self.stage = LogStage::Stats;
        }
        as_poll(step)
    }
}

fn as_poll(step: LogStep) -> (r: PollStep)
    ensures
        r@ == write_do(step@),
{
    match step {
        LogStep::Done => PollStep::Done,
        LogStep::Write { lba, block } => PollStep::Write { lba, block },
    }
}

fn event_text(now_ms: u32, ev: RadioEvent) -> (text: Vec<u8>)
    ensures
        text@ == event_line(now_ms, ev),
{
    let mut text: Vec<u8> = Vec::new();
    push_lit(&mut text, "t=");
    push_dec(&mut text, now_ms);
    match ev {
        RadioEvent::Tx { len, ok } => {
            push_lit(&mut text, " TX len=");
            push_dec(&mut text, len as u32);
            push_lit(&mut text, " ok=");
            push_dec(
                &mut text,
                if ok {
                    1
                } else {
                    0
                },
            );
            push_lit(&mut text, "\n");
        },
        RadioEvent::Rx { len, rssi_dbm, snr_qdb, signal_rssi_dbm } => {
            // Quarter-dB SNR printed as a signed decimal.
            let snr_cdb: i32 = snr_qdb as i32 * 25;
            let mag: u32 = magnitude(snr_cdb);
            push_lit(&mut text, " RX len=");
            push_dec(&mut text, len as u32);
            push_lit(&mut text, " rssi=");
            push_signed(&mut text, rssi_dbm as i32);
            push_lit(&mut text, " snr=");
            if snr_cdb < 0 {
                push_lit(&mut text, "-");
            }
            push_dec(&mut text, mag / 100);
            push_lit(&mut text, ".");
            push_dec2(&mut text, mag % 100);
            push_lit(&mut text, " srssi=");
            push_signed(&mut text, signal_rssi_dbm as i32);
            push_lit(&mut text, "\n");
        },
    }
    assert(text@ =~= event_line(now_ms, ev));
    text
}

/// The length of every literal of a log line.
proof fn line_literals()
    ensures
        lit("t=").len() == 2,
        lit(" TX len=").len() == 8,
        lit(" ok=").len() == 4,
        lit("\n") == seq![10u8],
        lit(" RX len=").len() == 8,
        lit(" rssi=").len() == 6,
        lit(" snr=").len() == 5,
        lit("-").len() == 1,
        lit(".").len() == 1,
        lit(" srssi=").len() == 7,
        lit(" GPS ").len() == 5,
        lit(" STATS rx=").len() == 10,
        lit(" crc_err=").len() == 9,
        lit(" hdr_err=").len() == 9,
{
    reveal_strlit("t=");
    lit_codes("t=");
    reveal_strlit(" TX len=");
    lit_codes(" TX len=");
    reveal_strlit(" ok=");
    lit_codes(" ok=");
    reveal_strlit("\n");
    lit_codes("\n");
    reveal_strlit(" RX len=");
    lit_codes(" RX len=");
    reveal_strlit(" rssi=");
    lit_codes(" rssi=");
    reveal_strlit(" snr=");
    lit_codes(" snr=");
    reveal_strlit("-");
    lit_codes("-");
    reveal_strlit(".");
    lit_codes(".");
    reveal_strlit(" srssi=");
    lit_codes(" srssi=");
    reveal_strlit(" GPS ");
    lit_codes(" GPS ");
    reveal_strlit(" STATS rx=");
    lit_codes(" STATS rx=");
    reveal_strlit(" crc_err=");
    lit_codes(" crc_err=");
    reveal_strlit(" hdr_err=");
    lit_codes(" hdr_err=");
    assert(lit("\n") =~= seq![10u8]);
}

/// Every log line ends with a newline, and is short: an event or a sentence
/// takes at most 128 bytes, a stats snapshot at most 64.
pub proof fn lines_are_short(
    now_ms: u32,
    ev: RadioEvent,
    sentence: Seq<u8>,
    stats: (u16, u16, u16),
)
    requires
        sentence.len() <= NMEA_MAX,
    ensures
        event_line(now_ms, ev).len() <= 128,
        event_line(now_ms, ev).last() == 10,
        gps_line(now_ms, sentence).len() <= 128,
        gps_line(now_ms, sentence).last() == 10,
        stats_line(now_ms, stats).len() <= 64,
        stats_line(now_ms, stats).last() == 10,
{
    line_literals();
    dec_len(now_ms as nat);
    dec_len(stats.0 as nat);
    dec_len(stats.1 as nat);
    dec_len(stats.2 as nat);
    match ev {
        RadioEvent::Tx { len, ok } => {
            dec_len(len as nat);
            dec_len(0);
            dec_len(1);
        },
        RadioEvent::Rx { len, rssi_dbm, snr_qdb, signal_rssi_dbm } => {
            let mag = if snr_qdb < 0 {
                -25 * snr_qdb
            } else {
                25 * snr_qdb
            };
            dec_len(len as nat);
            dec_len(
                (if rssi_dbm < 0 {
                    -rssi_dbm
                } else {
                    rssi_dbm as int
                }) as nat,
            );
            dec_len(
                (if signal_rssi_dbm < 0 {
                    -signal_rssi_dbm
                } else {
                    signal_rssi_dbm as int
                }) as nat,
            );
            dec_len((mag / 100) as nat);
            dec_len((mag % 100) as nat);
        },
    }
}

/// The lines of some events, one after the other.
pub open spec fn event_lines(now_ms: u32, evs: Seq<RadioEvent>) -> Seq<u8>
    decreases evs.len(),
{
    if evs.len() == 0 {
        Seq::empty()
    } else {
        event_line(now_ms, evs[0]) + event_lines(now_ms, evs.skip(1))
    }
}

/// Draining the queue echoes each event that it logs, in order, and nothing else.
pub proof fn drained_events_are_echoed(v: LoggerView, q: Seq<RadioEvent>)
    ensures
        ({
            let after = poll_drain(v, q);
            let logged = q.len() - after.1.len();
            &&& 0 <= logged <= q.len()
            &&& after.0.echo == v.echo + Seq::new(
                logged as nat,
                |i: int| event_echo(v.now_ms, q[i]),
            )
        }),
    decreases q.len(),
{
    let after = poll_drain(v, q);
    if q.len() == 0 {
        assert(v.echo + Seq::new(0, |i: int| event_echo(v.now_ms, q[i])) =~= v.echo);
    } else {
        let a = log_append(v.log, event_line(v.now_ms, q[0]));
        let w = LoggerView { log: a.0, ..echoed(v, event_echo(v.now_ms, q[0])) };
        if !(a.1 is Write) {
            drained_events_are_echoed(w, q.skip(1));
        }
        let logged = q.len() - after.1.len();
        assert(after.0.echo =~= v.echo + Seq::new(
            logged as nat,
            |i: int| event_echo(v.now_ms, q[i]),
        ));
    }
}

/// The fix quality is told with the first sentence after it has changed, and not
/// again until it changes.
pub proof fn quality_is_told_once(v: LoggerView, first: Seq<u8>, second: Seq<u8>)
    ensures
        ({
            let once = heard(v, first);
            let twice = heard(once, second);
            &&& once.last_fix_quality == v.gps.fix_quality
            &&& v.gps.fix_quality != v.last_fix_quality ==> once.echo == v.echo.push(
                sentence_echo(first),
            ).push(quality_echo(v.gps.fix_quality, v.gps.sats))
            &&& twice.echo == once.echo.push(sentence_echo(second))
        }),
{
}

/// Draining the queue logs its events from the oldest on, each once and in
/// order, and stops only at the end of the queue or where a block has to be
/// written first. What has not been logged then is still queued.
#[verifier::rlimit(40)]
pub proof fn drained_events_are_logged(v: LoggerView, q: Seq<RadioEvent>, flushed: Seq<u8>)
    requires
        v.log.ready,
        v.log.waits is Nothing,
    ensures
        ({
            let after = poll_drain(v, q);
            let logged = q.len() - after.1.len();
            &&& 0 <= logged <= q.len()
            &&& after.1 == q.skip(logged)
            &&& after.1.len() > 0 ==> after.2 is Write
            &&& all_text(after.0.log, flushed) == all_text(v.log, flushed) + event_lines(
                v.now_ms,
                q.subrange(0, logged),
            )
        }),
    decreases q.len(),
{
    let after = poll_drain(v, q);
    let logged = q.len() - after.1.len();
    if q.len() == 0 {
        assert(q.skip(0) =~= q);
        assert(q.subrange(0, 0) =~= Seq::<RadioEvent>::empty());
        assert(all_text(v.log, flushed) + Seq::<u8>::empty() =~= all_text(v.log, flushed));
    } else {
        let line = event_line(v.now_ms, q[0]);
        let a = log_append(v.log, line);
        block_log::text_is_kept_in_order(v.log, flushed, line);
        if a.1 is Write {
            assert(q.subrange(0, 1).skip(1) =~= Seq::<RadioEvent>::empty());
            assert(event_lines(v.now_ms, q.subrange(0, 1)) =~= line) by {
                assert(event_lines(v.now_ms, Seq::empty()) =~= Seq::<u8>::empty());
            }
        } else {
            let w = LoggerView { log: a.0, ..echoed(v, event_echo(v.now_ms, q[0])) };
            drained_events_are_logged(w, q.skip(1), flushed);
            let more = logged - 1;
            assert(q.skip(1).skip(more) =~= q.skip(logged));
            assert(q.subrange(0, logged).skip(1) =~= q.skip(1).subrange(0, more));
            assert(q.subrange(0, logged)[0] == q[0]);
            assert(event_lines(v.now_ms, q.subrange(0, logged)) == line + event_lines(
                v.now_ms,
                q.skip(1).subrange(0, more),
            ));
            assert(all_text(after.0.log, flushed) =~= all_text(v.log, flushed) + event_lines(
                v.now_ms,
                q.subrange(0, logged),
            ));
        }
    }
}

/// A line that streams noise cannot hold a poll: each read of the UART leaves
/// one read less, and after the last one the poll goes on without.
pub proof fn noise_cannot_hold_a_poll(
    v: LoggerView,
    q: Seq<RadioEvent>,
    read: UartRead,
    budget: usize,
)
    requires
        1 <= budget <= DRAIN_BUDGET,
    ensures
        poll_uart(v, q, read, budget).0.stage matches LogStage::ReadUart { budget: left } ==> 1
            <= left == budget - 1,
        poll_uart(v, q, read, budget).0.stage matches LogStage::ClearUart { budget: left } ==> left
            == budget - 1,
        poll_cleared(v, q, (budget - 1) as usize).0.stage matches LogStage::ReadUart {
            budget: left,
        } ==> left == budget - 1,
{
}

/// A card that is missing or fails is tried again only after a while, and a
/// failed write puts the log back to where it is taken up anew. One that has
/// failed is then brought up first, whatever kind it was known to be; see
/// [`retry::failed_card_is_brought_up_anew`] for any number of polls between.
pub proof fn failing_card_is_retried_later(
    v: LoggerView,
    q: Seq<RadioEvent>,
    now_ms: u32,
    later_ms: u32,
    known: bool,
)
    requires
        !v.log.ready,
        is_time(now_ms, v.next_retry_ms),
        later_ms < RETRY_MS,
    ensures
        poll_start(v, q, now_ms).2 is CheckCard,
        !is_time(
            ((now_ms + later_ms) % 0x1_0000_0000) as u32,
            poll_start(v, q, now_ms).0.next_retry_ms,
        ),
        is_time(
            ((now_ms + RETRY_MS) % 0x1_0000_0000) as u32,
            poll_start(v, q, now_ms).0.next_retry_ms,
        ),
        !log_written(v.log, false).0.ready,
        v.card_failed ==> poll_card_checked(poll_start(v, q, now_ms).0, q, true, known).2
            is InitCard,
{
}

} // verus!
