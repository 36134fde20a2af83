//! Laws of the log's text: what was logged can be read back from it.

use vstd::prelude::*;
use crate::gpslog::block_log::{
    all_text, block_of, log_append, log_setup, log_sync, log_written, text_is_kept_in_order, LogDo,
    LogView, LogWait,
};
use crate::gpslog::events::RadioEvent;
use crate::gpslog::gps::{gps_poll, status_text, UartRead};
use crate::gpslog::{
    event_line, gps_line, heard, is_time, logging_echo, poll_card_checked, poll_card_ready,
    poll_cleared, poll_drain, poll_header_read, poll_start, poll_sync, poll_uart, poll_written,
    quality_echo, sentence_echo, stats_line, LogStage, LoggerView, PollDo,
};
use crate::text::{
    dec, dec2, dec_len, dec_round_trip, dec_signed, dec_value, lit, lit_codes,
};

verus! {

/// Every byte is a decimal digit.
pub open spec fn all_digits(text: Seq<u8>) -> bool {
    text.len() > 0 && forall|i: int| 0 <= i < text.len() ==> 48 <= #[trigger] text[i] <= 57
}

/// The number that a text of digits writes down.
pub open spec fn reads(text: Seq<u8>, n: int) -> bool {
    all_digits(text) && dec_value(text) == n
}

/// The number that a text of digits writes down, a minus sign before them where
/// it is negative.
pub open spec fn reads_signed(text: Seq<u8>, n: int) -> bool {
    if n < 0 {
        text.len() > 0 && text[0] == 45 && reads(text.skip(1), -n)
    } else {
        reads(text, n)
    }
}

/// The number of hundredths that a decimal with two places writes down, a minus
/// sign before it where it is negative.
pub open spec fn reads_hundredths(text: Seq<u8>, n: int) -> bool {
    let size = if n < 0 {
        text.skip(1)
    } else {
        text
    };
    let places = size.len() - 2;
    &&& n < 0 ==> text.len() > 0 && text[0] == 45
    &&& places >= 2
    &&& size[places - 1] == 46
    &&& all_digits(size.subrange(0, places - 1))
    &&& all_digits(size.skip(places))
    &&& dec_value(size.subrange(0, places - 1)) * 100 + dec_value(size.skip(places)) == if n < 0 {
        -n
    } else {
        n
    }
}

/// A number reads back from its decimal text.
proof fn dec_reads(n: nat)
    ensures
        reads(dec(n), n as int),
{
    dec_round_trip(n);
    dec_len(n);
}

/// A number below a hundred reads back from its text of two digits.
proof fn dec2_reads(n: nat)
    requires
        n < 100,
    ensures
        reads(dec2(n), n as int),
        dec2(n).len() == 2,
{
    dec_reads(n);
    dec_len(n);
    let t = dec2(n);
    if n < 10 {
        assert(t.drop_last() =~= seq![48u8]);
        assert(seq![48u8].drop_last() =~= Seq::<u8>::empty());
        assert(dec_value(Seq::<u8>::empty()) == 0);
        assert(dec_value(seq![48u8]) == 0);
        assert(dec(n) =~= seq![(48 + n) as u8]);
        assert(dec_value(t) == n);
    } else {
        reveal_with_fuel(dec, 3);
    }
}

/// A signed number reads back from its decimal text.
proof fn signed_reads(n: int)
    ensures
        reads_signed(dec_signed(n), n),
{
    if n < 0 {
        dec_reads((-n) as nat);
        assert(dec_signed(n).skip(1) =~= dec((-n) as nat));
    } else {
        dec_reads(n as nat);
    }
}

/// What stands before the SNR in the line of a received packet.
pub open spec fn before_snr(now_ms: u32, len: u8, rssi_dbm: i16) -> Seq<u8> {
    lit("t=") + dec(now_ms as nat) + lit(" RX len=") + dec(len as nat) + lit(" rssi=")
        + dec_signed(rssi_dbm as int) + lit(" snr=")
}

/// What stands after it.
pub open spec fn after_snr(signal_rssi_dbm: i16) -> Seq<u8> {
    lit(" srssi=") + dec_signed(signal_rssi_dbm as int) + lit("\n")
}

/// The line of a received packet: every value stands in its own place and can be
/// read back from it, the SNR as a decimal with two places that gives a quarter
/// of a dB for each of its units, with its sign.
pub proof fn received_packet_reads_back(
    now_ms: u32,
    len: u8,
    rssi_dbm: i16,
    snr_qdb: i16,
    signal_rssi_dbm: i16,
) -> (snr: Seq<u8>)
    ensures
        event_line(now_ms, RadioEvent::Rx { len, rssi_dbm, snr_qdb, signal_rssi_dbm })
            == before_snr(now_ms, len, rssi_dbm) + snr + after_snr(signal_rssi_dbm),
        reads_hundredths(snr, 25 * snr_qdb),
        reads(dec(now_ms as nat), now_ms as int),
        reads(dec(len as nat), len as int),
        reads_signed(dec_signed(rssi_dbm as int), rssi_dbm as int),
        reads_signed(dec_signed(signal_rssi_dbm as int), signal_rssi_dbm as int),
{
    let mag = if snr_qdb < 0 {
        -25 * snr_qdb
    } else {
        25 * snr_qdb
    };
    let whole = dec((mag / 100) as nat);
    let places = dec2((mag % 100) as nat);
    reveal_strlit(".");
    lit_codes(".");
    reveal_strlit("-");
    lit_codes("-");
    assert(lit(".") =~= seq![46u8]);
    assert(lit("-") =~= seq![45u8]);
    let size = whole + lit(".") + places;
    let snr = if snr_qdb < 0 {
        lit("-") + size
    } else {
        size
    };
    dec_reads(now_ms as nat);
    dec_reads(len as nat);
    signed_reads(rssi_dbm as int);
    signed_reads(signal_rssi_dbm as int);
    dec_reads((mag / 100) as nat);
    dec2_reads((mag % 100) as nat);
    if snr_qdb < 0 {
        assert(snr.skip(1) =~= size);
    }
    let k = size.len() - 2;
    assert(size.subrange(0, k - 1) =~= whole);
    assert(size.skip(k) =~= places);
    assert(event_line(
        now_ms,
        RadioEvent::Rx { len, rssi_dbm, snr_qdb, signal_rssi_dbm },
    ) =~= before_snr(now_ms, len, rssi_dbm) + snr + after_snr(signal_rssi_dbm));
    snr
}

/// A text gives one number of hundredths at most.
proof fn hundredths_are_one(text: Seq<u8>, a: int, b: int)
    requires
        reads_hundredths(text, a),
        reads_hundredths(text, b),
    ensures
        a == b,
{
    if a < 0 && b >= 0 || b < 0 && a >= 0 {
        let whole = text.subrange(0, text.len() - 3);
        assert(whole[0] == 45);
    }
}

/// Texts with the same beginning and the same end have the same middle.
proof fn middle_decides(head: Seq<u8>, x: Seq<u8>, y: Seq<u8>, tail: Seq<u8>)
    requires
        head + x + tail == head + y + tail,
    ensures
        x == y,
{
    let a = head + x + tail;
    let b = head + y + tail;
    assert(a.len() == b.len());
    assert(x.len() == y.len());
    assert forall|i: int| 0 <= i < x.len() implies x[i] == y[i] by {
        assert(a[head.len() + i] == x[i]);
        assert(b[head.len() + i] == y[i]);
    }
    assert(x =~= y);
}

/// The lines of two packets that differ only in their SNR differ.
pub proof fn snr_shows_in_the_line(
    now_ms: u32,
    len: u8,
    rssi_dbm: i16,
    a: i16,
    b: i16,
    signal_rssi_dbm: i16,
)
    requires
        a != b,
    ensures
        event_line(now_ms, RadioEvent::Rx { len, rssi_dbm, snr_qdb: a, signal_rssi_dbm })
            != event_line(now_ms, RadioEvent::Rx { len, rssi_dbm, snr_qdb: b, signal_rssi_dbm }),
{
    let x = received_packet_reads_back(now_ms, len, rssi_dbm, a, signal_rssi_dbm);
    let y = received_packet_reads_back(now_ms, len, rssi_dbm, b, signal_rssi_dbm);
    let head = before_snr(now_ms, len, rssi_dbm);
    let tail = after_snr(signal_rssi_dbm);
    if head + x + tail == head + y + tail {
        middle_decides(head, x, y, tail);
        hundredths_are_one(x, 25 * a, 25 * b);
    }
}

/// The line of a transmission tells its length, and by a single digit whether it
/// succeeded.
pub proof fn transmission_reads_back(now_ms: u32, len: u8, ok: bool)
    ensures
        event_line(now_ms, RadioEvent::Tx { len, ok }) == lit("t=") + dec(now_ms as nat) + lit(
            " TX len=",
        ) + dec(len as nat) + lit(" ok=") + seq![
            if ok {
                49u8
            } else {
                48u8
            },
        ] + lit("\n"),
        reads(dec(now_ms as nat), now_ms as int),
        reads(dec(len as nat), len as int),
{
    dec_reads(now_ms as nat);
    dec_reads(len as nat);
    assert(dec(0) =~= seq![48u8]);
    assert(dec(1) =~= seq![49u8]);
}

/// The line of a stats snapshot tells packets received, CRC errors and header
/// errors, each in its own place.
pub proof fn stats_read_back(now_ms: u32, received: u16, crc_errors: u16, header_errors: u16)
    ensures
        stats_line(now_ms, (received, crc_errors, header_errors)) == lit("t=") + dec(
            now_ms as nat,
        ) + lit(" STATS rx=") + dec(received as nat) + lit(" crc_err=") + dec(crc_errors as nat)
            + lit(" hdr_err=") + dec(header_errors as nat) + lit("\n"),
        reads(dec(now_ms as nat), now_ms as int),
        reads(dec(received as nat), received as int),
        reads(dec(crc_errors as nat), crc_errors as int),
        reads(dec(header_errors as nat), header_errors as int),
{
    dec_reads(now_ms as nat);
    dec_reads(received as nat);
    dec_reads(crc_errors as nat);
    dec_reads(header_errors as nat);
}

/// A sentence is logged verbatim behind its time, and a line for the console
/// tells it, the fix, or where the log goes on.
pub proof fn sentences_are_kept_verbatim(
    now_ms: u32,
    sentence: Seq<u8>,
    fix_quality: u8,
    sats: u8,
    lba: u32,
)
    ensures
        gps_line(now_ms, sentence) == lit("t=") + dec(now_ms as nat) + lit(" GPS ") + sentence
            + lit("\n"),
        sentence_echo(sentence) == lit("GPS ") + sentence,
        quality_echo(fix_quality, sats) == lit("GPS fix quality ") + dec(fix_quality as nat)
            + lit(" (") + dec(sats as nat) + lit(" sats)"),
        logging_echo(lba) == lit("gps-radio-log: logging at block ") + dec(lba as nat),
        reads(dec(now_ms as nat), now_ms as int),
        reads(dec(fix_quality as nat), fix_quality as int),
        reads(dec(sats as nat), sats as int),
        reads(dec(lba as nat), lba as int),
{
    dec_reads(now_ms as nat);
    dec_reads(fix_quality as nat);
    dec_reads(sats as nat);
    dec_reads(lba as nat);
}

/// The display's status line tells the satellites, the RSSI, and the whole
/// seconds since the last packet as minutes and seconds.
pub proof fn status_reads_back(sats: u8, rssi: i16, since_ms: u32) -> (parts: (
    Seq<u8>,
    Seq<u8>,
    int,
    int,
))
    ensures
        ({
            let (n, m, minutes, seconds) = parts;
            &&& status_text(sats, rssi, Some(since_ms)) == n + lit(" ") + dec_signed(rssi as int)
                + lit("dBm ") + m
            &&& m == dec(minutes as nat) + lit("m") + dec2(seconds as nat) + lit("s")
            &&& 0 <= seconds < 60
            &&& 0 <= minutes
            &&& 60 * minutes + seconds == since_ms as int / 1000
            &&& status_text(sats, rssi, None) == n + lit(" no rx")
            &&& n.len() >= 2
            &&& dec_value(n) == sats
            &&& reads_signed(dec_signed(rssi as int), rssi as int)
        }),
{
    let minutes = since_ms as int / 1000 / 60;
    let seconds = since_ms as int / 1000 % 60;
    let n = dec2(sats as nat);
    let m = dec(minutes as nat) + lit("m") + dec2(seconds as nat) + lit("s");
    signed_reads(rssi as int);
    if sats < 100 {
        dec2_reads(sats as nat);
    } else {
        dec_reads(sats as nat);
        reveal_with_fuel(dec, 4);
    }
    assert(status_text(sats, rssi, Some(since_ms)) =~= n + lit(" ") + dec_signed(rssi as int)
        + lit("dBm ") + m);
    (n, m, minutes, seconds)
}

/// A sentence that was heard is in the log behind all that was logged before, and
/// nothing else is.
pub proof fn heard_sentence_is_logged(
    v: LoggerView,
    q: Seq<RadioEvent>,
    read: UartRead,
    budget: usize,
    flushed: Seq<u8>,
)
    requires
        v.log.ready,
        v.log.waits is Nothing,
        gps_poll(v.gps, budget as int, read).1 is Line,
    ensures
        all_text(poll_uart(v, q, read, budget).0.log, flushed) == all_text(v.log, flushed)
            + gps_line(v.now_ms, gps_poll(v.gps, budget as int, read).2->0),
        poll_uart(v, q, read, budget).1 == q,
{
    let line = gps_line(v.now_ms, gps_poll(v.gps, budget as int, read).2->0);
    text_is_kept_in_order(v.log, flushed, line);
    let a = log_append(v.log, line);
    assert(log_sync(a.0).0.filled == a.0.filled);
    assert(a.1 is Done ==> all_text(log_sync(a.0).0, flushed) =~= all_text(a.0, flushed));
}

/// A poll ends by writing the unsaved text every ten seconds: not before, and
/// then in the block that is being filled, padded with zero bytes.
pub proof fn unsaved_text_is_synced(v: LoggerView, q: Seq<RadioEvent>, later_ms: u32)
    requires
        v.log.ready,
        v.log.dirty,
        v.log.waits is Nothing,
        v.log.filled.len() < 512,
        is_time(v.now_ms, v.next_sync_ms),
        later_ms < 0x7FFF_FFFF,
    ensures
        ({
            let after = poll_sync(v, q);
            &&& after.2 matches PollDo::Write { lba, block }
            &&& lba == v.log.lba
            &&& block.len() == 512
            &&& block.subrange(0, v.log.filled.len() as int) == v.log.filled
            &&& forall|i: int| v.log.filled.len() <= i < 512 ==> block[i] == 0
            &&& is_time(((v.now_ms + later_ms) % 0x1_0000_0000) as u32, after.0.next_sync_ms) == (
            later_ms >= 10000)
        }),
{
    let block = block_of(v.log.filled);
    assert(block.subrange(0, v.log.filled.len() as int) =~= v.log.filled);
}

/// Before it is time, and where there is nothing unsaved, a poll ends without a
/// write.
pub proof fn saved_text_is_left_alone(v: LoggerView, q: Seq<RadioEvent>)
    requires
        !v.log.dirty || !v.log.ready || !is_time(v.now_ms, v.next_sync_ms),
    ensures
        poll_sync(v, q).2 is Done,
        poll_sync(v, q).0.log == v.log,
        poll_sync(v, q).0.stage is Idle,
{
}

/// A deadline is past once it has come, for half the clock's range.
pub proof fn time_is_half_the_clock(deadline: u32, elapsed: u32)
    ensures
        is_time(((deadline + elapsed) % 0x1_0000_0000) as u32, deadline) == (elapsed < 2147483647),
{
}

/// A time that is set ahead has come once that much has passed, and not before.
pub proof fn retry_time_comes_once(now: u32, ms: u32, elapsed: u32)
    requires
        ms < 0x4000_0000,
        elapsed < 0x4000_0000,
    ensures
        is_time(
            ((now + elapsed) % 0x1_0000_0000) as u32,
            ((now + ms) % 0x1_0000_0000) as u32,
        ) == (elapsed >= ms),
{
}

/// Text that fits the block is kept and marked as unsaved; no text changes
/// nothing; and a log that is not taken up takes none.
pub proof fn appended_text_is_unsaved(v: LogView, data: Seq<u8>)
    requires
        v.waits is Nothing,
        v.filled.len() + data.len() < 512,
    ensures
        ({
            let after = log_append(v, data);
            &&& after.1 is Done
            &&& !v.ready ==> after.0 == v
            &&& v.ready ==> after.0 == (LogView {
                filled: v.filled + data,
                dirty: after.0.dirty,
                ..v
            })
            &&& v.ready && data.len() > 0 ==> after.0.dirty
            &&& v.ready && data.len() == 0 ==> after.0.dirty == v.dirty
        }),
{
}

/// A block that fills up goes to the card at its own place, and what is left over
/// starts the next one.
pub proof fn full_blocks_are_written(v: LogView, data: Seq<u8>)
    requires
        v.ready,
        v.filled.len() < 512,
        v.filled.len() + data.len() >= 512,
    ensures
        ({
            let after = log_append(v, data);
            &&& after.1 matches LogDo::Write { lba, block }
            &&& lba == v.lba
            &&& block.len() == 512
            &&& after.0.waits matches LogWait::Block { rest }
            &&& block + rest == v.filled + data
        }),
{
    let all = v.filled + data;
    assert(all.subrange(0, 512) + all.skip(512) =~= all);
}

/// A synced block is saved, a log whose header is written takes text, and a
/// write that fails leaves a log that is not taken up and has nothing to save.
pub proof fn writes_tell_the_log(v: LogView)
    ensures
        v.waits is Sync ==> log_written(v, true) == (
            LogView { dirty: false, waits: LogWait::Nothing, ..v },
            LogDo::Done,
        ),
        v.waits is Setup ==> log_written(v, true) == (
            LogView { ready: true, waits: LogWait::Nothing, ..v },
            LogDo::Done,
        ),
        log_written(v, false) == (
            LogView { ready: false, dirty: false, waits: LogWait::Nothing, ..v },
            LogDo::Done,
        ),
{
}

/// A poll looks for the card exactly where the log is not taken up and it is
/// time, and then again ten seconds later; the console lines of the poll before
/// are gone.
pub proof fn card_is_looked_for(v: LoggerView, q: Seq<RadioEvent>, now_ms: u32, later_ms: u32)
    requires
        later_ms < 0x4000_0000,
    ensures
        ({
            let after = poll_start(v, q, now_ms);
            let looks = !v.log.ready && is_time(now_ms, v.next_retry_ms);
            &&& looks <==> after.2 is CheckCard
            &&& looks ==> {
                &&& after.0.stage is CheckCard
                &&& after.0.echo.len() == 0
                &&& after.0.now_ms == now_ms
                &&& after.1 == q
                &&& is_time(((now_ms + later_ms) % 0x1_0000_0000) as u32, after.0.next_retry_ms)
                    == (later_ms >= 10000)
            }
        }),
{
    let w = LoggerView { now_ms, echo: Seq::empty(), ..v };
    let after = poll_start(v, q, now_ms);
    drain_never_looks(w, q);
    retry_time_comes_once(now_ms, 10000, later_ms);
    if !v.log.ready && is_time(now_ms, v.next_retry_ms) {
        assert(after.0.next_retry_ms == ((now_ms + 10000) % 0x1_0000_0000) as u32);
        assert(after.2 is CheckCard);
    } else {
        assert(after == poll_drain(w, q));
    }
}

proof fn drain_never_looks(v: LoggerView, q: Seq<RadioEvent>)
    ensures
        !(poll_drain(v, q).2 is CheckCard),
    decreases q.len(),
{
    if q.len() > 0 {
        let a = log_append(v.log, event_line(v.now_ms, q[0]));
        let w = LoggerView { log: a.0, ..crate::gpslog::echoed(
            v,
            crate::gpslog::event_echo(v.now_ms, q[0]),
        ) };
        drain_never_looks(w, q.skip(1));
    }
}

/// What a poll does about the card: one that is there and known is read at block
/// 2048, one that is there and not known, or that has failed, is brought up, and
/// without one the poll goes on. A card that cannot be brought up or read has
/// failed.
pub proof fn card_is_brought_up(v: LoggerView, known: bool, ok: bool, block: Seq<u8>)
    ensures
        ({
            let none = Seq::<RadioEvent>::empty();
            let absent = poll_card_checked(v, none, false, known);
            let checked = poll_card_checked(v, none, true, known);
            let up = poll_card_ready(v, none, ok);
            let unread = poll_header_read(v, none, None);
            let read = poll_header_read(v, none, Some(block));
            &&& absent.2 is ReadUart && absent.0.card_failed == v.card_failed
            &&& known && !v.card_failed ==> checked.2 == PollDo::ReadBlock(2048)
                && checked.0.stage is ReadHeader
            &&& !known || v.card_failed ==> checked.2 is InitCard && checked.0.stage is InitCard
            &&& ok ==> up.2 == PollDo::ReadBlock(2048) && !up.0.card_failed
                && up.0.stage is ReadHeader
            &&& !ok ==> up.2 is ReadUart && up.0.card_failed
            &&& unread.2 is ReadUart && unread.0.card_failed && unread.0.log == v.log
            &&& read.2 matches PollDo::Write { lba, .. } && lba == 2048
            &&& read.0.stage is Setup
            &&& read.0.log == log_setup(v.log, block).0
            &&& read.0.card_failed == v.card_failed
        }),
{
}

/// With no radio event left a poll reads the GPS, up to 512 bytes of it.
pub proof fn gps_is_read_last(v: LoggerView)
    ensures
        ({
            let after = poll_drain(v, Seq::empty());
            &&& after.2 is ReadUart
            &&& after.0 == (LoggerView { stage: LogStage::ReadUart { budget: 512 }, ..v })
        }),
{
}

/// A UART whose errors are cleared is read again while reads are left, and then
/// it is looked whether to sync.
pub proof fn cleared_uart_is_read_again(v: LoggerView, budget: usize)
    ensures
        ({
            let none = Seq::<RadioEvent>::empty();
            let after = poll_cleared(v, none, budget);
            &&& budget > 0 ==> after.2 is ReadUart && after.0 == (LoggerView {
                stage: LogStage::ReadUart { budget },
                ..v
            })
            &&& budget == 0 ==> after == poll_sync(v, none)
        }),
{
}

/// A written block tells the log, and the poll goes on where it was: after the
/// header the place of the log is told and the events are drained, after a
/// sentence it is looked whether to sync, and after a sync the poll is over. A
/// block that could not be written is a card that has failed.
pub proof fn poll_goes_on_after_a_write(v: LoggerView, ok: bool)
    requires
        v.log.waits is Sync || v.log.waits is Setup,
    ensures
        ({
            let none = Seq::<RadioEvent>::empty();
            let after = poll_written(v, none, ok);
            let log = log_written(v.log, ok).0;
            &&& after.0.log == log || v.stage is Sentence
            &&& after.0.card_failed == (v.card_failed || !ok)
            &&& v.stage is Setup ==> {
                &&& after.2 is ReadUart
                &&& after.0.echo == if log.ready {
                    v.echo.push(logging_echo(v.log.lba))
                } else {
                    v.echo
                }
            }
            &&& v.stage is Drain ==> after.2 is ReadUart && after.0.echo == v.echo
            &&& v.stage is Sentence ==> after == poll_sync(
                LoggerView { log, card_failed: v.card_failed || !ok, ..v },
                none,
            )
            &&& v.stage is Sync ==> after.2 is Done && after.0.stage is Idle
        }),
{
}

/// A fix quality is told after the sentence that changed it and not again until
/// it changes once more.
pub proof fn changes_of_quality_are_told(v: LoggerView, sentence: Seq<u8>)
    ensures
        ({
            let after = heard(v, sentence);
            &&& after.echo[v.echo.len() as int] == sentence_echo(sentence)
            &&& after.last_fix_quality == v.gps.fix_quality
            &&& v.gps.fix_quality == v.last_fix_quality ==> after.echo.len() == v.echo.len() + 1
            &&& v.gps.fix_quality != v.last_fix_quality ==> after.echo.len() == v.echo.len() + 2
                && after.echo.last() == quality_echo(v.gps.fix_quality, v.gps.sats)
            &&& after.log == v.log && after.gps == v.gps
        }),
{
}

/// Full blocks go to the card one after the other, and around at the end of the
/// region; every sixteenth is followed by the header, which points to the block
/// after it.
pub proof fn blocks_go_in_turn(v: LogView, rest: Seq<u8>)
    requires
        v.ready,
        v.waits == (LogWait::Block { rest }),
        2049 <= v.lba < 2049 + 2097152,
        rest.len() < 512,
    ensures
        ({
            let after = log_written(v, true);
            let next = if v.lba == 2049 + 2097151 {
                2049int
            } else {
                v.lba + 1
            };
            &&& after.0.lba == next
            &&& (next - 2049) % 16 != 0 ==> after.1 is Done && after.0.filled == rest
                && after.0.dirty == (rest.len() > 0)
            &&& (next - 2049) % 16 == 0 ==> {
                &&& after.1 matches LogDo::Write { lba, block }
                &&& lba == 2048
                &&& block.len() == 512
                &&& block.subrange(0, 4) == seq![71u8, 82u8, 76u8, 49u8]
                &&& block[4] + 256 * block[5] + 65536 * block[6] + 16777216 * block[7] == next
                &&& forall|i: int| 8 <= i < 512 ==> block[i] == 0
                &&& log_written(after.0, true).0.filled == rest
                &&& log_written(after.0, true).1 is Done
                &&& log_written(after.0, true).0.dirty == (rest.len() > 0)
            }
        }),
{
    let after = log_written(v, true);
    assert(Seq::<u8>::empty() + rest =~= rest);
    if after.1 is Write {
        let block = after.1->block;
        assert(block.subrange(0, 4) =~= seq![71u8, 82u8, 76u8, 49u8]);
        let lba = after.0.lba;
        let b = crate::bytes::u32_le(lba);
        assert(block[4] == b[0] && block[5] == b[1] && block[6] == b[2] && block[7] == b[3]);
    }
}

/// A log is taken up seventeen blocks past where its header points, around the
/// end of the region, and from the first block where there is no header; and it
/// takes text only once its new header is written.
pub proof fn log_is_taken_up(v: LogView, block: Seq<u8>)
    requires
        block.len() == 512,
    ensures
        ({
            let after = log_setup(v, block);
            let marked = block.subrange(0, 4) == seq![71u8, 82u8, 76u8, 49u8];
            let stored = block[4] + 256 * block[5] + 65536 * block[6] + 16777216 * block[7];
            &&& marked && 2049 <= stored < 2049 + 2097152 ==> after.0.lba == if stored + 17 < 2049
                + 2097152 {
                stored + 17
            } else {
                stored + 17 - 2097152
            }
            &&& !(marked && 2049 <= stored < 2049 + 2097152) ==> after.0.lba == if marked {
                2049int
            } else {
                2066
            }
            &&& !after.0.ready
            &&& after.0.filled.len() == 0
            &&& log_written(after.0, true).0.ready
            &&& !log_written(after.0, false).0.ready
        }),
{
}

} // verus!
