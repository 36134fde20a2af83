//! What becomes of a card that has failed, over any number of polls.

use vstd::prelude::*;
use super::block_log::{log_written, LogWait};
use super::events::RadioEvent;
use super::gps::UartRead;
use super::{
    echoed, event_echo, poll_card_checked, poll_card_ready, poll_cleared, poll_drain,
    poll_header_read, poll_start, poll_uart, poll_written, LogStage, LoggerView, PollDo,
    Polled,
};

verus! {

/// What happens to a logger.
pub enum LoggerEvent {
    /// A poll begins.
    Poll { now_ms: u32 },
    /// The card was looked for.
    Checked { present: bool, known: bool },
    /// The card was brought up, or could not be.
    Ready { ok: bool },
    /// The header was read, or could not be.
    Header { block: Option<Seq<u8>> },
    /// The block was written, or could not be.
    Written { ok: bool },
    /// The UART was read.
    Uart { read: UartRead },
    /// The UART's error flags were cleared.
    Cleared,
}

/// One event, with the radio events that are queued then; what the logger does
/// not wait for changes nothing.
pub open spec fn logger_event(v: LoggerView, q: Seq<RadioEvent>, ev: LoggerEvent) -> Polled {
    match (v.stage, ev) {
        (LogStage::Idle, LoggerEvent::Poll { now_ms }) => poll_start(v, q, now_ms),
        (LogStage::CheckCard, LoggerEvent::Checked { present, known }) => poll_card_checked(
            v,
            q,
            present,
            known,
        ),
        (LogStage::InitCard, LoggerEvent::Ready { ok }) => poll_card_ready(v, q, ok),
        (LogStage::ReadHeader, LoggerEvent::Header { block }) => poll_header_read(v, q, block),
        (LogStage::ReadUart { budget }, LoggerEvent::Uart { read }) => poll_uart(
            v,
            q,
            read,
            budget,
        ),
        (LogStage::ClearUart { budget }, LoggerEvent::Cleared) => poll_cleared(v, q, budget),
        (LogStage::Setup | LogStage::Drain | LogStage::Sentence | LogStage::Sync
        | LogStage::Stats, LoggerEvent::Written { ok }) => poll_written(v, q, ok),
        _ => (v, q, PollDo::Done),
    }
}

/// The logger after these events, each with the radio events that are queued
/// then.
pub open spec fn logger_run(
    v: LoggerView,
    events: Seq<(LoggerEvent, Seq<RadioEvent>)>,
) -> LoggerView
    decreases events.len(),
{
    if events.len() == 0 {
        v
    } else {
        logger_event(
            logger_run(v, events.drop_last()),
            events.last().1,
            events.last().0,
        ).0
    }
}

/// The logger takes no text until a card has been brought up.
pub open spec fn needs_card(v: LoggerView) -> bool {
    &&& v.card_failed
    &&& !v.log.ready
    &&& v.log.waits is Nothing
    &&& v.stage is Idle || v.stage is CheckCard || v.stage is InitCard || v.stage is ReadUart
        || v.stage is ClearUart
}

/// Draining the queue into a log that takes no text asks for no write.
proof fn drain_without_log(v: LoggerView, q: Seq<RadioEvent>)
    requires
        !v.log.ready,
        v.log.waits is Nothing,
    ensures
        ({
            let after = poll_drain(v, q);
            &&& after.0.log == v.log
            &&& after.0.card_failed == v.card_failed
            &&& after.0.stage is ReadUart
            &&& after.2 is ReadUart
        }),
    decreases q.len(),
{
    if q.len() > 0 {
        assert(v.log.waits == LogWait::Nothing);
        let w = echoed(v, event_echo(v.now_ms, q[0]));
        drain_without_log(LoggerView { log: v.log, ..w }, q.skip(1));
    }
}

/// A card that fails to be brought up, read or written leaves the logger in need
/// of one.
pub proof fn failure_needs_card(v: LoggerView, q: Seq<RadioEvent>)
    requires
        v.stage is InitCard || v.stage is ReadHeader ==> !v.log.ready && v.log.waits is Nothing,
    ensures
        v.stage is InitCard ==> needs_card(logger_event(v, q, LoggerEvent::Ready { ok: false }).0),
        v.stage is ReadHeader ==> needs_card(
            logger_event(v, q, LoggerEvent::Header { block: None }).0,
        ),
        v.stage is Setup || v.stage is Drain || v.stage is Sentence || v.stage is Sync || v.stage
            is Stats ==> needs_card(logger_event(v, q, LoggerEvent::Written { ok: false }).0),
{
    let failed = LoggerView { card_failed: true, ..v };
    if v.stage is InitCard || v.stage is ReadHeader {
        drain_without_log(failed, q);
    } else if v.stage is Setup || v.stage is Drain {
        drain_without_log(LoggerView { log: log_written(v.log, false).0, ..failed }, q);
    }
}

/// No event but a successful bring-up ends that need, and none asks for a block.
proof fn event_keeps_need(v: LoggerView, q: Seq<RadioEvent>, ev: LoggerEvent)
    requires
        needs_card(v),
        ev != (LoggerEvent::Ready { ok: true }),
    ensures
        needs_card(logger_event(v, q, ev).0),
        !(logger_event(v, q, ev).2 is ReadBlock),
        !(logger_event(v, q, ev).2 is Write),
{
    match (v.stage, ev) {
        (LogStage::Idle, LoggerEvent::Poll { now_ms }) => {
            drain_without_log(LoggerView { now_ms, echo: Seq::empty(), ..v }, q);
        },
        (LogStage::CheckCard, LoggerEvent::Checked { .. }) => {
            drain_without_log(v, q);
        },
        (LogStage::InitCard, LoggerEvent::Ready { .. }) => {
            drain_without_log(v, q);
        },
        _ => {},
    }
}

/// Once a card has failed, and until one has been brought up again, whatever
/// else happens: the log takes no text, and nothing is read or written. A retry
/// that finds a card brings it up, whatever kind it was known to be.
pub proof fn failed_card_is_brought_up_anew(
    v: LoggerView,
    events: Seq<(LoggerEvent, Seq<RadioEvent>)>,
    next: LoggerEvent,
    q: Seq<RadioEvent>,
    known: bool,
)
    requires
        needs_card(v),
        forall|i: int|
            0 <= i < events.len() ==> (#[trigger] events[i]).0 != (LoggerEvent::Ready { ok: true }),
        next != (LoggerEvent::Ready { ok: true }),
    ensures
        ({
            let after = logger_run(v, events);
            &&& needs_card(after)
            &&& !(logger_event(after, q, next).2 is ReadBlock)
            &&& !(logger_event(after, q, next).2 is Write)
            &&& after.stage is CheckCard ==> logger_event(
                after,
                q,
                LoggerEvent::Checked { present: true, known },
            ).2 is InitCard
        }),
    decreases events.len(),
{
    if events.len() > 0 {
        let init = events.drop_last();
        assert forall|i: int| 0 <= i < init.len() implies (#[trigger] init[i]).0 != (
        LoggerEvent::Ready { ok: true }) by {
            assert(init[i] == events[i]);
        }
        failed_card_is_brought_up_anew(v, init, next, q, known);
        assert(events[events.len() - 1] == events.last());
        event_keeps_need(logger_run(v, init), events.last().1, events.last().0);
    }
    event_keeps_need(logger_run(v, events), q, next);
}

} // verus!
