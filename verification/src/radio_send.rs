//! Whole transmissions: how a packet that was handed to the radio ends, from
//! what the polls of the interrupt register show.

use vstd::prelude::*;
use crate::radio::{
    has_irq, radio_cleared, radio_irq, radio_ran, radio_tick, tx_overdue, RadioDo, RadioStage,
    Sx1262Driver, Sx1262Error,
};
use crate::subghz::IrqKind;

verus! {

/// One poll of a transmission: the time, and what the interrupt register read,
/// if it could be read.
pub struct TxPoll {
    pub now_ms: u32,
    pub irq: Option<u16>,
}

impl TxPoll {
    /// The poll shows this event.
    pub open spec fn shows(self, kind: IrqKind) -> bool {
        self.irq matches Some(irq) && has_irq(irq, kind)
    }
}

/// The driver after one poll; one that no longer waits for its packet does not
/// poll.
pub open spec fn send_poll(d: Sx1262Driver, poll: TxPoll) -> Sx1262Driver {
    if d.stage is SendWait {
        let ticked = radio_tick(d, poll.now_ms);
        if ticked.1 is ReadIrq {
            radio_irq(ticked.0, poll.irq).0
        } else {
            ticked.0
        }
    } else {
        d
    }
}

/// The driver after these polls.
pub open spec fn send_polls(d: Sx1262Driver, polls: Seq<TxPoll>) -> Sx1262Driver
    decreases polls.len(),
{
    if polls.len() == 0 {
        d
    } else {
        send_poll(send_polls(d, polls.drop_last()), polls.last())
    }
}

/// The first `n` polls come in time and show neither that the packet is out nor
/// that the radio gave up.
pub open spec fn still_out(d: Sx1262Driver, start: u32, polls: Seq<TxPoll>, n: int) -> bool {
    forall|j: int|
        #![trigger polls[j]]
        0 <= j < n ==> {
            &&& !tx_overdue(d, start, polls[j].now_ms)
            &&& !polls[j].shows(IrqKind::TxDone)
            &&& !polls[j].shows(IrqKind::Timeout)
        }
}

/// Poll `i`, in time, is the first to tell anything, and tells that the packet
/// is out.
pub open spec fn sent_at(d: Sx1262Driver, start: u32, polls: Seq<TxPoll>, i: int) -> bool {
    &&& 0 <= i < polls.len()
    &&& still_out(d, start, polls, i)
    &&& !tx_overdue(d, start, polls[i].now_ms)
    &&& polls[i].shows(IrqKind::TxDone)
}

/// Poll `i` is the first to tell anything, and it is either too late or tells
/// of a timeout alone.
pub open spec fn given_up_at(d: Sx1262Driver, start: u32, polls: Seq<TxPoll>, i: int) -> bool {
    &&& 0 <= i < polls.len()
    &&& still_out(d, start, polls, i)
    &&& tx_overdue(d, start, polls[i].now_ms) || (polls[i].shows(IrqKind::Timeout)
        && !polls[i].shows(IrqKind::TxDone))
}

/// The end of a transmission: interrupts are cleared, and reception is armed
/// again, or cannot be.
pub open spec fn send_outcome(d: Sx1262Driver, rearmed: bool, now_ms: u32) -> RadioDo {
    radio_ran(radio_cleared(d).0, rearmed, now_ms).1
}

/// Where the driver is after any polls.
proof fn polls_decide(d: Sx1262Driver, len: u8, start: u32, polls: Seq<TxPoll>)
    requires
        d.stage == (RadioStage::SendWait { len, start }),
    ensures
        ({
            let after = send_polls(d, polls);
            &&& after == (Sx1262Driver { stage: after.stage, ..d })
            &&& after.stage == (RadioStage::SendWait { len, start }) && still_out(
                d,
                start,
                polls,
                polls.len() as int,
            ) || after.stage == (RadioStage::SendClear { len, ok: true }) && (exists|i: int|
                sent_at(d, start, polls, i)) || after.stage == (RadioStage::SendClear {
                len,
                ok: false,
            }) && (exists|i: int| given_up_at(d, start, polls, i))
        }),
    decreases polls.len(),
{
    if polls.len() > 0 {
        let init = polls.drop_last();
        let n = init.len() as int;
        polls_decide(d, len, start, init);
        let before = send_polls(d, init);
        assert(polls[n] == polls.last());
        assert forall|m: int| 0 <= m <= n && #[trigger] still_out(d, start, init, m) implies still_out(
            d,
            start,
            polls,
            m,
        ) by {
            assert forall|j: int| #![trigger polls[j]] 0 <= j < m implies {
                &&& !tx_overdue(d, start, polls[j].now_ms)
                &&& !polls[j].shows(IrqKind::TxDone)
                &&& !polls[j].shows(IrqKind::Timeout)
            } by {
                assert(init[j] == polls[j]);
            }
        }
        if before.stage is SendWait {
            assert(still_out(d, start, polls, n));
            if tx_overdue(d, start, polls[n].now_ms) {
                assert(given_up_at(d, start, polls, n));
            } else if polls[n].shows(IrqKind::TxDone) {
                assert(sent_at(d, start, polls, n));
            } else if polls[n].shows(IrqKind::Timeout) {
                assert(given_up_at(d, start, polls, n));
            } else {
                assert(still_out(d, start, polls, n + 1));
            }
        } else if before.stage->SendClear_ok {
            let i = choose|i: int| sent_at(d, start, init, i);
            assert(still_out(d, start, init, i));
            assert(init[i] == polls[i]);
            assert(sent_at(d, start, polls, i));
        } else {
            let i = choose|i: int| given_up_at(d, start, init, i);
            assert(still_out(d, start, init, i));
            assert(init[i] == polls[i]);
            assert(given_up_at(d, start, polls, i));
        }
    }
}

/// Only one of the ways for a transmission to stand can be.
proof fn one_way_only(d: Sx1262Driver, start: u32, polls: Seq<TxPoll>)
    ensures
        forall|i: int, k: int|
            #![trigger sent_at(d, start, polls, i), given_up_at(d, start, polls, k)]
            !(sent_at(d, start, polls, i) && given_up_at(d, start, polls, k)),
        still_out(d, start, polls, polls.len() as int) ==> forall|i: int|
            !(#[trigger] sent_at(d, start, polls, i)),
        still_out(d, start, polls, polls.len() as int) ==> forall|i: int|
            !(#[trigger] given_up_at(d, start, polls, i)),
{
    assert forall|i: int, k: int|
        #![trigger sent_at(d, start, polls, i), given_up_at(d, start, polls, k)]
        !(sent_at(d, start, polls, i) && given_up_at(d, start, polls, k)) by {
        if sent_at(d, start, polls, i) && given_up_at(d, start, polls, k) {
            if i < k {
                assert(!polls[i].shows(IrqKind::TxDone));
            } else if k < i {
                assert(!tx_overdue(d, start, polls[k].now_ms));
            }
        }
    }
}

/// A transmission that the radio took at `start`, over any polls: it succeeds
/// exactly where a poll shows that the packet is out, before the deadline and
/// before any poll shows a timeout alone; it fails with a timeout exactly where
/// one of these comes first; and until then it goes on. How it ends is told
/// once reception was armed again, whether or not that went well.
pub proof fn transmission_succeeds_where_a_poll_shows_it(
    d: Sx1262Driver,
    len: u8,
    start: u32,
    polls: Seq<TxPoll>,
    rearmed: bool,
    now_ms: u32,
)
    requires
        d.stage == (RadioStage::SendStart { len }),
    ensures
        ({
            let taken = radio_ran(d, true, start).0;
            let after = send_polls(taken, polls);
            let outcome = send_outcome(after, rearmed, now_ms);
            let sent = exists|i: int| sent_at(taken, start, polls, i);
            let given_up = exists|i: int| given_up_at(taken, start, polls, i);
            &&& sent <==> after.stage is SendClear && outcome == RadioDo::Sent
            &&& given_up <==> after.stage is SendClear && outcome == RadioDo::Failed(
                Sx1262Error::Timeout,
            )
            &&& !sent && !given_up <==> after.stage is SendWait
        }),
        radio_ran(d, false, start).1 == RadioDo::Failed(Sx1262Error::Radio),
{
    let taken = radio_ran(d, true, start).0;
    polls_decide(taken, len, start, polls);
    one_way_only(taken, start, polls);
}

} // verus!
