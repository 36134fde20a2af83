//! Radio events recorded by the driver, drained by the logger.
//!
//! The queue depth covers a burst of mesh forwards between two logger polls;
//! the main loop drains every iteration, so overflow (oldest event dropped) is
//! only a theoretical concern.

use vstd::prelude::*;

verus! {

/// Something that the radio did.
#[derive(Clone, Copy)]
pub enum RadioEvent {
    Tx { len: u8, ok: bool },
    Rx {
        len: u8,
        /// Packet RSSI (dBm).
        rssi_dbm: i16,
        /// Packet SNR in quarter dB (raw SX126x units).
        snr_qdb: i16,
        /// RSSI of the despread LoRa signal (dBm).
        signal_rssi_dbm: i16,
    },
}

/// Events that the queue holds at most.
pub const QUEUE_LEN: usize = 8;

/// A ring of radio events, oldest first.
pub struct Queue {
    buf: [Option<RadioEvent>; QUEUE_LEN],
    head: usize,
    len: usize,
}

/// The queue after one more event: full, it drops the oldest so that recent
/// events survive.
pub open spec fn pushed(q: Seq<RadioEvent>, ev: RadioEvent) -> Seq<RadioEvent> {
    if q.len() < QUEUE_LEN {
        q.push(ev)
    } else {
        q.skip(1).push(ev)
    }
}

impl Queue {
    /// Every queue that `new`, `push` and `pop` give.
    pub closed spec fn wf(self) -> bool {
        &&& self.head < QUEUE_LEN
        &&& self.len <= QUEUE_LEN
        &&& forall|i: int| 0 <= i < self.len ==> (#[trigger] self.slot(i)) is Some
    }

    /// The `i`th entry from the head.
    closed spec fn slot(self, i: int) -> Option<RadioEvent> {
        self.buf@[(self.head + i) % QUEUE_LEN as int]
    }

    /// The events, oldest first.
    pub closed spec fn view(self) -> Seq<RadioEvent> {
        Seq::new(self.len as nat, |i: int| self.slot(i)->0)
    }

    /// An empty queue.
    pub fn new() -> (r: Queue)
        ensures
            r.wf(),
            r@ == Seq::<RadioEvent>::empty(),
    {
        Queue { buf: [None; QUEUE_LEN], head: 0, len: 0 }
    }

    /// A queue never holds more than its depth.
    pub proof fn never_overfull(self)
        requires
            self.wf(),
        ensures
            self@.len() <= QUEUE_LEN,
    {
    }
}

/// Record an event.
pub fn push(q: &mut Queue, ev: RadioEvent)
    requires
        old(q).wf(),
    ensures
        final(q).wf(),
        final(q)@ == pushed(old(q)@, ev),
{
    let ghost drop = if q.len == QUEUE_LEN {
        1int
    } else {
        0int
    };
    if q.len == QUEUE_LEN {
        // Full: drop the oldest so recent events survive.
        q.head = (q.head + 1) % QUEUE_LEN;
        q.len = q.len - 1;
    }
    let tail: usize = (q.head + q.len) % QUEUE_LEN;
    q.buf[tail] = Some(ev);
    q.len = q.len + 1;
    assert forall|i: int| 0 <= i < q.len implies (#[trigger] q.slot(i)) is Some && (i < q.len - 1
        ==> q.slot(i) == old(q).slot(i + drop)) by {
        assert(i < q.len - 1 ==> old(q).slot(i + drop) is Some);
    }
    assert(q@ =~= pushed(old(q)@, ev));
}

/// Take the oldest event.
pub fn pop(q: &mut Queue) -> (r: Option<RadioEvent>)
    requires
        old(q).wf(),
    ensures
        final(q).wf(),
        old(q)@.len() == 0 ==> r is None && final(q)@ == old(q)@,
        old(q)@.len() > 0 ==> r == Some(old(q)@[0]) && final(q)@ == old(q)@.skip(1),
{
    if q.len == 0 {
        return None;
    }
    let head: usize = q.head;
    let ev: Option<RadioEvent> = q.buf[head];
    q.buf[head] = None;
    q.head = (head + 1) % QUEUE_LEN;
    q.len = q.len - 1;
    assert(ev == old(q).slot(0));
    assert forall|i: int| 0 <= i < q.len implies (#[trigger] q.slot(i)) is Some && q.slot(i)
        == old(q).slot(i + 1) by {
        assert(old(q).slot(i + 1) is Some);
    }
    assert(q@ =~= old(q)@.skip(1));
    ev
}

/// Record a transmission.
pub fn note_tx(q: &mut Queue, len: u8, ok: bool)
    requires
        old(q).wf(),
    ensures
        final(q).wf(),
        final(q)@ == pushed(old(q)@, RadioEvent::Tx { len, ok }),
{
    push(q, RadioEvent::Tx { len, ok });
}

/// Record a reception.
pub fn note_rx(q: &mut Queue, len: u8, rssi_dbm: i16, snr_qdb: i16, signal_rssi_dbm: i16)
    requires
        old(q).wf(),
    ensures
        final(q).wf(),
        final(q)@ == pushed(
            old(q)@,
            RadioEvent::Rx { len, rssi_dbm, snr_qdb, signal_rssi_dbm },
        ),
{
    push(q, RadioEvent::Rx { len, rssi_dbm, snr_qdb, signal_rssi_dbm });
}

/// The queue after a run of events.
pub open spec fn pushed_all(q: Seq<RadioEvent>, evs: Seq<RadioEvent>) -> Seq<RadioEvent>
    decreases evs.len(),
{
    if evs.len() == 0 {
        q
    } else {
        pushed(pushed_all(q, evs.drop_last()), evs.last())
    }
}

/// However many events are recorded, the queue holds the most recent ones, in
/// the order in which they came, and all of them while they fit.
pub proof fn recent_events_survive(q: Seq<RadioEvent>, evs: Seq<RadioEvent>)
    requires
        q.len() <= QUEUE_LEN,
    ensures
        ({
            let all = q + evs;
            pushed_all(q, evs) == if all.len() <= QUEUE_LEN {
                all
            } else {
                all.skip(all.len() - QUEUE_LEN)
            }
        }),
    decreases evs.len(),
{
    let all = q + evs;
    if evs.len() == 0 {
        assert(all =~= q);
        assert(all.skip(0) =~= q);
    } else {
        recent_events_survive(q, evs.drop_last());
        assert(all =~= (q + evs.drop_last()).push(evs.last()));
        if all.len() <= QUEUE_LEN {
            assert(pushed_all(q, evs) =~= all);
        } else {
            assert(pushed_all(q, evs) =~= all.skip(all.len() - QUEUE_LEN));
        }
    }
}

} // verus!
