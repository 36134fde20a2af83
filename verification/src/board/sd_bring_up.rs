//! Whole runs of the SD card's initialisation: the kind of card that is found,
//! from what the card answered.

use vstd::prelude::*;
use super::sd::{byte_of, sd_event, Job, SdDo, SdDone, SdError, SdEvent, SdKind, SdState, SdView};

verus! {

/// An initialisation so far.
pub struct BringUp {
    pub card: SdView,
    /// What the driver asked for last.
    pub asked: SdDo,
    /// The card's response to CMD8, the voltage check.
    pub check: Option<u8>,
    /// The first byte of the card's OCR.
    pub ocr: Option<u8>,
}

/// An initialisation that has just begun, with a card in the socket.
pub open spec fn bring_up_begun() -> BringUp {
    BringUp {
        card: SdView { kind: None, state: SdState::Slow },
        asked: SdDo::Speed { fast: false },
        check: None,
        ocr: None,
    }
}

/// One event of an initialisation: what the driver makes of it, and what of the
/// card's answers it held.
pub open spec fn bring_up_event(r: BringUp, ev: SdEvent, now_ms: u32) -> BringUp {
    let after = sd_event(r.card, ev, now_ms);
    BringUp {
        card: after.0,
        asked: after.1,
        check: match r.card.state {
            SdState::R1 { job: Job::Check, .. } => if !(ev is Failed) && byte_of(ev) < 0x80 {
                Some(byte_of(ev))
            } else {
                r.check
            },
            _ => r.check,
        },
        ocr: match r.card.state {
            SdState::Data { job: Job::OcrByte { seen: 0, .. } } => if !(ev is Failed) {
                Some(byte_of(ev))
            } else {
                r.ocr
            },
            _ => r.ocr,
        },
    }
}

/// An initialisation over these events, each with its time; it stops when the
/// driver is done.
pub open spec fn bring_up(events: Seq<(SdEvent, u32)>) -> BringUp
    decreases events.len(),
{
    if events.len() == 0 {
        bring_up_begun()
    } else {
        let before = bring_up(events.drop_last());
        if before.card.state is Idle {
            before
        } else {
            bring_up_event(before, events.last().0, events.last().1)
        }
    }
}

/// A card that answers CMD8 is of the second version.
pub open spec fn is_v2(r: BringUp) -> bool {
    r.check == Some(0x01u8)
}

/// The kind that the card's answers fix: a first-version card rejects CMD8; a
/// second-version one tells in its OCR whether it is addressed by blocks.
pub open spec fn answered_kind(r: BringUp) -> SdKind {
    if !is_v2(r) {
        SdKind::Sd1
    } else if r.ocr->0 & 0x40 != 0 {
        SdKind::Sdhc
    } else {
        SdKind::Sd2
    }
}

/// The card has answered all that its kind depends on.
pub open spec fn has_answered(r: BringUp) -> bool {
    r.check is Some && (is_v2(r) ==> r.ocr is Some)
}

/// What is known of the answers at a job.
pub open spec fn job_fits(r: BringUp, job: Job) -> bool {
    match job {
        Job::Reset { .. } | Job::Check => true,
        Job::CheckByte { .. } | Job::Ocr => is_v2(r),
        Job::App { v2, .. } | Job::Ready { v2, .. } => r.check is Some && v2 == is_v2(r),
        Job::OcrByte { seen, first } => is_v2(r) && (seen > 0 ==> r.ocr == Some(first)),
        Job::BlockLen { v2 } => has_answered(r) && v2 == is_v2(r) && answered_kind(r)
            != SdKind::Sdhc,
        _ => false,
    }
}

/// What is known of the answers at a result.
pub open spec fn result_fits(r: BringUp, result: Result<SdDone, SdError>) -> bool {
    result matches Ok(done) ==> has_answered(r) && done == SdDone::Kind(answered_kind(r))
}

/// What holds throughout an initialisation.
pub open spec fn bring_up_fits(r: BringUp) -> bool {
    match r.card.state {
        SdState::Idle => {
            &&& r.asked matches SdDo::Done(result) && result_fits(r, result)
            &&& r.card.kind == match r.asked {
                SdDo::Done(Ok(SdDone::Kind(kind))) => Some(kind),
                _ => None,
            }
        },
        SdState::Slow | SdState::Deselect | SdState::Wake { .. } => r.card.kind is None,
        SdState::Select { job } | SdState::Frame { job } | SdState::R1 { job, .. }
        | SdState::Data { job } => r.card.kind is None && job_fits(r, job),
        SdState::Release { result } | SdState::Trail { result } => r.card.kind is None
            && result_fits(r, result),
        SdState::Fast { kind } => r.card.kind is None && has_answered(r) && kind == answered_kind(
            r,
        ),
    }
}

/// One event leaves it so.
#[verifier::rlimit(60)]
proof fn event_fits(r: BringUp, ev: SdEvent, now_ms: u32)
    requires
        bring_up_fits(r),
        !(r.card.state is Idle),
    ensures
        bring_up_fits(bring_up_event(r, ev, now_ms)),
{
}

/// Any initialisation, whatever the card answers and when: while it lasts there
/// is no kind; if it ends well, it gives the kind that the answers to CMD8 and
/// to CMD58 fix; and if it ends otherwise, it ends with an error and there is
/// no kind.
pub proof fn bring_up_gives_the_kind_that_was_answered(events: Seq<(SdEvent, u32)>)
    ensures
        ({
            let r = bring_up(events);
            &&& !(r.card.state is Idle) ==> r.card.kind is None
            &&& r.card.state is Idle ==> match r.asked {
                SdDo::Done(Ok(done)) => {
                    &&& has_answered(r)
                    &&& done == SdDone::Kind(answered_kind(r))
                    &&& r.card.kind == Some(answered_kind(r))
                },
                SdDo::Done(Err(_)) => r.card.kind is None,
                _ => false,
            }
        }),
{
    bring_up_keeps_fitting(events);
}

/// The invariant over a whole run.
proof fn bring_up_keeps_fitting(events: Seq<(SdEvent, u32)>)
    ensures
        bring_up_fits(bring_up(events)),
    decreases events.len(),
{
    if events.len() > 0 {
        bring_up_keeps_fitting(events.drop_last());
        let before = bring_up(events.drop_last());
        if !(before.card.state is Idle) {
            event_fits(before, events.last().0, events.last().1);
        }
    }
}

} // verus!
