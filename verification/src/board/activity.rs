//! Radio activity flags, set by the radio driver from wherever a packet
//! is actually sent or received, consumed by the LEDs.

use vstd::prelude::*;

verus! {

/// What the radio has done since the LEDs last looked.
pub struct Activity {
    pub tx: bool,
    pub rx: bool,
}

impl Activity {
    /// No activity.
    pub fn new() -> (r: Activity)
        ensures
            !r.tx,
            !r.rx,
    {
        Activity { tx: false, rx: false }
    }
}

/// A packet was sent.
pub fn note_tx(a: &mut Activity)
    ensures
        *final(a) == (Activity { tx: true, ..*old(a) }),
{
    a.tx = true;
}

/// A packet was received.
pub fn note_rx(a: &mut Activity)
    ensures
        *final(a) == (Activity { rx: true, ..*old(a) }),
{
    a.rx = true;
}

/// Whether a packet was sent since the last call.
pub fn take_tx(a: &mut Activity) -> (r: bool)
    ensures
        r == old(a).tx,
        *final(a) == (Activity { tx: false, ..*old(a) }),
{
    let r: bool = a.tx;
    a.tx = false;
    r
}

/// Whether a packet was received since the last call.
pub fn take_rx(a: &mut Activity) -> (r: bool)
    ensures
        r == old(a).rx,
        *final(a) == (Activity { rx: false, ..*old(a) }),
{
    let r: bool = a.rx;
    a.rx = false;
    r
}

} // verus!
