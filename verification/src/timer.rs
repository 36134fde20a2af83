//! Deadlines on a millisecond clock that wraps.

use vstd::prelude::*;

verus! {

/// Whether `now` is at or past `deadline`, on a clock of 32 bits that wraps:
/// the half of the clock's range that starts at `deadline` is past it.
pub open spec fn is_due(now: u32, deadline: u32) -> bool {
    (now - deadline) % 0x1_0000_0000 < 0x8000_0000
}

/// `ms` after `now`.
pub open spec fn later(now: u32, ms: u32) -> u32 {
    ((now + ms) % 0x1_0000_0000) as u32
}

/// Whether `now` is at or past `deadline`.
pub fn due(now: u32, deadline: u32) -> (r: bool)
    ensures
        r == is_due(now, deadline),
{
    now.wrapping_sub(deadline) < 0x8000_0000
}

/// `ms` after `now`.
pub fn after(now: u32, ms: u32) -> (r: u32)
    ensures
        r == later(now, ms),
{
    now.wrapping_add(ms)
}

/// A deadline less than half the clock's range ahead is not due before it has
/// come, and is due from then on for half the clock's range.
pub proof fn deadline_comes_once(now: u32, ms: u32, elapsed: u32)
    requires
        ms < 0x8000_0000,
        elapsed < 0x8000_0000,
    ensures
        is_due(later(now, elapsed), later(now, ms)) == (elapsed >= ms),
{
}

} // verus!
