//! Time and chance from the cycle counter.

use vstd::prelude::*;

verus! {

/// System clock frequency in Hz (default MSI = 4 MHz).
pub const SYSCLK_HZ: u32 = 4000000;

/// System clock frequency in Hz with the charger board's clock raised to
/// 16 MHz.
pub const BOARD_SYSCLK_HZ: u32 = 16000000;

/// A millisecond count kept from a cycle counter of 32 bits that rolls over.
pub struct Clock {
    ticks_per_ms: u32,
    prev_cycles: u32,
    accum_ms: u32,
    leftover: u32,
}

/// A clock, as the contracts speak of it.
pub struct ClockView {
    /// Cycles per millisecond.
    pub ticks_per_ms: u32,
    /// The cycle counter when it was last read.
    pub prev_cycles: u32,
    /// Milliseconds since boot.
    pub ms: u32,
    /// Cycles that do not make a millisecond yet.
    pub leftover: u32,
}

/// Cycles from one reading of the counter to the next, less than one roll-over
/// apart.
pub open spec fn cycles_between(prev: u32, current: u32) -> int {
    (current - prev) % 0x1_0000_0000
}

/// The clock after the cycle counter is read as `current`. The cycles to
/// account for are counted in 32 bits and stop at their end.
pub open spec fn clock_after(c: ClockView, current: u32) -> ClockView {
    let all = c.leftover + cycles_between(c.prev_cycles, current);
    let total = if all <= u32::MAX {
        all
    } else {
        u32::MAX as int
    };
    ClockView {
        prev_cycles: current,
        ms: ((c.ms + total / c.ticks_per_ms as int) % 0x1_0000_0000) as u32,
        leftover: (total % c.ticks_per_ms as int) as u32,
        ..c
    }
}

impl Clock {
    /// Every clock that `new` and [`millis`] give.
    pub closed spec fn wf(self) -> bool {
        self.ticks_per_ms > 0 && self.leftover < self.ticks_per_ms
    }

    /// The clock as the contracts speak of it.
    pub closed spec fn view(self) -> ClockView {
        ClockView {
            ticks_per_ms: self.ticks_per_ms,
            prev_cycles: self.prev_cycles,
            ms: self.accum_ms,
            leftover: self.leftover,
        }
    }

    /// A clock that starts at zero with the cycle counter, which runs at
    /// `sysclk_hz`.
    pub fn new(sysclk_hz: u32) -> (r: Clock)
        requires
            sysclk_hz >= 1000,
        ensures
            r.wf(),
            r@ == (ClockView {
                ticks_per_ms: (sysclk_hz / 1000) as u32,
                prev_cycles: 0,
                ms: 0,
                leftover: 0,
            }),
    {
        Clock { ticks_per_ms: sysclk_hz / 1000, prev_cycles: 0, accum_ms: 0, leftover: 0 }
    }

    /// Less than a millisecond is left over.
    pub proof fn leftover_is_short(self)
        requires
            self.wf(),
        ensures
            self@.leftover < self@.ticks_per_ms,
    {
    }
}

/// Milliseconds since boot, given the cycle counter.
///
/// Uses wrapping subtraction to handle the counter rollover at ~1073 s
/// @ 4 MHz, producing a monotonically-increasing u32 that wraps only at
/// ~49 days.
pub fn millis(clock: &mut Clock, cycle_count: u32) -> (r: u32)
    requires
        old(clock).wf(),
    ensures
        final(clock).wf(),
        final(clock)@ == clock_after(old(clock)@, cycle_count),
        r == final(clock)@.ms,
{
    let elapsed: u32 = cycle_count.wrapping_sub(clock.prev_cycles);
    clock.prev_cycles = cycle_count;
    let total: u32 = clock.leftover.saturating_add(elapsed);
    let new_ms: u32 = total / clock.ticks_per_ms;
    clock.leftover = total % clock.ticks_per_ms;
    clock.accum_ms = clock.accum_ms.wrapping_add(new_ms);
    clock.accum_ms
}

/// No time is lost between readings: milliseconds and left-over cycles together
/// account for every cycle, as long as the counter is read before it has almost
/// gone round.
pub proof fn every_cycle_counts(c: ClockView, current: u32)
    requires
        c.ticks_per_ms > 0,
        c.leftover + cycles_between(c.prev_cycles, current) <= u32::MAX,
    ensures
        ({
            let n = clock_after(c, current);
            let passed = (n.ms - c.ms) % 0x1_0000_0000;
            &&& passed * c.ticks_per_ms + n.leftover == c.leftover + cycles_between(
                c.prev_cycles,
                current,
            )
            &&& n.leftover < c.ticks_per_ms
        }),
{
    let total = c.leftover + cycles_between(c.prev_cycles, current);
    let t = c.ticks_per_ms as int;
    vstd::arithmetic::div_mod::lemma_fundamental_div_mod(total, t);
    vstd::arithmetic::div_mod::lemma_mod_bound(total, t);
    assert(0 <= total / t <= total) by (nonlinear_arith)
        requires
            0 <= total,
            t >= 1,
    ;
    let n = clock_after(c, current);
    assert((n.ms - c.ms) % 0x1_0000_0000 == total / t);
    assert((total / t) * t == t * (total / t)) by (nonlinear_arith);
}

/// A xorshift32 generator.
pub struct Rng {
    state: u32,
}

/// One step of xorshift32.
pub open spec fn xorshift32(s: u32) -> u32 {
    let a = s ^ (s << 13);
    let b = a ^ (a >> 17);
    b ^ (b << 5)
}

/// Where a generator starts from: its state, else the cycle counter, else one.
pub open spec fn seed(state: u32, cycle_count: u32) -> u32 {
    if state != 0 {
        state
    } else if cycle_count != 0 {
        cycle_count
    } else {
        1
    }
}

/// The magnitude of `s` read as a signed number.
pub open spec fn signed_magnitude(s: u32) -> int {
    if s < 0x8000_0000 {
        s as int
    } else {
        0x1_0000_0000 - s
    }
}

/// The number that state `s` gives in `[min, max)`.
pub open spec fn in_span(s: u32, min: i32, max: i32) -> int {
    if max <= min {
        min as int
    } else {
        min + signed_magnitude(s) % (max - min)
    }
}

impl Rng {
    /// The generator's state; zero before its first use.
    pub closed spec fn view(self) -> u32 {
        self.state
    }

    /// A generator that seeds itself at its first use.
    pub fn new() -> (r: Rng)
        ensures
            r@ == 0,
    {
        Rng { state: 0 }
    }
}

/// Random number in `[min, max)`; `min` where that is empty.
///
/// Uses a simple xorshift32 PRNG seeded from the cycle counter.
pub fn random(rng: &mut Rng, cycle_count: u32, min: i32, max: i32) -> (r: i32)
    ensures
        final(rng)@ == xorshift32(seed(old(rng)@, cycle_count)),
        r == in_span(final(rng)@, min, max),
        min < max ==> min <= r < max,
        max <= min ==> r == min,
{
    let mut s: u32 = rng.state;
    if s == 0 {
        s = cycle_count;
        if s == 0 {
            s = 1;
        }
    }
    // xorshift32
    s = s ^ (s << 13);
    s = s ^ (s >> 17);
    s = s ^ (s << 5);
    rng.state = s;
    if max <= min {
        return min;
    }
    // Reduced in unsigned space: the magnitude of the most negative number
    // does not fit a signed one.
    let span: i64 = max as i64 - min as i64;
    let mag: i64 = if s < 0x8000_0000 {
        s as i64
    } else {
        0x1_0000_0000 - s as i64
    };
    let below: i64 = mag % span;
    proof {
        vstd::arithmetic::div_mod::lemma_mod_bound(mag as int, span as int);
    }
    (min as i64 + below) as i32
}

/// Once seeded, the generator never falls back to zero, where it would stay.
pub proof fn generator_never_stalls(state: u32, cycle_count: u32)
    ensures
        seed(state, cycle_count) != 0,
        xorshift32(seed(state, cycle_count)) != 0,
{
    let s = seed(state, cycle_count);
    assert(s != 0 ==> xorshift32(s) != 0) by (bit_vector);
}

} // verus!
