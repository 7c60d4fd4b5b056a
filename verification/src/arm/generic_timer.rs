//! The ARMv8 generic timer, as the kernel's system timer.
use vstd::prelude::*;
use crate::drivers::timer::system_timer;

verus! {

/// Nanoseconds per second.
pub const NS_PER_S: u64 = 1_000_000_000;

/// What programming the next timer interrupt comes to.
#[derive(Clone, Copy, Debug, PartialEq, Eq, Structural)]
pub enum NextTick {
    /// A zero duration: nothing to program.
    Skip,
    /// The duration's tick count does not fit 64 bits: nothing is
    /// programmed (a warning is due).
    TooLong,
    /// Write `tval` ticks to `CNTP_TVAL_EL0`, then enable the timer with its
    /// interrupt unmasked.
    Program { tval: u64 },
}

/// The next tick for a duration of `nanos` nanoseconds at counter frequency
/// `frequency`: the duration, cut to 64 bits, times the frequency, divided
/// by 10^9 — unless the duration is zero or the product overflows.
pub open spec fn next_tick_spec(nanos: u128, frequency: u64) -> NextTick {
    if nanos == 0 {
        NextTick::Skip
    } else if frequency * (nanos as u64) > u64::MAX {
        NextTick::TooLong
    } else {
        NextTick::Program { tval: ((frequency * (nanos as u64)) / (NS_PER_S as int)) as u64 }
    }
}

/// Nanoseconds for `count` ticks at `frequency` Hz, cut to 64 bits.
pub open spec fn cycle_nanos(count: u64, frequency: u64) -> u64 {
    ((count * NS_PER_S) / (frequency as int)) as u64
}

/// The generic timer driver: the period of the periodic tick, in
/// nanoseconds.
pub struct GenericTimer {
    pub interval_nanos: u128,
}

impl GenericTimer {
    /// The timer with no period set.
    pub fn new() -> (r: GenericTimer)
        ensures
            r.interval_nanos == 0,
    {
        GenericTimer { interval_nanos: 0 }
    }

    /// What to program for the next interrupt, `duration_nanos` from now.
    pub fn set_next(&self, duration_nanos: u128, frequency: u64) -> (r: NextTick)
        ensures
            r == next_tick_spec(duration_nanos, frequency),
    {
        if duration_nanos == 0 {
            return NextTick::Skip;
        }
        let nanos = duration_nanos as u64;
        match frequency.checked_mul(nanos) {
            None => NextTick::TooLong,
            Some(x) => NextTick::Program { tval: x / NS_PER_S },
        }
    }

    /// Make the tick periodic with period `duration_nanos`, and program the
    /// first one.
    pub fn set_periodic(&mut self, duration_nanos: u128, frequency: u64) -> (r: NextTick)
        ensures
            final(self).interval_nanos == duration_nanos,
            r == next_tick_spec(duration_nanos, frequency),
    {
        self.interval_nanos = duration_nanos;
        self.set_next(duration_nanos, frequency)
    }

    /// On a timer interrupt, program the next one a period later (the
    /// interrupt status is acknowledged and the installed handler run by the
    /// caller).
    pub fn generic_timer_handler(&self, frequency: u64) -> (r: NextTick)
        ensures
            r == next_tick_spec(self.interval_nanos, frequency),
    {
        self.set_next(self.interval_nanos, frequency)
    }
}

impl system_timer::Interface for GenericTimer {
    /// Nanoseconds since the counter started: `count * 10^9 / frequency`,
    /// computed in 128 bits and cut to 64.
    fn get_cycle(&self, count: u64, frequency: u64) -> (r: u64)
        ensures
            r == cycle_nanos(count, frequency),
    {
        let current_count: u128 = count as u128 * NS_PER_S as u128;
        let frq: u128 = frequency as u128;
        (current_count / frq) as u64
    }
}

/// The time the system timer reports never runs backwards while the counter
/// counts up without wrapping and its frequency stays.
pub proof fn lemma_cycle_monotonic(c1: u64, c2: u64, frequency: u64)
    requires
        frequency > 0,
        c1 <= c2,
    ensures
        (c1 * NS_PER_S) / (frequency as int) <= (c2 * NS_PER_S) / (frequency as int),
{
    assert(c1 * NS_PER_S <= c2 * NS_PER_S) by (nonlinear_arith)
        requires
            c1 <= c2,
    ;
    vstd::arithmetic::div_mod::lemma_div_is_ordered(c1 * NS_PER_S, c2 * NS_PER_S, frequency as int);
}

/// A programmed compare value is the duration's tick count rounded down:
/// `tval * 10^9 <= frequency * nanos < (tval + 1) * 10^9`.
pub proof fn lemma_tick_rounds_down(nanos: u128, frequency: u64)
    requires
        next_tick_spec(nanos, frequency) is Program,
    ensures
        ({
            let tval = next_tick_spec(nanos, frequency)->tval;
            &&& tval * NS_PER_S <= frequency * (nanos as u64)
            &&& frequency * (nanos as u64) < (tval + 1) * NS_PER_S
        }),
{
    let x = frequency * (nanos as u64);
    let q = x / (NS_PER_S as int);
    vstd::arithmetic::div_mod::lemma_fundamental_div_mod(x, NS_PER_S as int);
    assert(0 <= x % (NS_PER_S as int) < NS_PER_S);
    assert(q * NS_PER_S <= x < (q + 1) * NS_PER_S) by (nonlinear_arith)
        requires
            x == (NS_PER_S as int) * q + x % (NS_PER_S as int),
            0 <= x % (NS_PER_S as int) < NS_PER_S,
    ;
}

/// The uptime the system timer reports is the exact number of whole
/// nanoseconds in `count` ticks at `frequency` Hz, whenever that number fits
/// in 64 bits: `r * frequency <= count * 10^9 < (r + 1) * frequency`, the
/// product taken over the integers.
pub proof fn lemma_cycle_exact(count: u64, frequency: u64)
    requires
        frequency > 0,
        count * 1_000_000_000 < (u64::MAX + 1) * frequency,
    ensures
        cycle_nanos(count, frequency) * frequency <= count * 1_000_000_000,
        count * 1_000_000_000 < (cycle_nanos(count, frequency) + 1) * frequency,
{
    let x = count * 1_000_000_000int;
    let f = frequency as int;
    let q = x / f;
    vstd::arithmetic::div_mod::lemma_fundamental_div_mod(x, f);
    assert(0 <= x % f < f);
    assert(q * f <= x < (q + 1) * f) by (nonlinear_arith)
        requires
            x == f * q + x % f,
            0 <= x % f < f,
    ;
    assert(0 <= q <= u64::MAX) by (nonlinear_arith)
        requires
            x >= 0,
            f > 0,
            q * f <= x,
            x < (u64::MAX + 1) * f,
            x < (q + 1) * f,
    ;
    assert(cycle_nanos(count, frequency) == q);
}

/// The reported uptime never runs backwards: for a fixed frequency, a later
/// counter value gives at least the same uptime, as long as the later one
/// fits in 64 bits.
pub proof fn lemma_cycle_nanos_monotonic(c1: u64, c2: u64, frequency: u64)
    requires
        frequency > 0,
        c1 <= c2,
        c2 * 1_000_000_000 < (u64::MAX + 1) * frequency,
    ensures
        cycle_nanos(c1, frequency) <= cycle_nanos(c2, frequency),
{
    assert(c1 * 1_000_000_000 <= c2 * 1_000_000_000) by (nonlinear_arith)
        requires
            c1 <= c2,
    ;
    lemma_cycle_exact(c1, frequency);
    lemma_cycle_exact(c2, frequency);
    let r1 = cycle_nanos(c1, frequency) as int;
    let r2 = cycle_nanos(c2, frequency) as int;
    let f = frequency as int;
    assert(r1 <= r2) by (nonlinear_arith)
        requires
            f > 0,
            r1 * f <= c1 * 1_000_000_000,
            c1 * 1_000_000_000 <= c2 * 1_000_000_000,
            c2 * 1_000_000_000 < (r2 + 1) * f,
    ;
}

/// For a non-zero duration, nothing is programmed exactly when the tick
/// count `frequency * nanos` (the duration cut to 64 bits) does not fit in
/// 64 bits; otherwise the compare value is that count divided by 10^9,
/// rounded down: `tval * 10^9 <= frequency * nanos < (tval + 1) * 10^9`.
pub proof fn lemma_next_tick_exact(nanos: u128, frequency: u64)
    requires
        nanos != 0,
    ensures
        (next_tick_spec(nanos, frequency) == NextTick::TooLong) == (frequency * (nanos as u64) > u64::MAX),
        frequency * (nanos as u64) <= u64::MAX ==> ({
            &&& next_tick_spec(nanos, frequency) is Program
            &&& next_tick_spec(nanos, frequency)->tval * 1_000_000_000 <= frequency * (nanos as u64)
            &&& frequency * (nanos as u64) < (next_tick_spec(nanos, frequency)->tval + 1) * 1_000_000_000
        }),
{
    if frequency * (nanos as u64) <= u64::MAX {
        assert(next_tick_spec(nanos, frequency) is Program);
        lemma_tick_rounds_down(nanos, frequency);
    }
}

} // verus!
