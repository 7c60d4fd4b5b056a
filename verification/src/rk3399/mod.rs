//! Board support for the Firefly RK3399.
use vstd::prelude::*;

pub mod map;
pub mod gpio;
pub mod timer;

verus! {

/// The board's basic timer: timer 0.
pub fn basic_timer() -> (r: timer::TimerInner)
    ensures
        r.base == map::TIMER0_5_BASE,
        r.intr == timer::TIMER0_INTR,
{
    timer::TimerInner::new(0)
}

/// The timer used for testing: timer 0.
pub fn test() -> (r: timer::TimerInner)
    ensures
        r.base == map::TIMER0_5_BASE,
        r.intr == timer::TIMER0_INTR,
{
    timer::TimerInner::new(0)
}

} // verus!
