//! Board support for the Raspberry Pi 3.
use vstd::prelude::*;
use crate::arm::generic_timer::GenericTimer;

verus! {

/// Interrupt line of the generic timer.
pub const GENERIC_TIMER_INTR: usize = 30;

/// Board identification.
pub fn board_name() -> (r: &'static str)
    ensures
        r@ == "RaspberryPi 3"@,
{
    "RaspberryPi 3"
}

/// The board's system timer: the ARM generic timer, with no period set.
/// Each call gives a fresh driver; a program keeps one and shares it.
pub fn generic_timer() -> (r: GenericTimer)
    ensures
        r.interval_nanos == 0,
{
    GenericTimer::new()
}

} // verus!
