//! Timer interfaces: the board's basic timers and the system timer.
pub mod basic_timer;
pub mod system_timer;

use vstd::prelude::*;
use crate::arm::generic_timer::GenericTimer;

verus! {

/// The system timer: the board's generic timer. Each call gives a driver
/// with no period set; a program keeps one and shares it.
pub fn system_timer() -> (r: GenericTimer)
    ensures
        r.interval_nanos == 0,
{
    crate::raspi3::generic_timer()
}

} // verus!
