//! The system timer.
use vstd::prelude::*;

verus! {

/// The system timer: a free-running counter with a compare interrupt.
/// Counter values and frequencies are read from the hardware; durations are
/// in nanoseconds.
pub trait Interface {
    /// Nanoseconds since the counter started, from its value and frequency.
    fn get_cycle(&self, count: u64, frequency: u64) -> (r: u64)
        requires
            frequency > 0,
    ;
}

} // verus!
