//! Processor state the loader reports.
use vstd::prelude::*;

verus! {

/// Name of exception level `el`, the `EL` field of `CurrentEL`.
pub fn current_privilege_level_str(el: u64) -> (r: &'static str)
    ensures
        el == 3 ==> r@ == "EL3"@,
        el == 2 ==> r@ == "EL2"@,
        el == 1 ==> r@ == "EL1"@,
        el == 0 ==> r@ == "EL0"@,
        el > 3 ==> r@ == "Unknown"@,
{
    match el {
        3 => "EL3",
        2 => "EL2",
        1 => "EL1",
        0 => "EL0",
        _ => "Unknown",
    }
}

} // verus!
