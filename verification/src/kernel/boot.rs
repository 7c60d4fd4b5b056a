//! What the kernel reports about the processor it runs on.
use vstd::prelude::*;

pub use crate::loader::cpu::current_privilege_level_str;

verus! {

/// The execution state: AArch64 when a `usize` is eight bytes, AArch32
/// otherwise.
pub fn get_aarch() -> (r: &'static str)
    ensures
        usize::BITS == 64 ==> r@ == "Aarch64"@,
        usize::BITS != 64 ==> r@ == "AArch32"@,
{
    broadcast use vstd::layout::layout_of_primitives;
    if core::mem::size_of::<usize>() == 8 {
        "Aarch64"
    } else {
        "AArch32"
    }
}

} // verus!
