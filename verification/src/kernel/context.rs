//! The register context saved for a process.
use vstd::prelude::*;

verus! {

/// The saved register state of an AArch64 process: the general-purpose
/// registers x0 to x30, the stack pointer, the exception link register (the
/// address execution resumes at) and the saved program status.
pub struct StackFrame {
    pub gpr: [usize; 31],
    pub sp: usize,
    pub elr: usize,
    pub spsr: usize,
    pub reserved: usize,
}

impl StackFrame {
    /// A fresh context that starts executing at `elr` on the stack `sp`:
    /// every general-purpose register and the program status zero.
    pub fn new(elr: usize, sp: usize) -> (r: StackFrame)
        ensures
            r.elr == elr,
            r.sp == sp,
            r.spsr == 0,
            r.reserved == 0,
            forall|i: int| 0 <= i < 31 ==> r.gpr@[i] == 0,
    {
        StackFrame { gpr: [0usize; 31], sp, elr, spsr: 0, reserved: 0 }
    }
}

} // verus!
