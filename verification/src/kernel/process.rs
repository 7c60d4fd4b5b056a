//! Processes and their control blocks.
use vstd::prelude::*;
use crate::kernel::context::StackFrame;
use vstd::string::StringSliceAdditionalSpecFns;

verus! {

/// Length of a process name, in bytes.
pub const PROCESS_NAME_LEN: usize = 10;

/// The life-cycle state of a process.
#[derive(Clone, Copy, Debug, PartialEq, Eq, Structural)]
pub enum ProcessStatus {
    Init,
    Ready,
    Sleep,
    Terminal,
}

impl ProcessStatus {
    /// How the status is shown.
    pub fn name(&self) -> (r: &'static str)
        ensures
            *self == ProcessStatus::Init ==> r@ == "Init"@,
            *self == ProcessStatus::Ready ==> r@ == "Ready"@,
            *self == ProcessStatus::Sleep ==> r@ == "Suspended"@,
            *self == ProcessStatus::Terminal ==> r@ == "Terminal"@,
    {
        match self {
            ProcessStatus::Init => "Init",
            ProcessStatus::Ready => "Ready",
            ProcessStatus::Sleep => "Suspended",
            ProcessStatus::Terminal => "Terminal",
        }
    }
}

/// The state the scheduler keeps for a process: its status, its saved
/// context and its stack.
pub struct ProcessControlBlock {
    pub status: ProcessStatus,
    pub context: StackFrame,
    pub stack_start: usize,
    pub stack_size: usize,
}

impl ProcessControlBlock {
    /// The control block of a new process that starts at address `entry` on
    /// the stack `[stack_start, stack_start + stack_size)`: status `Init`,
    /// context entering `entry` with the stack pointer at the stack's top.
    pub fn new(entry: usize, stack_start: usize, stack_size: usize) -> (r: ProcessControlBlock)
        requires
            stack_start + stack_size <= usize::MAX,
        ensures
            r.status == ProcessStatus::Init,
            r.context.elr == entry,
            r.context.sp == stack_start + stack_size,
            r.context.spsr == 0,
            r.context.reserved == 0,
            forall|i: int| 0 <= i < 31 ==> r.context.gpr@[i] == 0,
            r.stack_start == stack_start,
            r.stack_size == stack_size,
    {
        ProcessControlBlock {
            status: ProcessStatus::Init,
            context: StackFrame::new(entry, stack_start + stack_size),
            stack_start,
            stack_size,
        }
    }
}

/// A process: its name and its control block.
pub struct Process {
    pub name: [u8; 10],
    pub pcb: ProcessControlBlock,
}

/// The stored name of a process called `name`: its bytes, padded with zeros.
pub open spec fn padded_name(name: Seq<u8>) -> Seq<u8> {
    Seq::new(PROCESS_NAME_LEN as nat, |i: int| if i < name.len() { name[i] } else { 0u8 })
}

impl Process {
    /// A process called `name` (at most ten bytes) that starts at address
    /// `entry` on the given stack.
    pub fn new(name: &str, entry: usize, stack_start: usize, stack_size: usize) -> (r: Process)
        requires
            name.spec_bytes().len() <= PROCESS_NAME_LEN,
            stack_start + stack_size <= usize::MAX,
        ensures
            r.name@ == padded_name(name.spec_bytes()),
            r.pcb.status == ProcessStatus::Init,
            r.pcb.context.elr == entry,
            r.pcb.context.sp == stack_start + stack_size,
            r.pcb.context.spsr == 0,
            r.pcb.context.reserved == 0,
            forall|i: int| 0 <= i < 31 ==> r.pcb.context.gpr@[i] == 0,
            r.pcb.stack_start == stack_start,
            r.pcb.stack_size == stack_size,
    {
        let bytes = name.as_bytes();
        let mut name_arr: [u8; 10] = [0u8; 10];
        let mut i: usize = 0;
        while i < bytes.len()
            invariant
                bytes@ == name.spec_bytes(),
                bytes@.len() <= PROCESS_NAME_LEN,
                i <= bytes@.len(),
                forall|j: int| 0 <= j < i ==> name_arr@[j] == bytes@[j],
                forall|j: int| i <= j < PROCESS_NAME_LEN ==> name_arr@[j] == 0,
            decreases bytes.len() - i,
        {
            name_arr[i] = bytes[i];
            i = i + 1;
        }
        assert(name_arr@ =~= padded_name(name.spec_bytes()));
        Process { name: name_arr, pcb: ProcessControlBlock::new(entry, stack_start, stack_size) }
    }

    /// The process's name bytes, as shown.
    pub fn show_name(&self) -> (r: [u8; 10])
        ensures
            r == self.name,
    {
        self.name
    }

    /// Access to the process's control block.
    pub fn context_access(&mut self) -> (r: &mut ProcessControlBlock)
        ensures
            *r == old(self).pcb,
            final(self).pcb == *final(r),
            final(self).name == old(self).name,
    {
        &mut self.pcb
    }
}

} // verus!
