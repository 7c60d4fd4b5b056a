//! The kernel's processes, scheduler and shell.
pub mod context;
pub mod process;
pub mod sched;
pub mod boot;
pub mod shell;
pub mod dump;
