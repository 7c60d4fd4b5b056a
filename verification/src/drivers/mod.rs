//! The kernel's device interfaces.
pub mod console;
pub mod irq;
pub mod serial;
pub mod timer;
