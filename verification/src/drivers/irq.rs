//! Interrupt handling interfaces.
use vstd::prelude::*;
use crate::mmio::RegOp;

verus! {

/// Something that handles an interrupt.
pub trait IRQHandler {
    /// Handle the interrupt; an error says why it could not.
    fn handle(&self) -> (r: Result<(), &'static str>);
}

/// An interrupt controller: it registers handlers and enables lines.
pub trait IRQManager<H> {
    /// Install `handler` for line `irq`; an error says why it could not.
    fn register_irq(&mut self, irq_num: usize, handler: H) -> (r: Result<(), &'static str>);

    /// The program that enables line `irq_num`.
    fn enable_irq(&self, irq_num: usize) -> (ops: Vec<RegOp>);
}

} // verus!
