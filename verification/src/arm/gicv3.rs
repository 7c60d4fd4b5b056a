//! The kernel's GICv3 interrupt handling.
use vstd::prelude::*;
use crate::mmio::RegOp;
use crate::irq::{IrqHandlers, IrqDispatch, dispatch_spec, NR_IRQS};
use crate::rk3399::map::GICD_BASE;
use crate::loader::gic::GICD_ISENABLER;
use crate::loader::interrupt::enable_op;

verus! {

/// Mask of the interrupt identifier in `ICC_IAR1_EL1`.
pub const INTID_MODULUS: usize = 0x3FF;

/// Install `handler` for interrupt line `irq`.
pub fn irq_install_handler<H: Copy>(handlers: &mut IrqHandlers<H>, irq: usize, handler: H)
    requires
        irq < NR_IRQS,
    ensures
        final(handlers)@ == old(handlers)@.update(irq as int, Some(handler)),
{
    handlers.install(irq, handler);
}

/// The program that enables interrupt line `irq` at the distributor: bit
/// `irq % 32` of set-enable register `irq / 32` (there are 32 of them).
pub fn irq_handler_enable(irq: usize) -> (ops: Vec<RegOp>)
    requires
        irq / 32 < 32,
    ensures
        ops@ == seq![enable_op(GICD_BASE, irq)],
{
    let m = irq / 32;
    let n = irq % 32;
    let mut ops: Vec<RegOp> = Vec::new();
    ops.push(RegOp::Store { base: GICD_BASE, offset: GICD_ISENABLER + 4 * m, value: 1u32 << (n as u32) });
    ops
}

/// What to do with the interrupt acknowledged with `ICC_IAR1_EL1` value
/// `iar`: its identifier is `iar % 0x3FF`.
pub fn irq_handler<H: Copy>(handlers: &IrqHandlers<H>, iar: usize) -> (r: IrqDispatch<H>)
    ensures
        r == dispatch_spec(handlers@, iar % INTID_MODULUS),
{
    let intid = iar % INTID_MODULUS;
    handlers.dispatch(intid)
}

} // verus!
