//! The loader's interrupt handling.
use vstd::prelude::*;
use crate::mmio::RegOp;
use crate::irq::{IrqHandlers, IrqDispatch, dispatch_spec, NR_GIC_IRQS};
use crate::rk3399::map::{GICD_BASE, timer_base_spec};
use crate::loader::gic::{GICD_ISENABLER, GICInner, GICR_STRIDE};
use crate::rk3399::map::GICR_BASE;
use crate::loader::timer::{timer, clear_irq_program, init_program, irq_delay_program};

verus! {

/// Interrupt line of timer 3.
pub const TIMER3_INTR: usize = 116;

/// The store that enables GIC interrupt line `irq` in the distributor at
/// `gicd`: bit `irq % 32` of set-enable register `irq / 32`.
pub open spec fn enable_op(gicd: usize, irq: usize) -> RegOp {
    RegOp::Store {
        base: gicd,
        offset: (GICD_ISENABLER + 4 * (irq / 32)) as usize,
        value: 1u32 << ((irq % 32) as u32),
    }
}

/// The board's interrupt controller.
pub fn gic() -> (r: GICInner)
    ensures
        r.gicd == GICD_BASE,
        forall|i: int| 0 <= i < 6 ==> r.gicr@[i] == GICR_BASE + i * GICR_STRIDE,
{
    GICInner::new(GICD_BASE, GICR_BASE)
}

/// The program that enables interrupt line `irq` at the distributor, or an
/// error when `irq` is not a GIC line.
pub fn irq_handler_enable(irq: usize) -> (r: Result<Vec<RegOp>, &'static str>)
    ensures
        irq >= NR_GIC_IRQS ==> r is Err && r->Err_0@ == "irq bigger than NR_GIC_IRQS"@,
        irq < NR_GIC_IRQS ==> r is Ok && r->Ok_0@ == seq![enable_op(GICD_BASE, irq)],
{
    if irq >= NR_GIC_IRQS {
        return Err("irq bigger than NR_GIC_IRQS");
    }
    let m = irq / 32;
    let n = irq % 32;
    let mut ops: Vec<RegOp> = Vec::new();
    ops.push(RegOp::Store { base: GICD_BASE, offset: GICD_ISENABLER + 4 * m, value: 1u32 << (n as u32) });
    Ok(ops)
}

/// Handle an interrupt: dispatch the acknowledged interrupt `irqstat` to
/// its handler, and acknowledge timer 3's interrupt.
pub fn do_irq<H: Copy>(handlers: &IrqHandlers<H>, irqstat: usize) -> (r: (IrqDispatch<H>, Vec<RegOp>))
    ensures
        r.0 == dispatch_spec(handlers@, irqstat),
        r.1@ == clear_irq_program(timer_base_spec(3) as usize),
{
    let d = handlers.dispatch(irqstat);
    let timer3 = timer(3);
    (d, timer3.clear_irq())
}

/// Set timer 3 to interrupt after one second, with `handler` installed for
/// its line. The first program initializes the timer and enables its line
/// at the distributor (the handler is installed between the two); the
/// second, run after the loader has announced the wait, arms the timer.
pub fn timer3_interrupt_test<H: Copy>(handlers: &mut IrqHandlers<H>, handler: H) -> (r: (Vec<RegOp>, Vec<RegOp>))
    ensures
        final(handlers)@ == old(handlers)@.update(TIMER3_INTR as int, Some(handler)),
        r.0@ == init_program(timer_base_spec(3) as usize) + seq![enable_op(GICD_BASE, TIMER3_INTR)],
        r.1@ == irq_delay_program(timer_base_spec(3) as usize, 1_000_000),
{
    let timer3 = timer(3);
    let mut ops = timer3.inner.init();
    handlers.install(TIMER3_INTR, handler);
    let enable = irq_handler_enable(TIMER3_INTR);
    match enable {
        Ok(mut e) => ops.append(&mut e),
        Err(_) => {},
    }
    let arm = timer3.irq_delay_us(1_000_000);
    (ops, arm)
}

} // verus!

verus! {

/// Each GIC line has its own enable bit: distinct lines give distinct
/// stores, and the store for a line names it back as
/// `32 * register index + bit index`.
pub proof fn lemma_enable_bits_distinct(gicd: usize, a: usize, b: usize)
    requires
        a < 1024,
        b < 1024,
        a != b,
    ensures
        enable_op(gicd, a) != enable_op(gicd, b),
        32 * (a / 32) + a % 32 == a,
{
    let (na, nb) = ((a % 32) as u32, (b % 32) as u32);
    if a / 32 == b / 32 {
        assert(na != nb);
        assert(na < 32 && nb < 32 && na != nb ==> (1u32 << na) != (1u32 << nb)) by (bit_vector);
    } else {
        assert(GICD_ISENABLER + 4 * (a / 32) != GICD_ISENABLER + 4 * (b / 32));
    }
}

} // verus!
