//! The board's basic countdown timers.
use vstd::prelude::*;
use crate::mmio::RegOp;
use crate::irq::{IrqHandlers, NR_IRQS};

verus! {

/// How a basic timer is used.
#[derive(Clone, Copy, Debug, PartialEq, Eq, Structural)]
pub enum TimerMode {
    /// Busy-wait for the duration.
    Spin,
    /// Count the duration once, without interrupt.
    Count,
    /// Interrupt once after the duration.
    IRQOnce,
    /// Interrupt after every period of the duration.
    IRQPeriodic,
}

/// A basic countdown timer; durations are in microseconds.
pub trait Interface {
    /// The interrupt line of the timer.
    spec fn irq_line(&self) -> usize;

    /// Whether a duration of `us` microseconds fits the timer's counter.
    spec fn fits(&self, us: u64) -> bool;

    /// The program that prepares the timer for `mode` and `duration_us`;
    /// the modes that interrupt also enable the timer's interrupt line,
    /// which must then be one of the distributor's 1024 lines.
    fn init(&self, duration_us: u64, mode: TimerMode) -> (ops: Vec<RegOp>)
        requires
            self.fits(duration_us),
            mode == TimerMode::IRQOnce || mode == TimerMode::IRQPeriodic ==> self.irq_line() / 32 < 32,
    ;

    /// The program that busy-waits `duration_us` microseconds.
    fn spin(&self, duration_us: u64) -> (ops: Vec<RegOp>)
        requires
            self.fits(duration_us),
    ;

    /// Install `handler` for the timer's interrupt line.
    fn set_irq_handler<H: Copy>(&self, handlers: &mut IrqHandlers<H>, handler: H)
        requires
            self.irq_line() < NR_IRQS,
        ensures
            final(handlers)@ == old(handlers)@.update(self.irq_line() as int, Some(handler)),
    ;

    /// The program that acknowledges the timer's interrupt.
    fn clear_irq(&self) -> (ops: Vec<RegOp>);

    /// The program that starts the timer.
    fn start(&self) -> (ops: Vec<RegOp>);

    /// The program that stops the timer.
    fn stop(&self) -> (ops: Vec<RegOp>);

    /// Microseconds counted, from the two halves read from the counter.
    fn get_cycle(&self, current_value0: u32, current_value1: u32) -> (r: u64);
}

} // verus!
