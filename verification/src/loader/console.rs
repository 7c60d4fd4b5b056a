//! The loader's console: the debug UART.
use vstd::prelude::*;
use crate::mmio::RegOp;
use crate::rk3399::map::UART2_BASE;
use crate::loader::uart::{Uart, BlockingMode, ReadStep};

verus! {

/// A character console. Output is a register program; input is driven by
/// polling: `read_step` tells from the status register whether to take a
/// byte, and `read_char` turns the byte taken into a character.
pub trait Console {
    /// How many more characters the console can count as sent.
    spec fn room(&self) -> nat;

    /// How many more characters the console can count as received.
    spec fn read_room(&self) -> nat;

    /// Send one character.
    fn write_char(&mut self, ch: char) -> (ops: Vec<RegOp>)
        requires
            old(self).room() >= 1,
    ;

    /// Send every character of a string, in order.
    fn write_str(&mut self, s: &str) -> (ops: Vec<RegOp>)
        requires
            old(self).room() >= s@.len(),
    ;

    /// Wait until everything sent has left the wire.
    fn flush(&self) -> (ops: Vec<RegOp>);

    /// Wait until the transmit FIFO is empty.
    fn write_drain(&self) -> (ops: Vec<RegOp>);

    /// What a read in `mode` does next, given the status register value.
    fn read_step(&self, mode: BlockingMode, usr: u32) -> (r: ReadStep);

    /// The character received, from the byte taken from the receive buffer.
    fn read_char(&mut self, data: u32) -> (r: char)
        requires
            old(self).read_room() >= 1,
    ;
}

/// The console: the debug UART, UART2. Each call gives a driver with
/// nothing counted yet; a program keeps one and shares it.
pub fn console() -> (r: Uart)
    ensures
        r.inner.base == UART2_BASE,
        r.inner.chars_written == 0,
        r.inner.chars_read == 0,
{
    Uart::new(UART2_BASE)
}

} // verus!
