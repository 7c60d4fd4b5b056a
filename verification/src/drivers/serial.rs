//! The serial port interface.
use vstd::prelude::*;
use crate::mmio::RegOp;

verus! {

/// A byte-oriented serial port.
pub trait Interface {
    /// The program that configures the port.
    fn init(&self) -> (ops: Vec<RegOp>);

    /// The byte received, from the value read from the receive buffer.
    fn read(&mut self, data: u32) -> (r: u8);

    /// Send one byte.
    fn write(&mut self, data: u8) -> (ops: Vec<RegOp>);

    /// Wait until the transmit FIFO is empty.
    fn write_drain(&self) -> (ops: Vec<RegOp>);

    /// Wait until everything sent has left the wire.
    fn flush(&self) -> (ops: Vec<RegOp>);
}

} // verus!
