//! The kernel console interface.
use vstd::prelude::*;
use crate::mmio::RegOp;

verus! {

/// A character console: output as register programs, input as the byte
/// taken from the receive buffer.
pub trait Interface {
    /// Send one character.
    fn write_char(&mut self, ch: char) -> (ops: Vec<RegOp>);

    /// The character received, from the byte read from the device.
    fn read_char(&mut self, data: u32) -> (r: char);

    /// Wait until everything sent has left the wire.
    fn flush(&self) -> (ops: Vec<RegOp>);
}

} // verus!
