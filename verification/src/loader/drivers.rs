//! Device drivers of the boot loader and their common interface.
use vstd::prelude::*;
use crate::mmio::RegOp;

verus! {

/// The kinds of device the loader drives.
#[derive(Clone, Copy, Debug, PartialEq, Eq, Structural)]
pub enum DeviceType {
    GPIO,
    Serial,
    Timer,
}

/// A device driver: it can initialize its device and tell what it is.
pub trait Driver {
    /// The register program that initializes the device.
    fn init(&self) -> (ops: Vec<RegOp>);

    /// The kind of device.
    fn get_device_type(&self) -> (r: DeviceType);
}

} // verus!
