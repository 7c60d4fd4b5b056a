//! The loader's GRF driver (pin multiplexing).
use vstd::prelude::*;
use crate::mmio::RegOp;
use crate::rk3399::gpio::{GPIOGRFInner, GPIO4B_IOMUX, uart2_iomux_setting};
use crate::loader::drivers::{DeviceType, Driver};
use crate::rk3399::map::GRF_BASE;

verus! {

/// The GRF driver: the device behind its lock.
pub struct GPIOGRF {
    pub inner: GPIOGRFInner,
}

impl GPIOGRF {
    /// The GRF whose registers start at `mmio_start_addr`.
    pub fn new(mmio_start_addr: usize) -> (r: GPIOGRF)
        ensures
            r.inner.base == mmio_start_addr,
    {
        GPIOGRF { inner: GPIOGRFInner::new(mmio_start_addr) }
    }

    /// Route UART2 to its pins.
    pub fn map_uart2(&mut self) -> (ops: Vec<RegOp>)
        ensures
            ops@ == seq![RegOp::Modify { base: old(self).inner.base, offset: GPIO4B_IOMUX, field: uart2_iomux_setting() }],
            final(self).inner.base == old(self).inner.base,
    {
        self.inner.map_uart2()
    }
}

impl Driver for GPIOGRF {
    fn init(&self) -> (ops: Vec<RegOp>)
        ensures
            ops@ == Seq::<RegOp>::empty(),
    {
        self.inner.init()
    }

    fn get_device_type(&self) -> (r: DeviceType)
        ensures
            r == DeviceType::GPIO,
    {
        DeviceType::GPIO
    }
}

/// A fresh GRF driver for the panic path.
pub fn panic_gpio() -> (r: GPIOGRF)
    ensures
        r.inner.base == GRF_BASE,
{
    GPIOGRF::new(GRF_BASE)
}

} // verus!
