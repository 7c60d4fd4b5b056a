//! The loader's driver manager: the devices it brings up, in order.
use vstd::prelude::*;
use crate::mmio::RegOp;
use crate::rk3399::map::{UART2_BASE, GRF_BASE};
use crate::rk3399::gpio::{GPIO4B_IOMUX, uart2_iomux_setting};
use crate::loader::drivers::{DeviceType, Driver};
use crate::loader::uart::{Uart, init_program};
use crate::loader::grf::GPIOGRF;

verus! {

/// The board's drivers: the debug UART and the GRF.
pub struct DriverManager {
    pub uart: Uart,
    pub grf: GPIOGRF,
}

/// The program that brings up every device: UART2's pins routed first, then
/// each driver's initialization in list order (UART, then GRF, which has
/// none).
pub open spec fn driver_init_program() -> Seq<RegOp> {
    seq![RegOp::Modify { base: GRF_BASE, offset: GPIO4B_IOMUX, field: uart2_iomux_setting() }]
        + init_program(UART2_BASE)
}

impl DriverManager {
    /// The board's driver list: UART2 and the GRF at their physical bases.
    pub fn new() -> (r: DriverManager)
        ensures
            r.uart.inner.base == UART2_BASE,
            r.uart.inner.chars_written == 0,
            r.uart.inner.chars_read == 0,
            r.grf.inner.base == GRF_BASE,
    {
        DriverManager { uart: Uart::new(UART2_BASE), grf: GPIOGRF::new(GRF_BASE) }
    }

    /// Configure UART2's output pins.
    pub fn post_device_driver_init(&mut self) -> (ops: Vec<RegOp>)
        ensures
            ops@ == seq![RegOp::Modify { base: old(self).grf.inner.base, offset: GPIO4B_IOMUX, field: uart2_iomux_setting() }],
            final(self).grf.inner.base == old(self).grf.inner.base,
            final(self).uart == old(self).uart,
    {
        self.grf.map_uart2()
    }

    /// The kinds of the drivers, in the order they are initialized.
    pub fn all_device_drivers(&self) -> (r: Vec<DeviceType>)
        ensures
            r@ == seq![DeviceType::Serial, DeviceType::GPIO],
    {
        let mut r: Vec<DeviceType> = Vec::new();
        r.push(self.uart.get_device_type());
        r.push(self.grf.get_device_type());
        r
    }
}

/// Bring up the board's devices: pins first, then every driver in order.
pub fn driver_init() -> (ops: Vec<RegOp>)
    ensures
        ops@ == driver_init_program(),
{
    let mut dm = DriverManager::new();
    let mut ops = dm.post_device_driver_init();
    let mut u = dm.uart.init();
    ops.append(&mut u);
    let mut g = dm.grf.init();
    ops.append(&mut g);
    proof {
        assert(ops@ =~= driver_init_program());
    }
    ops
}

} // verus!
