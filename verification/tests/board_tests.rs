use rk3399os::bitfield::FieldSetting;
use rk3399os::loader::driver_manager::{driver_init, DriverManager};
use rk3399os::loader::drivers::{DeviceType, Driver};
use rk3399os::loader::grf::{panic_gpio, GPIOGRF};
use rk3399os::loader::uart::UartInner;
use rk3399os::mmio::RegOp;
use rk3399os::rk3399::gpio::{GPIOGRFInner, GPIO4B_IOMUX};
use rk3399os::rk3399::map::{board_default_load_addr, timer_base, GRF_BASE, UART2_BASE};

#[test]
fn gpio_map_uart2_program() {
    let mut g = GPIOGRFInner::new(0xFF77_0000);
    assert_eq!(
        g.map_uart2(),
        vec![RegOp::Modify {
            base: 0xFF77_0000,
            offset: GPIO4B_IOMUX,
            field: FieldSetting { mask: 0xF, value: 0xA },
        }]
    );
    assert!(g.init().is_empty());
    assert_eq!(g.compatible(), "RK3399 GPIO");
}

#[test]
fn uart2_routing_reads_back() {
    let mut g = GPIOGRFInner::new(0);
    let ops = g.map_uart2();
    if let RegOp::Modify { field, .. } = ops[0] {
        let after = field.modify(0xFFFF_FFFF);
        assert_eq!(after & 0b11, 2);
        assert_eq!((after >> 2) & 0b11, 2);
        assert_eq!(after >> 4, 0xFFFF_FFFF >> 4);
        let after_zero = field.modify(0);
        assert_eq!(after_zero, 0xA);
        assert_eq!((after_zero >> 4) & 0b11, 0);
    } else {
        panic!("expected a modify");
    }
}

#[test]
fn grf_driver() {
    let mut g = GPIOGRF::new(GRF_BASE);
    assert_eq!(g.map_uart2(), GPIOGRFInner::new(GRF_BASE).map_uart2());
    assert!(g.init().is_empty());
    assert_eq!(g.get_device_type(), DeviceType::GPIO);
    assert_eq!(panic_gpio().inner.base, GRF_BASE);
}

#[test]
fn driver_manager_brings_up_pins_then_uart() {
    let dm = DriverManager::new();
    assert_eq!(dm.all_device_drivers(), vec![DeviceType::Serial, DeviceType::GPIO]);
    let ops = driver_init();
    let mut expected = GPIOGRFInner::new(GRF_BASE).map_uart2();
    expected.extend(UartInner::new(UART2_BASE).init());
    assert_eq!(ops, expected);
    assert_eq!(ops.len(), 12);
}

#[test]
fn board_map() {
    assert_eq!(board_default_load_addr(), 0x8_0000);
    assert_eq!(timer_base(1), 0xFF85_0020);
    assert_eq!(timer_base(9), 0xFF85_8060);
}
