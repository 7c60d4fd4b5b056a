use rk3399os::loader::timer::{timer, TimerInner, Timer, CONTROL_REG, LOAD_COUNT0, LOAD_COUNT1, LOAD_COUNT2, LOAD_COUNT3, INT_STATUS};
use rk3399os::mmio::RegOp;
use rk3399os::bitfield::FieldSetting;

#[test]
fn timer_init_program() {
    let t = TimerInner::new(0x1000);
    let ops = t.init();
    assert_eq!(
        ops,
        vec![
            RegOp::Store { base: 0x1000, offset: CONTROL_REG, value: 0b010 },
            RegOp::Store { base: 0x1000, offset: LOAD_COUNT0, value: 0 },
            RegOp::Store { base: 0x1000, offset: LOAD_COUNT1, value: 0 },
        ]
    );
}

#[test]
fn timer_delay_us_program() {
    let t = TimerInner::new(0x2000);
    let cnt: u64 = 0x1_0000_0001;
    let ops = t.delay_us(cnt);
    let ticks = cnt * 24;
    assert_eq!(
        ops,
        vec![
            RegOp::Store { base: 0x2000, offset: CONTROL_REG, value: 0b010 },
            RegOp::Store { base: 0x2000, offset: LOAD_COUNT2, value: 0 },
            RegOp::Store { base: 0x2000, offset: LOAD_COUNT3, value: 0 },
            RegOp::Store { base: 0x2000, offset: LOAD_COUNT0, value: (ticks & 0xFFFF_FFFF) as u32 },
            RegOp::Store { base: 0x2000, offset: LOAD_COUNT1, value: (ticks >> 32) as u32 },
            RegOp::Modify { base: 0x2000, offset: CONTROL_REG, field: FieldSetting { mask: 1, value: 1 } },
            RegOp::SpinWhile { base: 0x2000, offset: INT_STATUS, field: FieldSetting { mask: 1, value: 0 } },
            RegOp::Store { base: 0x2000, offset: INT_STATUS, value: 1 },
            RegOp::Modify { base: 0x2000, offset: CONTROL_REG, field: FieldSetting { mask: 1, value: 0 } },
        ]
    );
}

#[test]
fn timer_numbers_map_to_banks() {
    let t3: Timer = timer(3);
    assert_eq!(t3.inner.base, 0xFF85_0060);
    let t7: Timer = timer(7);
    assert_eq!(t7.inner.base, 0xFF85_8020);
}

use rk3399os::loader::drivers::{DeviceType, Driver};

#[test]
fn timer_irq_delay_program() {
    let t = TimerInner::new(0x3000);
    let ops = t.irq_delay_us(1000);
    assert_eq!(
        ops,
        vec![
            RegOp::Store { base: 0x3000, offset: INT_STATUS, value: 1 },
            RegOp::Store { base: 0x3000, offset: CONTROL_REG, value: 0b100 },
            RegOp::Store { base: 0x3000, offset: LOAD_COUNT2, value: 0 },
            RegOp::Store { base: 0x3000, offset: LOAD_COUNT3, value: 0 },
            RegOp::Store { base: 0x3000, offset: LOAD_COUNT0, value: 24000 },
            RegOp::Store { base: 0x3000, offset: LOAD_COUNT1, value: 0 },
            RegOp::Modify { base: 0x3000, offset: CONTROL_REG, field: FieldSetting { mask: 1, value: 1 } },
        ]
    );
}

#[test]
fn timer_clear_irq_and_value() {
    let t = TimerInner::new(0x10);
    assert_eq!(t.clear_irq(), vec![RegOp::Store { base: 0x10, offset: INT_STATUS, value: 1 }]);
    assert_eq!(t.current_val(0x89AB_CDEF, 0x0123_4567), 0x0123_4567_89AB_CDEF);
    assert_eq!(t.current_val(5, 0), 5);
    assert_eq!(t.compatible(), "RK3399 Timer");
}

#[test]
fn timer_driver_wraps_device() {
    let t = Timer::new(0x400);
    assert_eq!(t.delay_ms(2), t.inner.delay_us(2000));
    assert_eq!(t.delay_us(7), t.inner.delay_us(7));
    assert_eq!(t.irq_delay_us(7), t.inner.irq_delay_us(7));
    assert_eq!(t.clear_irq(), t.inner.clear_irq());
    assert_eq!(t.current_val(1, 1), 0x1_0000_0001);
    assert_eq!(t.init(), t.inner.init());
    assert_eq!(t.get_device_type(), DeviceType::Timer);
}

#[test]
fn timer_first_bank_base() {
    assert_eq!(timer(0).inner.base, 0xFF85_0000);
    assert_eq!(timer(4).inner.base, 0xFF85_0080);
    assert_eq!(timer(6).inner.base, 0xFF85_8000);
    assert_eq!(timer(10).inner.base, 0xFF85_8080);
}

