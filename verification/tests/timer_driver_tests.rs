use rk3399os::arm::generic_timer::{GenericTimer, NextTick};
use rk3399os::arm::gicv3::{irq_handler, irq_handler_enable, irq_install_handler};
use rk3399os::bitfield::FieldSetting;
use rk3399os::drivers::timer::basic_timer::{Interface, TimerMode};
use rk3399os::drivers::timer::system_timer;
use rk3399os::drivers::timer::system_timer::Interface as SystemTimerInterface;
use rk3399os::irq::{IrqDispatch, IrqHandlers};
use rk3399os::loader::timer::{CONTROL_REG, INT_STATUS, LOAD_COUNT0, LOAD_COUNT1, LOAD_COUNT2, LOAD_COUNT3};
use rk3399os::mmio::RegOp;
use rk3399os::raspi3::{board_name, generic_timer};
use rk3399os::rk3399::map::GICD_BASE;
use rk3399os::rk3399::timer::TimerInner;
use rk3399os::rk3399::basic_timer;

fn ctrl(base: usize, mask: u32, value: u32) -> RegOp {
    RegOp::Modify { base, offset: CONTROL_REG, field: FieldSetting { mask, value } }
}

#[test]
fn basic_timer_is_timer_zero() {
    let t = basic_timer();
    assert_eq!(t.base, 0xFF85_0000);
    assert_eq!(t.intr, 113);
    assert_eq!(rk3399os::rk3399::test().base, t.base);
    let t8 = TimerInner::new(8);
    assert_eq!(t8.base, 0xFF85_8040);
    assert_eq!(t8.intr, 121);
}

#[test]
fn basic_timer_init_periodic_enables_line() {
    let t = TimerInner::new(3);
    let b = t.base;
    let ops = t.init(10, TimerMode::IRQPeriodic);
    assert_eq!(
        ops,
        vec![
            ctrl(b, 1, 0),
            ctrl(b, 0b10, 0),
            ctrl(b, 0b100, 0b100),
            RegOp::Store { base: GICD_BASE, offset: 0x100 + 4 * 3, value: 1 << 20 },
            RegOp::Store { base: b, offset: LOAD_COUNT2, value: 0 },
            RegOp::Store { base: b, offset: LOAD_COUNT3, value: 0 },
            RegOp::Store { base: b, offset: LOAD_COUNT0, value: 240 },
            RegOp::Store { base: b, offset: LOAD_COUNT1, value: 0 },
        ]
    );
}

#[test]
fn basic_timer_init_count_masks_interrupt() {
    let t = TimerInner::new(0);
    let b = t.base;
    let ops = t.init(1, TimerMode::Count);
    assert_eq!(ops[1], ctrl(b, 0b10, 0b10));
    assert_eq!(ops[2], ctrl(b, 0b100, 0));
    assert_eq!(ops.len(), 7);
    let once = t.init(1, TimerMode::IRQOnce);
    assert_eq!(once[1], ctrl(b, 0b10, 0b10));
    assert_eq!(once[2], ctrl(b, 0b100, 0b100));
    assert_eq!(once.len(), 8);
    let spin = t.init(1, TimerMode::Spin);
    assert_eq!(spin, ops);
}

#[test]
fn basic_timer_spin_and_controls() {
    let t = TimerInner::new(1);
    let b = t.base;
    let ops = t.spin(2);
    assert_eq!(ops[0], RegOp::Store { base: b, offset: CONTROL_REG, value: 0b010 });
    assert_eq!(ops[3], RegOp::Store { base: b, offset: LOAD_COUNT0, value: 48 });
    assert_eq!(ops[5], ctrl(b, 1, 1));
    assert_eq!(ops[6], RegOp::SpinWhile { base: b, offset: INT_STATUS, field: FieldSetting { mask: 1, value: 0 } });
    assert_eq!(ops[7], RegOp::Store { base: b, offset: INT_STATUS, value: 1 });
    assert_eq!(ops[8], ctrl(b, 1, 0));
    assert_eq!(t.start(), vec![ctrl(b, 1, 1)]);
    assert_eq!(t.stop(), vec![ctrl(b, 1, 0)]);
    assert_eq!(t.clear_irq(), vec![RegOp::Store { base: b, offset: INT_STATUS, value: 1 }]);
    assert_eq!(t.get_cycle(48, 0), 2);
    assert_eq!(t.get_cycle(0, 24), 1u64 << 32);
    assert_eq!(t.irq_delay_us(5), rk3399os::loader::timer::TimerInner::new(b).irq_delay_us(5));
}

#[test]
fn basic_timer_installs_handler_on_its_line() {
    let t = TimerInner::new(2);
    let mut h: IrqHandlers<u8> = IrqHandlers::new();
    t.set_irq_handler(&mut h, 4);
    assert_eq!(h.lookup(115), Some(4));
}

#[test]
fn generic_timer_next_tick() {
    let mut g = GenericTimer::new();
    assert_eq!(g.set_next(0, 62_500_000), NextTick::Skip);
    assert_eq!(g.set_next(1_000_000, 62_500_000), NextTick::Program { tval: 62_500 });
    assert_eq!(g.set_next(u64::MAX as u128, 2), NextTick::TooLong);
    // The duration is cut to 64 bits first.
    assert_eq!(g.set_next((1u128 << 64) + 1_000_000_000, 1000), NextTick::Program { tval: 1000 });
    assert_eq!(g.set_periodic(2_000_000, 1_000_000_000), NextTick::Program { tval: 2_000_000 });
    assert_eq!(g.interval_nanos, 2_000_000);
    assert_eq!(g.generic_timer_handler(1_000_000_000), NextTick::Program { tval: 2_000_000 });
}

#[test]
fn generic_timer_cycle() {
    let g = generic_timer();
    assert_eq!(g.get_cycle(62_500_000, 62_500_000), 1_000_000_000);
    assert_eq!(g.get_cycle(3, 1_000_000_000), 3);
    assert_eq!(g.get_cycle(u64::MAX, 1), ((u64::MAX as u128 * 1_000_000_000) as u64));
    assert_eq!(system_timer().interval_nanos, 0);
    assert_eq!(board_name(), "RaspberryPi 3");
}

#[test]
fn gicv3_dispatch_uses_intid_modulo() {
    let mut h: IrqHandlers<u8> = IrqHandlers::new();
    irq_install_handler(&mut h, 30, 1);
    assert_eq!(irq_handler(&h, 30), IrqDispatch::Handle(30, 1));
    assert_eq!(irq_handler(&h, 30 + 0x3FF), IrqDispatch::Handle(30, 1));
    assert_eq!(irq_handler(&h, 0x3FF), IrqDispatch::Unhandled(0));
    assert_eq!(irq_handler(&h, 1000), IrqDispatch::OutOfRange(1000));
    assert_eq!(
        irq_handler_enable(30),
        vec![RegOp::Store { base: GICD_BASE, offset: 0x100, value: 1 << 30 }]
    );
    assert_eq!(
        irq_handler_enable(1023),
        vec![RegOp::Store { base: GICD_BASE, offset: 0x100 + 4 * 31, value: 1 << 31 }]
    );
}
