use std::collections::HashMap;

use rk3399os::arm::generic_timer::{GenericTimer, NextTick};
use rk3399os::bitfield::{read_field_u64, FieldSetting, RegField};
use rk3399os::drivers::timer::system_timer::Interface;
use rk3399os::loader::interrupt::irq_handler_enable;
use rk3399os::loader::timer::{TimerInner, LOAD_COUNT0, LOAD_COUNT1};
use rk3399os::loader::uart::{UartInner, LCR};
use rk3399os::loader::timer::{CONTROL_REG, INT_STATUS, LOAD_COUNT2, LOAD_COUNT3};
use rk3399os::drivers::timer::basic_timer::{Interface as BasicTimer, TimerMode};
use rk3399os::rk3399::gpio::{GPIOGRFInner, GPIO4B_IOMUX};
use rk3399os::mmio::RegOp;

/// Registers as plain memory, every one starting at `init`.
fn run(ops: &[RegOp], init: u32) -> HashMap<(usize, usize), u32> {
    let mut m: HashMap<(usize, usize), u32> = HashMap::new();
    for op in ops {
        match *op {
            RegOp::Store { base, offset, value } => {
                m.insert((base, offset), value);
            }
            RegOp::Modify { base, offset, field } => {
                let old = *m.get(&(base, offset)).unwrap_or(&init);
                m.insert((base, offset), field.modify(old));
            }
            RegOp::SpinWhile { .. } => {}
            RegOp::ModifyWhile { base, offset, cond, field } => {
                let old = *m.get(&(base, offset)).unwrap_or(&init);
                if cond.matches_all(old) {
                    m.insert((base, offset), field.modify(old));
                }
            }
        }
    }
    m
}

#[test]
fn delay_leaves_ticks_in_load_registers() {
    let t = TimerInner::new(0x40);
    for cnt in [0u64, 1, 1000, 0x2_0000_0000, u64::MAX / 24] {
        let m = run(&t.delay_us(cnt), 0xDEAD_BEEF);
        let lo = m[&(0x40, LOAD_COUNT0)];
        let hi = m[&(0x40, LOAD_COUNT1)];
        assert_eq!(t.current_val(lo, hi), cnt * 24);
    }
}

#[test]
fn uart_init_leaves_8n1_with_latch_closed() {
    let u = UartInner::new(0x80);
    for init in [0u32, 0xFFFF_FFFF, 0x1234_5678] {
        let m = run(&u.init(), init);
        let lcr = m[&(0x80, LCR)];
        assert_eq!(lcr & 0b11, 0b11);
        assert_eq!((lcr >> 2) & 1, 0);
        assert_eq!((lcr >> 3) & 1, 0);
        assert_eq!((lcr >> 7) & 1, 0);
        assert_eq!(lcr & !0x8F, init & !0x8F);
    }
}

#[test]
fn modify_laws_on_values() {
    let a = RegField::new(3, 0).val(2);
    let b = RegField::new(1, 4).val(1);
    for reg in [0u32, 0xFFFF_FFFF, 0xA5A5_A5A5] {
        assert_eq!(a.modify(a.modify(reg)), a.modify(reg));
        assert_eq!(a.plus(b).modify(reg), b.modify(a.modify(reg)));
        assert!(a.matches_all(a.modify(reg)));
    }
}

#[test]
fn enable_bits_are_distinct() {
    let mut seen: Vec<RegOp> = Vec::new();
    for irq in 0..192usize {
        let ops = irq_handler_enable(irq).unwrap();
        assert!(!seen.contains(&ops[0]));
        seen.push(ops[0]);
        if let RegOp::Store { offset, value, .. } = ops[0] {
            assert_eq!(32 * ((offset - 0x100) / 4) + value.trailing_zeros() as usize, irq);
        }
    }
}

#[test]
fn redistributor_affinity_reads_zero() {
    for t in [0u64, u64::MAX, 0x8000_0000_0000_0000, 0x1234_5678_9ABC_DEF0] {
        assert_eq!(read_field_u64(0xFFFF_FFFF, 31, t) >> 32, 0);
    }
}

#[test]
fn generic_timer_rounds_down_and_is_monotonic() {
    let g = GenericTimer::new();
    if let NextTick::Program { tval } = g.set_next(1_500, 1_000_001) {
        let x: u64 = 1_500 * 1_000_001;
        assert!(tval * 1_000_000_000 <= x && x < (tval + 1) * 1_000_000_000);
    } else {
        panic!("expected a compare value");
    }
    let mut last = 0;
    for c in [0u64, 1, 1000, 62_500_000, 1 << 40] {
        let now = g.get_cycle(c, 62_500_000);
        assert!(now >= last);
        last = now;
    }
}

#[test]
fn field_setting_shape() {
    assert_eq!(RegField::new(0xFFFF, 2).val(0b1100), FieldSetting { mask: 0x3FFFC, value: 0x30 });
}

#[test]
fn irq_delay_leaves_timer_running_free_with_interrupt() {
    let t = TimerInner::new(0x40);
    for init in [0u32, 0xFFFF_FFFF] {
        let m = run(&t.irq_delay_us(77), init);
        assert_eq!(m[&(0x40, CONTROL_REG)], 0b101);
        assert_eq!(m[&(0x40, INT_STATUS)], 1);
        assert_eq!(m[&(0x40, LOAD_COUNT2)], 0);
        assert_eq!(m[&(0x40, LOAD_COUNT3)], 0);
        assert_eq!(t.current_val(m[&(0x40, LOAD_COUNT0)], m[&(0x40, LOAD_COUNT1)]), 77 * 24);
    }
}

#[test]
fn basic_timer_init_sets_control_per_mode() {
    let t = rk3399os::rk3399::timer::TimerInner::new(2);
    let b = t.base;
    for (mode, bits) in [
        (TimerMode::Spin, 0b010u32),
        (TimerMode::Count, 0b010),
        (TimerMode::IRQOnce, 0b110),
        (TimerMode::IRQPeriodic, 0b100),
    ] {
        for init in [0u32, 0xFFFF_FFFF] {
            let m = run(&t.init(9, mode), init);
            assert_eq!(m[&(b, CONTROL_REG)], (init & !7) | bits);
            assert_eq!(t.get_cycle(m[&(b, LOAD_COUNT0)], m[&(b, LOAD_COUNT1)]), 9);
        }
    }
}

#[test]
fn basic_timer_spin_ends_stopped() {
    let t = rk3399os::rk3399::timer::TimerInner::new(7);
    let b = t.base;
    let m = run(&t.spin(5), 0xFFFF_FFFF);
    assert_eq!(m[&(b, CONTROL_REG)], 0b010);
    assert_eq!(m[&(b, INT_STATUS)], 1);
    assert_eq!(m[&(b, LOAD_COUNT0)], 120);
}

#[test]
fn map_uart2_changes_only_the_two_pins() {
    let mut g = GPIOGRFInner::new(0x10);
    for init in [0u32, 0xFFFF_FFFF, 0x1234_5678] {
        let m = run(&g.map_uart2(), init);
        assert_eq!(m[&(0x10, GPIO4B_IOMUX)], (init & 0xFFFF_FFF0) | 0xA);
        assert_eq!(m[&(0x10, GPIO4B_IOMUX)] >> 4, init >> 4);
    }
}
