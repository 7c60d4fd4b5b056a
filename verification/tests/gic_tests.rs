use rk3399os::irq::{IrqDispatch, IrqHandlers, NR_IRQS};
use rk3399os::loader::gic::{
    GICInner, GICD_CTLR, GICD_IGROUPR, GICD_IGRPMODR, GICR_ISENABLER0, GICR_WAKER,
};
use rk3399os::bitfield::FieldSetting;
use rk3399os::loader::interrupt::{do_irq, gic, irq_handler_enable, timer3_interrupt_test, TIMER3_INTR};
use rk3399os::loader::timer::{timer, TimerInner};
use rk3399os::mmio::RegOp;
use rk3399os::rk3399::map::GICD_BASE;

#[test]
fn gic_redistributor_frames() {
    let g = GICInner::new(0x1000, 0x10_0000);
    assert_eq!(g.gicd, 0x1000);
    assert_eq!(g.gicr, [0x10_0000, 0x10_2000, 0x10_4000, 0x10_6000, 0x10_8000, 0x10_A000]);
    let b = gic();
    assert_eq!(b.gicd, 0xFEE0_0000);
    assert_eq!(b.gicr[5], 0xFEF0_A000);
}

#[test]
fn gic_init_program_for_core_zero() {
    let g = GICInner::new(0x1000, 0x10_0000);
    let typers = [0u64; 6];
    let ops = g.init(0, &typers, 2);
    assert_eq!(
        ops,
        vec![
            RegOp::Store { base: 0x1000, offset: GICD_CTLR, value: 0x1F7 },
            RegOp::Modify { base: 0x10_0000, offset: GICR_WAKER, field: FieldSetting { mask: 0b10, value: 0 } },
            RegOp::ModifyWhile {
                base: 0x10_0000,
                offset: GICR_WAKER,
                cond: FieldSetting { mask: 0b100, value: 0b100 },
                field: FieldSetting { mask: 0b100, value: 0 },
            },
            RegOp::Store { base: 0x1000, offset: GICD_IGROUPR, value: 0xFFFF_FFFF },
            RegOp::Store { base: 0x1000, offset: GICD_IGRPMODR, value: 0xFFFF_FFFF },
            RegOp::Store { base: 0x1000, offset: GICD_IGROUPR + 4, value: 0xFFFF_FFFF },
            RegOp::Store { base: 0x1000, offset: GICD_IGRPMODR + 4, value: 0xFFFF_FFFF },
            RegOp::Store { base: 0x10_0000, offset: GICR_ISENABLER0, value: 1 },
        ]
    );
}

#[test]
fn gic_init_reads_only_line_count_field() {
    let g = GICInner::new(0, 0x2_0000);
    // Only the low five bits of GICD_TYPER count groups of lines.
    let ops = g.init(0xFFFF_0000_0000_0000, &[u64::MAX; 6], 0xFFFF_FFE0);
    assert_eq!(ops.len(), 4);
}

#[test]
fn irq_enable_checks_range() {
    assert_eq!(irq_handler_enable(192), Err("irq bigger than NR_GIC_IRQS"));
    assert_eq!(
        irq_handler_enable(TIMER3_INTR),
        Ok(vec![RegOp::Store { base: GICD_BASE, offset: 0x100 + 4 * 3, value: 1 << 20 }])
    );
    assert_eq!(
        irq_handler_enable(0),
        Ok(vec![RegOp::Store { base: GICD_BASE, offset: 0x100, value: 1 }])
    );
}

#[test]
fn irq_table_dispatch() {
    let mut h: IrqHandlers<u8> = IrqHandlers::new();
    assert_eq!(h.lookup(NR_IRQS - 1), None);
    assert_eq!(h.dispatch(5), IrqDispatch::Unhandled(5));
    h.install(5, 9);
    assert_eq!(h.lookup(5), Some(9));
    assert_eq!(h.dispatch(5), IrqDispatch::Handle(5, 9));
    h.install(5, 10);
    assert_eq!(h.dispatch(5), IrqDispatch::Handle(5, 10));
    h.install(200, 1);
    assert_eq!(h.dispatch(200), IrqDispatch::OutOfRange(200));
    assert_eq!(h.dispatch(4), IrqDispatch::Unhandled(4));
}

#[test]
fn do_irq_acknowledges_timer3() {
    let mut h: IrqHandlers<u8> = IrqHandlers::new();
    h.install(TIMER3_INTR, 3);
    let (d, ops) = do_irq(&h, TIMER3_INTR);
    assert_eq!(d, IrqDispatch::Handle(TIMER3_INTR, 3));
    assert_eq!(ops, timer(3).clear_irq());
    let (d2, _) = do_irq(&h, 1023);
    assert_eq!(d2, IrqDispatch::OutOfRange(1023));
}

#[test]
fn timer3_test_arms_one_second() {
    let mut h: IrqHandlers<u8> = IrqHandlers::new();
    let (setup, arm) = timer3_interrupt_test(&mut h, 7);
    assert_eq!(h.lookup(TIMER3_INTR), Some(7));
    let t = TimerInner::new(0xFF85_0060);
    let mut expected = t.init();
    expected.extend(irq_handler_enable(TIMER3_INTR).unwrap());
    assert_eq!(setup, expected);
    assert_eq!(arm, t.irq_delay_us(1_000_000));
}
