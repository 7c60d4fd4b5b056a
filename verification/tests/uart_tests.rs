use rk3399os::bitfield::FieldSetting;
use rk3399os::loader::console::{console, Console};
use rk3399os::loader::drivers::{DeviceType, Driver};
use rk3399os::loader::uart::{
    panic_uart, BlockingMode, ReadStep, Uart, UartInner, DLH_IER, LCR, MCR, RBR_THR_DLL, SFE, SRR, SRT, STET, USR,
};
use rk3399os::mmio::RegOp;

#[test]
fn uart_init_program() {
    let u = UartInner::new(0xFF1A_0000);
    let b = 0xFF1A_0000;
    assert_eq!(
        u.init(),
        vec![
            RegOp::Store { base: b, offset: SRR, value: 0b111 },
            RegOp::Store { base: b, offset: DLH_IER, value: 0 },
            RegOp::Store { base: b, offset: MCR, value: 0 },
            RegOp::Modify { base: b, offset: LCR, field: FieldSetting { mask: 0xF, value: 0b11 } },
            RegOp::Modify { base: b, offset: LCR, field: FieldSetting { mask: 0x80, value: 0x80 } },
            RegOp::Store { base: b, offset: RBR_THR_DLL, value: 1 },
            RegOp::Store { base: b, offset: DLH_IER, value: 0 },
            RegOp::Modify { base: b, offset: LCR, field: FieldSetting { mask: 0x80, value: 0 } },
            RegOp::Store { base: b, offset: SFE, value: 1 },
            RegOp::Store { base: b, offset: SRT, value: 0b11 },
            RegOp::Store { base: b, offset: STET, value: 0b01 },
        ]
    );
}

#[test]
fn uart_write_counts_and_waits_for_room() {
    let mut u = UartInner::new(0x100);
    let ops = u.write('A');
    assert_eq!(
        ops,
        vec![
            RegOp::SpinWhile { base: 0x100, offset: USR, field: FieldSetting { mask: 0b10, value: 0 } },
            RegOp::Store { base: 0x100, offset: RBR_THR_DLL, value: 0x41 },
        ]
    );
    assert_eq!(u.chars_written, 1);
    assert_eq!(u.chars_read, 0);
}

#[test]
fn uart_write_str_sends_each_char() {
    let mut u = UartInner::new(0x100);
    let ops = u.write_str("hi");
    assert_eq!(ops.len(), 4);
    assert_eq!(ops[1], RegOp::Store { base: 0x100, offset: RBR_THR_DLL, value: 'h' as u32 });
    assert_eq!(ops[3], RegOp::Store { base: 0x100, offset: RBR_THR_DLL, value: 'i' as u32 });
    assert_eq!(u.chars_written, 2);
    let empty = u.write_str("");
    assert!(empty.is_empty());
    assert_eq!(u.chars_written, 2);
}

#[test]
fn uart_waits() {
    let u = UartInner::new(0x100);
    assert_eq!(
        u.flush(),
        vec![RegOp::SpinWhile { base: 0x100, offset: USR, field: FieldSetting { mask: 1, value: 1 } }]
    );
    assert_eq!(
        u.drain(),
        vec![RegOp::SpinWhile { base: 0x100, offset: USR, field: FieldSetting { mask: 0b100, value: 0 } }]
    );
}

#[test]
fn uart_read_steps() {
    let mut u = UartInner::new(0x100);
    // Receive FIFO not empty: bit 3 of USR.
    assert_eq!(u.read_step(BlockingMode::Blocking, 0b1000), ReadStep::Take);
    assert_eq!(u.read_step(BlockingMode::NonBlocking, 0b1000), ReadStep::Take);
    assert_eq!(u.read_step(BlockingMode::Blocking, 0b0111), ReadStep::Wait);
    assert_eq!(u.read_step(BlockingMode::NonBlocking, 0), ReadStep::NoData);
    assert_eq!(u.read(0x141), 'A');
    assert_eq!(u.read(0x7A), 'z');
    assert_eq!(u.chars_read, 2);
    assert_eq!(u.compatible(), "RK3399 GPIO");
}

#[test]
fn console_is_uart2() {
    let mut c: Uart = console();
    assert_eq!(c.inner.base, 0xFF1A_0000);
    assert_eq!(panic_uart().inner.base, 0xFF1A_0000);
    assert_eq!(c.get_device_type(), DeviceType::Serial);
    assert_eq!(c.init(), c.inner.init());
    let w = c.write_char('x');
    assert_eq!(w[1], RegOp::Store { base: 0xFF1A_0000, offset: RBR_THR_DLL, value: 'x' as u32 });
    let s = c.write_str("ab");
    assert_eq!(s.len(), 4);
    assert_eq!(c.inner.chars_written, 3);
    assert_eq!(c.flush(), c.inner.flush());
    assert_eq!(c.write_drain(), c.inner.drain());
    assert_eq!(c.read_step(BlockingMode::NonBlocking, 0), ReadStep::NoData);
    assert_eq!(c.read_char(0x30), '0');
    assert_eq!(c.inner.chars_read, 1);
}
