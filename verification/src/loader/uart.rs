//! RK3399 UART (a 16550-compatible DesignWare APB UART).
use vstd::prelude::*;
use crate::bitfield::{RegField, FieldSetting, read_spec};
use crate::mmio::RegOp;
use crate::loader::drivers::{DeviceType, Driver};
use crate::loader::console::Console;
use crate::rk3399::map::UART2_BASE;

verus! {

/// Offsets of the UART registers.
pub const RBR_THR_DLL: usize = 0x00;
pub const DLH_IER: usize = 0x04;
pub const IIR_FCR: usize = 0x08;
pub const LCR: usize = 0x0C;
pub const MCR: usize = 0x10;
pub const LSR: usize = 0x14;
pub const USR: usize = 0x7C;
pub const SRR: usize = 0x88;
pub const SFE: usize = 0x98;
pub const SRT: usize = 0x9C;
pub const STET: usize = 0xA0;

/// Divisor latch value: 24 MHz input clock / 16 / 1.5 MBd.
pub const BAUD_DIVISOR: u32 = 1;

/// Frequency of the UART's input clock.
pub const UART_CLOCK_HZ: u32 = 24_000_000;

/// The baud rate the loader's console runs at.
pub const BAUD_RATE: u32 = 1_500_000;

/// The divisor latch value gives the console's baud rate from its clock:
/// the clock divided by 16 times the divisor.
pub proof fn lemma_baud_divisor()
    ensures
        BAUD_DIVISOR as int == (UART_CLOCK_HZ as int) / (16 * BAUD_RATE as int),
        (UART_CLOCK_HZ as int) / (16 * BAUD_DIVISOR as int) == BAUD_RATE as int,
{
    assert(BAUD_DIVISOR == 1 && UART_CLOCK_HZ == 24_000_000 && BAUD_RATE == 1_500_000);
    assert(24_000_000int / (16 * 1_500_000int) == 1 && 24_000_000int / (16 * 1int) == 1_500_000)
        by (nonlinear_arith);
}

/// `SRR.XMIT_FIFO_RESET`.
#[verifier::allow_in_spec]
pub fn srr_xmit_fifo_reset() -> RegField
    returns
        (RegField { mask: 1, shift: 2 }),
{
    RegField { mask: 1, shift: 2 }
}

/// `SRR.RCVR_FIFO_RESET`.
#[verifier::allow_in_spec]
pub fn srr_rcvr_fifo_reset() -> RegField
    returns
        (RegField { mask: 1, shift: 1 }),
{
    RegField { mask: 1, shift: 1 }
}

/// `SRR.UART_RESET`.
#[verifier::allow_in_spec]
pub fn srr_uart_reset() -> RegField
    returns
        (RegField { mask: 1, shift: 0 }),
{
    RegField { mask: 1, shift: 0 }
}

/// `MCR.ALL`: the whole modem control register.
#[verifier::allow_in_spec]
pub fn mcr_all() -> RegField
    returns
        (RegField { mask: 0xFF, shift: 0 }),
{
    RegField { mask: 0xFF, shift: 0 }
}

/// `LCR.DIV_LAT_ACCESS`: 1 maps the divisor latch over `RBR_THR_DLL`/`DLH_IER`.
#[verifier::allow_in_spec]
pub fn lcr_div_lat_access() -> RegField
    returns
        (RegField { mask: 1, shift: 7 }),
{
    RegField { mask: 1, shift: 7 }
}

/// `LCR.PARITY_SEL`: 1 enables parity.
#[verifier::allow_in_spec]
pub fn lcr_parity_sel() -> RegField
    returns
        (RegField { mask: 1, shift: 3 }),
{
    RegField { mask: 1, shift: 3 }
}

/// `LCR.STOP_BITS_NUM`: 0 for one stop bit, 1 for one and a half.
#[verifier::allow_in_spec]
pub fn lcr_stop_bits_num() -> RegField
    returns
        (RegField { mask: 1, shift: 2 }),
{
    RegField { mask: 1, shift: 2 }
}

/// `LCR.DATA_LENGTH_SEL`: data bits minus five (3 for eight bits).
#[verifier::allow_in_spec]
pub fn lcr_data_length_sel() -> RegField
    returns
        (RegField { mask: 3, shift: 0 }),
{
    RegField { mask: 3, shift: 0 }
}

/// `USR.RECEIVE_FIFO_NOT_EMPTY`: 1 when received data waits.
#[verifier::allow_in_spec]
pub fn usr_receive_fifo_not_empty() -> RegField
    returns
        (RegField { mask: 1, shift: 3 }),
{
    RegField { mask: 1, shift: 3 }
}

/// `USR.TRANS_FIFO_EMPTY`: 1 when the transmit FIFO is empty.
#[verifier::allow_in_spec]
pub fn usr_trans_fifo_empty() -> RegField
    returns
        (RegField { mask: 1, shift: 2 }),
{
    RegField { mask: 1, shift: 2 }
}

/// `USR.TRANS_FIFO_NOT_FULL`: 1 when the transmit FIFO has room.
#[verifier::allow_in_spec]
pub fn usr_trans_fifo_not_full() -> RegField
    returns
        (RegField { mask: 1, shift: 1 }),
{
    RegField { mask: 1, shift: 1 }
}

/// `USR.UART_BUSY`: 1 while the UART is busy.
#[verifier::allow_in_spec]
pub fn usr_uart_busy() -> RegField
    returns
        (RegField { mask: 1, shift: 0 }),
{
    RegField { mask: 1, shift: 0 }
}

/// `SFE.SHAOW_FIFO_ENABLE`, `SRT.SHADOW_RCVR_TRIGGER`,
/// `STET.SHADOW_TX_EMPTY_TRIGGER`: FIFO enable and trigger levels.
#[verifier::allow_in_spec]
pub fn sfe_fifo_enable() -> RegField
    returns
        (RegField { mask: 1, shift: 0 }),
{
    RegField { mask: 1, shift: 0 }
}

#[verifier::allow_in_spec]
pub fn srt_rcvr_trigger() -> RegField
    returns
        (RegField { mask: 3, shift: 0 }),
{
    RegField { mask: 3, shift: 0 }
}

#[verifier::allow_in_spec]
pub fn stet_tx_empty_trigger() -> RegField
    returns
        (RegField { mask: 3, shift: 0 }),
{
    RegField { mask: 3, shift: 0 }
}

/// Whether a read waits for data or returns at once when none is there.
#[derive(Clone, Copy, Debug, PartialEq, Eq, Structural)]
pub enum BlockingMode {
    Blocking,
    NonBlocking,
}

/// What a read does next, given the status register's value.
#[derive(Clone, Copy, Debug, PartialEq, Eq, Structural)]
pub enum ReadStep {
    /// No data yet: poll the status again.
    Wait,
    /// No data and the read does not block: it yields nothing.
    NoData,
    /// Data waits: take one byte from the receive buffer.
    Take,
}

/// The program that resets and configures the UART: FIFOs and UART reset,
/// interrupts off, modem control cleared, 8 data bits, no parity, one stop
/// bit, the divisor latch loaded, FIFOs on with their trigger levels.
pub open spec fn init_program(base: usize) -> Seq<RegOp> {
    seq![
        RegOp::Store { base, offset: SRR, value: srr_xmit_fifo_reset().set_all().plus(
            srr_rcvr_fifo_reset().set_all()).plus(srr_uart_reset().set_all()).value },
        RegOp::Store { base, offset: DLH_IER, value: 0 },
        RegOp::Store { base, offset: MCR, value: mcr_all().clear_all().value },
        RegOp::Modify { base, offset: LCR, field: lcr_parity_sel().clear_all().plus(
            lcr_data_length_sel().val(3)).plus(lcr_stop_bits_num().val(0)) },
        RegOp::Modify { base, offset: LCR, field: lcr_div_lat_access().set_all() },
        RegOp::Store { base, offset: RBR_THR_DLL, value: BAUD_DIVISOR & 0xFF },
        RegOp::Store { base, offset: DLH_IER, value: (BAUD_DIVISOR >> 8u32) & 0xFF },
        RegOp::Modify { base, offset: LCR, field: lcr_div_lat_access().clear_all() },
        RegOp::Store { base, offset: SFE, value: sfe_fifo_enable().set_all().value },
        RegOp::Store { base, offset: SRT, value: srt_rcvr_trigger().val(3).value },
        RegOp::Store { base, offset: STET, value: stet_tx_empty_trigger().val(1).value },
    ]
}

/// The program that sends one character once the transmit FIFO has room.
pub open spec fn write_program(base: usize, ch: char) -> Seq<RegOp> {
    seq![
        RegOp::SpinWhile { base, offset: USR, field: usr_trans_fifo_not_full().val(0) },
        RegOp::Store { base, offset: RBR_THR_DLL, value: ch as u32 },
    ]
}

/// The program that sends every character of `s`, in order.
pub open spec fn write_str_program(base: usize, s: Seq<char>) -> Seq<RegOp>
    decreases s.len(),
{
    if s.len() == 0 {
        Seq::empty()
    } else {
        write_str_program(base, s.drop_last()) + write_program(base, s.last())
    }
}

/// The character a received byte stands for.
pub open spec fn byte_char(data: u32) -> char {
    (data as u8) as char
}

/// RK3399 UART driver state: its register block and how many characters
/// it has sent and received.
pub struct UartInner {
    pub base: usize,
    pub chars_written: usize,
    pub chars_read: usize,
}

impl UartInner {
    /// The UART whose registers start at `mmio_start_addr`; nothing sent or
    /// received yet.
    pub fn new(mmio_start_addr: usize) -> (r: UartInner)
        ensures
            r.base == mmio_start_addr,
            r.chars_written == 0,
            r.chars_read == 0,
    {
        UartInner { base: mmio_start_addr, chars_written: 0, chars_read: 0 }
    }

    /// Set up baud rate and characteristics: 1.5 MBd from the 24 MHz clock,
    /// 8N1, FIFOs enabled.
    pub fn init(&self) -> (ops: Vec<RegOp>)
        ensures
            ops@ == init_program(self.base),
    {
        let base = self.base;
        let mut ops: Vec<RegOp> = Vec::new();
        let reset = srr_xmit_fifo_reset().set_all().plus(srr_rcvr_fifo_reset().set_all()).plus(
            srr_uart_reset().set_all(),
        );
        ops.push(RegOp::Store { base, offset: SRR, value: reset.value });
        ops.push(RegOp::Store { base, offset: DLH_IER, value: 0 });
        ops.push(RegOp::Store { base, offset: MCR, value: mcr_all().clear_all().value });
        let line = lcr_parity_sel().clear_all().plus(lcr_data_length_sel().val(3)).plus(
            lcr_stop_bits_num().val(0),
        );
        ops.push(RegOp::Modify { base, offset: LCR, field: line });
        let rate: u32 = BAUD_DIVISOR;
        ops.push(RegOp::Modify { base, offset: LCR, field: lcr_div_lat_access().set_all() });
        ops.push(RegOp::Store { base, offset: RBR_THR_DLL, value: rate & 0xFF });
        ops.push(RegOp::Store { base, offset: DLH_IER, value: (rate >> 8u32) & 0xFF });
        ops.push(RegOp::Modify { base, offset: LCR, field: lcr_div_lat_access().clear_all() });
        ops.push(RegOp::Store { base, offset: SFE, value: sfe_fifo_enable().set_all().value });
        ops.push(RegOp::Store { base, offset: SRT, value: srt_rcvr_trigger().val(3).value });
        ops.push(RegOp::Store { base, offset: STET, value: stet_tx_empty_trigger().val(1).value });
        proof {
            assert(ops@ =~= init_program(base));
        }
        ops
    }

    /// Wait until the last buffered character has left the wire: poll while
    /// the UART is busy.
    pub fn flush(&self) -> (ops: Vec<RegOp>)
        ensures
            ops@ == seq![RegOp::SpinWhile { base: self.base, offset: USR, field: usr_uart_busy().val(1) }],
    {
        let mut ops: Vec<RegOp> = Vec::new();
        ops.push(RegOp::SpinWhile { base: self.base, offset: USR, field: usr_uart_busy().val(1) });
        ops
    }

    /// Wait until the transmit FIFO is empty.
    pub fn drain(&self) -> (ops: Vec<RegOp>)
        ensures
            ops@ == seq![RegOp::SpinWhile { base: self.base, offset: USR, field: usr_trans_fifo_empty().clear_all() }],
    {
        let mut ops: Vec<RegOp> = Vec::new();
        ops.push(
            RegOp::SpinWhile { base: self.base, offset: USR, field: usr_trans_fifo_empty().clear_all() },
        );
        ops
    }

    /// Send a character once the transmit FIFO has room, and count it.
    pub fn write(&mut self, ch: char) -> (ops: Vec<RegOp>)
        requires
            old(self).chars_written < usize::MAX,
        ensures
            ops@ == write_program(old(self).base, ch),
            final(self).chars_written == old(self).chars_written + 1,
            final(self).chars_read == old(self).chars_read,
            final(self).base == old(self).base,
    {
        let mut ops: Vec<RegOp> = Vec::new();
        ops.push(RegOp::SpinWhile { base: self.base, offset: USR, field: usr_trans_fifo_not_full().val(0) });
        ops.push(RegOp::Store { base: self.base, offset: RBR_THR_DLL, value: ch as u32 });
        self.chars_written = self.chars_written + 1;
        ops
    }

    /// Send every character of `s`, in order (the loader's `fmt::Write`).
    pub fn write_str(&mut self, s: &str) -> (ops: Vec<RegOp>)
        requires
            old(self).chars_written + s@.len() <= usize::MAX,
        ensures
            ops@ == write_str_program(old(self).base, s@),
            final(self).chars_written == old(self).chars_written + s@.len(),
            final(self).chars_read == old(self).chars_read,
            final(self).base == old(self).base,
    {
        let mut ops: Vec<RegOp> = Vec::new();
        let ghost written0 = self.chars_written;
        for c in it: s.chars()
            invariant
                self.base == old(self).base,
                self.chars_read == old(self).chars_read,
                it.seq() == s@,
                self.chars_written == written0 + it.index(),
                written0 == old(self).chars_written,
                written0 + s@.len() <= usize::MAX,
                ops@ == write_str_program(self.base, s@.subrange(0, it.index() as int)),
        {
            proof {
                assert(s@.subrange(0, it.index() + 1).drop_last() =~= s@.subrange(0, it.index() as int));
            }
            let w = self.write(c);
            ops.append(&mut w.clone());
        }
        proof {
            assert(s@.subrange(0, s@.len() as int) =~= s@);
        }
        ops
    }

    /// What a read in `mode` does next, given the value `usr` of the status
    /// register: take a byte when the receive FIFO is not empty; otherwise
    /// give up when not blocking, or poll again.
    pub fn read_step(&self, mode: BlockingMode, usr: u32) -> (r: ReadStep)
        ensures
            !usr_receive_fifo_not_empty().val(0).matches_all(usr) ==> r == ReadStep::Take,
            usr_receive_fifo_not_empty().val(0).matches_all(usr) ==> r == (if mode
                == BlockingMode::NonBlocking {
                ReadStep::NoData
            } else {
                ReadStep::Wait
            }),
    {
        if usr_receive_fifo_not_empty().val(0).matches_all(usr) {
            match mode {
                BlockingMode::NonBlocking => ReadStep::NoData,
                BlockingMode::Blocking => ReadStep::Wait,
            }
        } else {
            ReadStep::Take
        }
    }

    /// Take the byte `data` read from the receive buffer as a character, and
    /// count it.
    pub fn read(&mut self, data: u32) -> (r: char)
        requires
            old(self).chars_read < usize::MAX,
        ensures
            r == byte_char(data),
            final(self).chars_read == old(self).chars_read + 1,
            final(self).chars_written == old(self).chars_written,
            final(self).base == old(self).base,
    {
        self.chars_read = self.chars_read + 1;
        (data as u8) as char
    }

    /// Name of the device this driver handles.
    pub fn compatible(&self) -> (r: &'static str)
        ensures
            r@ == "RK3399 GPIO"@,
    {
        "RK3399 GPIO"
    }
}

/// Every received byte value comes back as the character with that code:
/// the character's code is the low byte of the receive-buffer value, so all
/// 256 byte values survive a transfer.
pub proof fn lemma_byte_char_code(data: u32)
    ensures
        byte_char(data) as u32 == data & 0xFF,
{
    assert((data as u8) as u32 == data & 0xFF) by (bit_vector);
}

} // verus!

verus! {

/// The serial driver: the UART behind its lock.
pub struct Uart {
    pub inner: UartInner,
}

impl Uart {
    /// The UART whose registers start at `mmio_start_addr`.
    pub fn new(mmio_start_addr: usize) -> (r: Uart)
        ensures
            r.inner.base == mmio_start_addr,
            r.inner.chars_written == 0,
            r.inner.chars_read == 0,
    {
        Uart { inner: UartInner::new(mmio_start_addr) }
    }
}

/// A fresh driver for the debug UART, for the panic path.
pub fn panic_uart() -> (r: Uart)
    ensures
        r.inner.base == UART2_BASE,
        r.inner.chars_written == 0,
        r.inner.chars_read == 0,
{
    Uart::new(UART2_BASE)
}

impl Driver for Uart {
    /// Configure the UART (see `UartInner::init`).
    fn init(&self) -> (ops: Vec<RegOp>)
        ensures
            ops@ == init_program(self.inner.base),
    {
        self.inner.init()
    }

    fn get_device_type(&self) -> (r: DeviceType)
        ensures
            r == DeviceType::Serial,
    {
        DeviceType::Serial
    }
}

impl Console for Uart {
    open spec fn room(&self) -> nat {
        (usize::MAX - self.inner.chars_written) as nat
    }

    open spec fn read_room(&self) -> nat {
        (usize::MAX - self.inner.chars_read) as nat
    }

    fn write_char(&mut self, ch: char) -> (ops: Vec<RegOp>)
        ensures
            ops@ == write_program(old(self).inner.base, ch),
            final(self).inner.chars_written == old(self).inner.chars_written + 1,
            final(self).inner.chars_read == old(self).inner.chars_read,
            final(self).inner.base == old(self).inner.base,
    {
        self.inner.write(ch)
    }

    fn write_str(&mut self, s: &str) -> (ops: Vec<RegOp>)
        ensures
            ops@ == write_str_program(old(self).inner.base, s@),
            final(self).inner.chars_written == old(self).inner.chars_written + s@.len(),
            final(self).inner.chars_read == old(self).inner.chars_read,
            final(self).inner.base == old(self).inner.base,
    {
        self.inner.write_str(s)
    }

    fn flush(&self) -> (ops: Vec<RegOp>)
        ensures
            ops@ == seq![RegOp::SpinWhile { base: self.inner.base, offset: USR, field: usr_uart_busy().val(1) }],
    {
        self.inner.flush()
    }

    fn write_drain(&self) -> (ops: Vec<RegOp>)
        ensures
            ops@ == seq![RegOp::SpinWhile { base: self.inner.base, offset: USR, field: usr_trans_fifo_empty().clear_all() }],
    {
        self.inner.drain()
    }

    fn read_step(&self, mode: BlockingMode, usr: u32) -> (r: ReadStep)
        ensures
            r == (if !usr_receive_fifo_not_empty().val(0).matches_all(usr) {
                ReadStep::Take
            } else if mode == BlockingMode::NonBlocking {
                ReadStep::NoData
            } else {
                ReadStep::Wait
            }),
    {
        self.inner.read_step(mode, usr)
    }

    fn read_char(&mut self, data: u32) -> (r: char)
        ensures
            r == byte_char(data),
            final(self).inner.chars_read == old(self).inner.chars_read + 1,
            final(self).inner.chars_written == old(self).inner.chars_written,
            final(self).inner.base == old(self).inner.base,
    {
        self.inner.read(data)
    }
}

} // verus!

verus! {

/// The encodings the UART initialization stores, as numbers.
pub proof fn lemma_uart_encodings()
    ensures
        init_program(0) == seq![
            RegOp::Store { base: 0, offset: SRR, value: 0b111 },
            RegOp::Store { base: 0, offset: DLH_IER, value: 0 },
            RegOp::Store { base: 0, offset: MCR, value: 0 },
            RegOp::Modify { base: 0, offset: LCR, field: FieldSetting { mask: 0xF, value: 0b11 } },
            RegOp::Modify { base: 0, offset: LCR, field: FieldSetting { mask: 0x80, value: 0x80 } },
            RegOp::Store { base: 0, offset: RBR_THR_DLL, value: 1 },
            RegOp::Store { base: 0, offset: DLH_IER, value: 0 },
            RegOp::Modify { base: 0, offset: LCR, field: FieldSetting { mask: 0x80, value: 0 } },
            RegOp::Store { base: 0, offset: SFE, value: 1 },
            RegOp::Store { base: 0, offset: SRT, value: 0b11 },
            RegOp::Store { base: 0, offset: STET, value: 0b01 },
        ],
{
    assert((1u32 << 2usize) == 4u32
        && (1u32 & 1u32) == 1u32
        && (1u32 << 1usize) == 2u32
        && (4u32 | 2u32) == 6u32
        && (4u32 & 4u32) == 4u32
        && (2u32 & 2u32) == 2u32
        && (1u32 << 0usize) == 1u32
        && (6u32 | 1u32) == 7u32
        && (6u32 & 6u32) == 6u32
        && (255u32 << 0usize) == 255u32
        && (0u32 & 255u32) == 0u32
        && (0u32 << 0usize) == 0u32
        && (1u32 << 3usize) == 8u32
        && (0u32 & 1u32) == 0u32
        && (0u32 << 3usize) == 0u32
        && (3u32 << 0usize) == 3u32
        && (3u32 & 3u32) == 3u32
        && (8u32 | 3u32) == 11u32
        && (0u32 & 8u32) == 0u32
        && (0u32 | 3u32) == 3u32
        && (0u32 << 2usize) == 0u32
        && (11u32 | 4u32) == 15u32
        && (3u32 & 11u32) == 3u32
        && (0u32 & 4u32) == 0u32
        && (3u32 | 0u32) == 3u32
        && (1u32 << 7usize) == 128u32
        && (0u32 << 7usize) == 0u32
        && (1u32 & 3u32) == 1u32
        && (1u32 & 0xFFu32) == 1u32 && (1u32 >> 8u32) == 0u32 && (0u32 & 0xFFu32) == 0u32) by (bit_vector);
    assert(init_program(0) =~= seq![
            RegOp::Store { base: 0, offset: SRR, value: 0b111 },
            RegOp::Store { base: 0, offset: DLH_IER, value: 0 },
            RegOp::Store { base: 0, offset: MCR, value: 0 },
            RegOp::Modify { base: 0, offset: LCR, field: FieldSetting { mask: 0xF, value: 0b11 } },
            RegOp::Modify { base: 0, offset: LCR, field: FieldSetting { mask: 0x80, value: 0x80 } },
            RegOp::Store { base: 0, offset: RBR_THR_DLL, value: 1 },
            RegOp::Store { base: 0, offset: DLH_IER, value: 0 },
            RegOp::Modify { base: 0, offset: LCR, field: FieldSetting { mask: 0x80, value: 0 } },
            RegOp::Store { base: 0, offset: SFE, value: 1 },
            RegOp::Store { base: 0, offset: SRT, value: 0b11 },
            RegOp::Store { base: 0, offset: STET, value: 0b01 },
        ]);
}

/// After the initialization, whatever the line control register held, it
/// selects 8 data bits, no parity and one stop bit, with the divisor latch
/// closed again (with the registers taken as plain memory).
pub proof fn lemma_init_line_settings(img: crate::mmio::RegImage, base: usize)
    ensures
        ({
            let lcr = crate::mmio::apply_ops(img, init_program(base))((base, LCR));
            &&& read_spec(3, 0, lcr) == 3
            &&& read_spec(1, 3, lcr) == 0
            &&& read_spec(1, 2, lcr) == 0
            &&& read_spec(1, 7, lcr) == 0
        }),
{
    lemma_uart_encodings();
    let p = init_program(base);
    assert(p[3] == RegOp::Modify { base, offset: LCR, field: FieldSetting { mask: 0xF, value: 0b11 } });
    assert(p[4] == RegOp::Modify { base, offset: LCR, field: FieldSetting { mask: 0x80, value: 0x80 } });
    assert(p[7] == RegOp::Modify { base, offset: LCR, field: FieldSetting { mask: 0x80, value: 0 } });
    reveal_with_fuel(crate::mmio::apply_ops, 12);
    let r = img((base, LCR));
    let lcr = crate::mmio::apply_ops(img, p)((base, LCR));
    assert(lcr == (((((((r & !0xFu32) | (3u32 & 0xFu32)) & !0x80u32) | (0x80u32 & 0x80u32)) & !0x80u32) | (0u32 & 0x80u32))));
    assert((((((((r & !0xFu32) | (3u32 & 0xFu32)) & !0x80u32) | (0x80u32 & 0x80u32)) & !0x80u32) | (0u32 & 0x80u32)) & (3u32 << 0usize)) >> 0usize == 3u32
        && ((((((((r & !0xFu32) | (3u32 & 0xFu32)) & !0x80u32) | (0x80u32 & 0x80u32)) & !0x80u32) | (0u32 & 0x80u32)) & (1u32 << 3usize)) >> 3usize) == 0u32
        && ((((((((r & !0xFu32) | (3u32 & 0xFu32)) & !0x80u32) | (0x80u32 & 0x80u32)) & !0x80u32) | (0u32 & 0x80u32)) & (1u32 << 2usize)) >> 2usize) == 0u32
        && ((((((((r & !0xFu32) | (3u32 & 0xFu32)) & !0x80u32) | (0x80u32 & 0x80u32)) & !0x80u32) | (0u32 & 0x80u32)) & (1u32 << 7usize)) >> 7usize) == 0u32) by (bit_vector);
}

} // verus!
