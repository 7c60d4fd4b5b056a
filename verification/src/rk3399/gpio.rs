//! RK3399 general register files: pin multiplexing.
use vstd::prelude::*;
use crate::bitfield::{RegField, FieldSetting, read_spec, modify_spec};
use crate::mmio::RegOp;

verus! {

/// Offset of `GRF_GPIO4B_IOMUX`.
pub const GPIO4B_IOMUX: usize = 0xE02C;

/// `GPIO4B_IOMUX.SEL_1`: function of pin GPIO4B1 (2 selects `uart2dbga_sout`).
#[verifier::allow_in_spec]
pub fn iomux_sel_1() -> RegField
    returns
        (RegField { mask: 3, shift: 2 }),
{
    RegField { mask: 3, shift: 2 }
}

/// `GPIO4B_IOMUX.SEL_0`: function of pin GPIO4B0 (2 selects `uart2dbga_sin`).
#[verifier::allow_in_spec]
pub fn iomux_sel_0() -> RegField
    returns
        (RegField { mask: 3, shift: 0 }),
{
    RegField { mask: 3, shift: 0 }
}

/// The pin function that routes UART2 to GPIO4B0 and GPIO4B1.
pub const IOMUX_UART2: u32 = 2;

/// The multiplexer setting that routes UART2's receive and transmit lines
/// to GPIO4B0 and GPIO4B1: `SEL_0` and `SEL_1` (bits 0 to 3) set to the
/// UART2 function, every other field of the register left as it was.
pub open spec fn uart2_iomux_setting() -> FieldSetting {
    iomux_sel_0().val(IOMUX_UART2).plus(iomux_sel_1().val(IOMUX_UART2))
}

/// RK3399 GRF driver state: the base of its register block.
pub struct GPIOGRFInner {
    pub base: usize,
}

impl GPIOGRFInner {
    /// The GRF whose registers start at `mmio_start_addr`.
    pub fn new(mmio_start_addr: usize) -> (r: GPIOGRFInner)
        ensures
            r.base == mmio_start_addr,
    {
        GPIOGRFInner { base: mmio_start_addr }
    }

    /// The GRF needs no initialization: the empty program.
    pub fn init(&self) -> (ops: Vec<RegOp>)
        ensures
            ops@ == Seq::<RegOp>::empty(),
    {
        Vec::new()
    }

    /// Route UART2 to pins GPIO4B0 and GPIO4B1: a read-modify-write of the
    /// multiplexer register that changes the two pins' fields only.
    pub fn map_uart2(&mut self) -> (ops: Vec<RegOp>)
        ensures
            ops@ == seq![RegOp::Modify { base: old(self).base, offset: GPIO4B_IOMUX, field: uart2_iomux_setting() }],
            *final(self) == *old(self),
    {
        let field = iomux_sel_0().val(IOMUX_UART2).plus(iomux_sel_1().val(IOMUX_UART2));
        let mut ops: Vec<RegOp> = Vec::new();
        ops.push(RegOp::Modify { base: self.base, offset: GPIO4B_IOMUX, field });
        ops
    }

    /// Name of the device this driver handles.
    pub fn compatible(&self) -> (r: &'static str)
        ensures
            r@ == "RK3399 GPIO"@,
    {
        "RK3399 GPIO"
    }
}

/// After the UART2 routing is applied to any value of the multiplexer
/// register, the register is `(reg & !0xF) | 0xA`: both pins read back the
/// UART2 function, and every other bit (the other pins' fields among them)
/// keeps its value.
pub proof fn lemma_uart2_routing(reg: u32)
    ensures
        modify_spec(uart2_iomux_setting(), reg) == (reg & 0xFFFF_FFF0u32) | 0xAu32,
        read_spec(3, 0, modify_spec(uart2_iomux_setting(), reg)) == IOMUX_UART2,
        read_spec(3, 2, modify_spec(uart2_iomux_setting(), reg)) == IOMUX_UART2,
        modify_spec(uart2_iomux_setting(), reg) >> 4u32 == reg >> 4u32,
{
    let f = uart2_iomux_setting();
    let m = f.mask;
    let v = f.value;
    assert(m == (3u32 << 0usize) | (3u32 << 2usize));
    assert(v == ((((2u32 & 3u32) << 0usize) & (3u32 << 0usize)) | (((2u32 & 3u32) << 2usize) & (
    3u32 << 2usize))));
    assert(m == 0xFu32 && v == 0xAu32) by (bit_vector)
        requires
            m == (3u32 << 0usize) | (3u32 << 2usize),
            v == ((((2u32 & 3u32) << 0usize) & (3u32 << 0usize)) | (((2u32 & 3u32) << 2usize) & (
            3u32 << 2usize))),
    ;
    let r = modify_spec(f, reg);
    assert(r == (reg & !m) | (v & m));
    assert(((((reg & !0xFu32) | (0xAu32 & 0xFu32)) & (3u32 << 0usize)) >> 0usize) == 2u32
        && ((((reg & !0xFu32) | (0xAu32 & 0xFu32)) & (3u32 << 2usize)) >> 2usize) == 2u32
        && (((reg & !0xFu32) | (0xAu32 & 0xFu32)) >> 4u32) == reg >> 4u32
        && ((reg & !0xFu32) | (0xAu32 & 0xFu32)) == (reg & 0xFFFF_FFF0u32) | 0xAu32) by (bit_vector);
}

} // verus!
