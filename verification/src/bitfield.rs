//! Bitfield algebra of 32-bit device registers, computed by `tock_registers`.
use vstd::prelude::*;
use tock_registers::fields::{Field, FieldValue};

verus! {

/// A field of a 32-bit register: an unshifted mask and the bit offset of its
/// least significant bit.
#[derive(Clone, Copy, Debug, PartialEq, Eq, Structural)]
pub struct RegField {
    pub mask: u32,
    pub shift: usize,
}

/// A value for one or more fields of a 32-bit register: the shifted mask of
/// the bits it covers and the shifted bits it sets.
#[derive(Clone, Copy, Debug, PartialEq, Eq, Structural)]
pub struct FieldSetting {
    pub mask: u32,
    pub value: u32,
}

/// The setting of field `(mask, shift)` to `value`: both shifted into place,
/// the value cut down to the field's width first.
pub open spec fn setting_spec(mask: u32, shift: usize, value: u32) -> FieldSetting {
    FieldSetting { mask: mask << shift, value: (value & mask) << shift }
}

/// Two settings applied together: the union of their bits.
pub open spec fn plus_spec(a: FieldSetting, b: FieldSetting) -> FieldSetting {
    FieldSetting { mask: a.mask | b.mask, value: (a.value & a.mask) | (b.value & b.mask) }
}

/// A register value after a read-modify-write with `f`: the covered bits
/// replaced, every other bit kept.
pub open spec fn modify_spec(f: FieldSetting, reg: u32) -> u32 {
    (reg & !f.mask) | (f.value & f.mask)
}

/// Whether every bit covered by `f` in `reg` equals the bit `f` sets.
pub open spec fn matches_all_spec(f: FieldSetting, reg: u32) -> bool {
    reg & f.mask == f.value & f.mask
}

/// The value of field `(mask, shift)` in `reg`, shifted down.
pub open spec fn read_spec(mask: u32, shift: usize, reg: u32) -> u32 {
    (reg & (mask << shift)) >> shift
}

/// The value of field `(mask, shift)` in a 64-bit register `reg`, shifted down.
pub open spec fn read64_spec(mask: u64, shift: usize, reg: u64) -> u64 {
    (reg & (mask << shift)) >> shift
}

/// `FieldValue::<u32, ()>::new`: the mask shifted by `shift`, and the value
/// masked then shifted, as its source in tock-registers computes them.
#[verifier::external_body]
fn tock_field_value(mask: u32, shift: usize, value: u32) -> (r: FieldSetting)
    requires
        shift < 32,
    ensures
        r == setting_spec(mask, shift, value),
{
    let fv = FieldValue::<u32, ()>::new(mask, shift, value);
    FieldSetting { mask: fv.mask(), value: fv.value }
}

/// `FieldValue + FieldValue` (tock-registers' `Add`): masks and values or-ed;
/// each operand enters through `FieldValue::new(mask, 0, value)`, which keeps
/// only the value bits inside its mask.
#[verifier::external_body]
fn tock_field_add(a: FieldSetting, b: FieldSetting) -> (r: FieldSetting)
    ensures
        r == plus_spec(a, b),
{
    let s = FieldValue::<u32, ()>::new(a.mask, 0, a.value) + FieldValue::<u32, ()>::new(b.mask, 0, b.value);
    FieldSetting { mask: s.mask(), value: s.value }
}

/// `FieldValue::modify`: `(reg & !mask) | value`, for the value kept inside
/// the mask by `FieldValue::new(mask, 0, value)`.
#[verifier::external_body]
fn tock_field_modify(f: FieldSetting, reg: u32) -> (r: u32)
    ensures
        r == modify_spec(f, reg),
{
    FieldValue::<u32, ()>::new(f.mask, 0, f.value).modify(reg)
}

/// `FieldValue::matches_all`: `reg & mask == value`, for the value kept
/// inside the mask by `FieldValue::new(mask, 0, value)`.
#[verifier::external_body]
fn tock_field_matches_all(f: FieldSetting, reg: u32) -> (r: bool)
    ensures
        r == matches_all_spec(f, reg),
{
    FieldValue::<u32, ()>::new(f.mask, 0, f.value).matches_all(reg)
}

/// `Field::<u32, ()>::read`: `(reg & (mask << shift)) >> shift`.
#[verifier::external_body]
fn tock_field_read(mask: u32, shift: usize, reg: u32) -> (r: u32)
    requires
        shift < 32,
    ensures
        r == read_spec(mask, shift, reg),
{
    Field::<u32, ()>::new(mask, shift).read(reg)
}

/// `Field::<u64, ()>::read`: `(reg & (mask << shift)) >> shift`.
#[verifier::external_body]
fn tock_field_read_u64(mask: u64, shift: usize, reg: u64) -> (r: u64)
    requires
        shift < 64,
    ensures
        r == read64_spec(mask, shift, reg),
{
    Field::<u64, ()>::new(mask, shift).read(reg)
}


impl RegField {
    /// The field with unshifted mask `mask` whose lowest bit is bit `shift`.
    pub fn new(mask: u32, shift: usize) -> (r: RegField)
        ensures
            r.mask == mask,
            r.shift == shift,
    {
        RegField { mask, shift }
    }

    /// The setting of this field to `value` (tock-registers' `Field::val`).
    #[verifier::allow_in_spec]
    pub fn val(&self, value: u32) -> FieldSetting
        requires
            self.shift < 32,
        returns
            setting_spec(self.mask, self.shift, value),
    {
        tock_field_value(self.mask, self.shift, value)
    }

    /// The setting of every bit of this field (`SET`).
    #[verifier::allow_in_spec]
    pub fn set_all(&self) -> FieldSetting
        requires
            self.shift < 32,
        returns
            setting_spec(self.mask, self.shift, self.mask),
    {
        tock_field_value(self.mask, self.shift, self.mask)
    }

    /// The setting of no bit of this field (`CLEAR`).
    #[verifier::allow_in_spec]
    pub fn clear_all(&self) -> FieldSetting
        requires
            self.shift < 32,
        returns
            setting_spec(self.mask, self.shift, 0),
    {
        tock_field_value(self.mask, self.shift, 0)
    }

    /// The value of this field in the register value `reg`.
    #[verifier::allow_in_spec]
    pub fn read(&self, reg: u32) -> u32
        requires
            self.shift < 32,
        returns
            read_spec(self.mask, self.shift, reg),
    {
        tock_field_read(self.mask, self.shift, reg)
    }
}

impl FieldSetting {
    /// Both settings at once (tock-registers' `+` on field values).
    #[verifier::allow_in_spec]
    pub fn plus(self, other: FieldSetting) -> FieldSetting
        returns
            plus_spec(self, other),
    {
        tock_field_add(self, other)
    }

    /// The register value `reg` after a read-modify-write with this setting.
    #[verifier::allow_in_spec]
    pub fn modify(self, reg: u32) -> u32
        returns
            modify_spec(self, reg),
    {
        tock_field_modify(self, reg)
    }

    /// Whether `reg` holds this setting in every bit it covers.
    #[verifier::allow_in_spec]
    pub fn matches_all(&self, reg: u32) -> bool
        returns
            matches_all_spec(*self, reg),
    {
        tock_field_matches_all(*self, reg)
    }
}

/// The value of field `(mask, shift)` of a 64-bit register value `reg`.
pub fn read_field_u64(mask: u64, shift: usize, reg: u64) -> (r: u64)
    requires
        shift < 64,
    ensures
        r == read64_spec(mask, shift, reg),
{
    tock_field_read_u64(mask, shift, reg)
}

/// After a read-modify-write with a setting, the register holds that setting.
pub proof fn lemma_modify_then_matches(f: FieldSetting, reg: u32)
    ensures
        matches_all_spec(f, modify_spec(f, reg)),
{
    let m = f.mask;
    let v = f.value;
    assert((((reg & !m) | (v & m)) & m) == (v & m)) by (bit_vector);
}

/// A read-modify-write leaves every bit outside the setting's mask unchanged.
pub proof fn lemma_modify_keeps_other_bits(f: FieldSetting, reg: u32)
    ensures
        modify_spec(f, reg) & !f.mask == reg & !f.mask,
{
    let m = f.mask;
    let v = f.value;
    assert((((reg & !m) | (v & m)) & !m) == (reg & !m)) by (bit_vector);
}

/// Applying the same setting twice is the same as applying it once.
pub proof fn lemma_modify_idempotent(f: FieldSetting, reg: u32)
    ensures
        modify_spec(f, modify_spec(f, reg)) == modify_spec(f, reg),
{
    let m = f.mask;
    let v = f.value;
    assert((((((reg & !m) | (v & m)) & !m) | (v & m))) == ((reg & !m) | (v & m))) by (bit_vector);
}

/// Combining settings does not depend on their order.
pub proof fn lemma_plus_commutes(a: FieldSetting, b: FieldSetting)
    ensures
        plus_spec(a, b) == plus_spec(b, a),
{
    let (ma, va, mb, vb) = (a.mask, a.value, b.mask, b.value);
    assert((ma | mb) == (mb | ma) && ((va & ma) | (vb & mb)) == ((vb & mb) | (va & ma))) by (bit_vector);
}

/// For settings over disjoint bits, a read-modify-write with their sum is the
/// same as one with each in turn.
pub proof fn lemma_modify_plus_disjoint(a: FieldSetting, b: FieldSetting, reg: u32)
    requires
        a.mask & b.mask == 0,
    ensures
        modify_spec(plus_spec(a, b), reg) == modify_spec(b, modify_spec(a, reg)),
{
    let (ma, va, mb, vb) = (a.mask, a.value, b.mask, b.value);
    assert(ma & mb == 0 ==> ((reg & !(ma | mb)) | (((va & ma) | (vb & mb)) & (ma | mb))) == ((((reg
        & !ma) | (va & ma)) & !mb) | (vb & mb))) by (bit_vector);
}

/// Reading a field back after setting it to `value` gives `value`, cut down
/// to the field's width, whenever the field lies within the register.
pub proof fn lemma_read_after_set(mask: u32, shift: usize, value: u32, reg: u32)
    requires
        shift < 32,
        (mask << shift) >> shift == mask,
    ensures
        read_spec(mask, shift, modify_spec(setting_spec(mask, shift, value), reg)) == value & mask,
{
    let s = shift as u32;
    assert(s < 32 && ((mask << s) >> s) == mask ==> ((((reg & !(mask << s)) | (((value & mask)
        << s) & (mask << s))) & (mask << s)) >> s) == (value & mask)) by (bit_vector);
    assert((mask << shift) == (mask << s) && (((value & mask) << shift) == ((value & mask) << s)));
}

} // verus!
