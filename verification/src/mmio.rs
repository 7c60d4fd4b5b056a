//! Register operations on memory-mapped devices, and what they do to a
//! memory image of the registers.
use vstd::prelude::*;
use crate::bitfield::{FieldSetting, modify_spec, matches_all_spec};

verus! {

/// One access to a 32-bit device register at `base + offset`.
#[derive(Clone, Copy, Debug, PartialEq, Eq, Structural)]
pub enum RegOp {
    /// Store `value` into the register.
    Store { base: usize, offset: usize, value: u32 },
    /// Read the register, replace the bits covered by `field`, store it back.
    Modify { base: usize, offset: usize, field: FieldSetting },
    /// Poll the register for as long as it holds `field` in every bit it covers.
    SpinWhile { base: usize, offset: usize, field: FieldSetting },
    /// For as long as the register holds `cond`, apply `field` to it.
    ModifyWhile { base: usize, offset: usize, cond: FieldSetting, field: FieldSetting },
}

/// A memory image of device registers, addressed by `(base, offset)`.
pub type RegImage = spec_fn((usize, usize)) -> u32;

/// The image after one operation, when the registers behave as plain memory:
/// stores and read-modify-writes change one register, polls change nothing,
/// and a conditional update is applied once if its condition holds.
pub open spec fn apply_op(img: RegImage, op: RegOp) -> RegImage {
    match op {
        RegOp::Store { base, offset, value } => |k: (usize, usize)|
            if k == (base, offset) { value } else { img(k) },
        RegOp::Modify { base, offset, field } => |k: (usize, usize)|
            if k == (base, offset) { modify_spec(field, img(k)) } else { img(k) },
        RegOp::SpinWhile { .. } => img,
        RegOp::ModifyWhile { base, offset, cond, field } => |k: (usize, usize)|
            if k == (base, offset) && matches_all_spec(cond, img(k)) {
                modify_spec(field, img(k))
            } else {
                img(k)
            },
    }
}

/// The image after a whole program of operations, in order.
pub open spec fn apply_ops(img: RegImage, ops: Seq<RegOp>) -> RegImage
    decreases ops.len(),
{
    if ops.len() == 0 {
        img
    } else {
        apply_ops(apply_op(img, ops[0]), ops.subrange(1, ops.len() as int))
    }
}

/// Running two programs one after the other is running their concatenation.
pub proof fn lemma_apply_ops_concat(img: RegImage, a: Seq<RegOp>, b: Seq<RegOp>)
    ensures
        apply_ops(img, a + b) == apply_ops(apply_ops(img, a), b),
    decreases a.len(),
{
    if a.len() == 0 {
        assert(a + b =~= b);
    } else {
        assert((a + b).subrange(1, (a + b).len() as int) =~= a.subrange(1, a.len() as int) + b);
        lemma_apply_ops_concat(apply_op(img, a[0]), a.subrange(1, a.len() as int), b);
    }
}

/// A register that no operation of a program addresses keeps its value.
pub proof fn lemma_apply_ops_untouched(img: RegImage, ops: Seq<RegOp>, k: (usize, usize))
    requires
        forall|i: int| 0 <= i < ops.len() ==> op_target(#[trigger] ops[i]) != k,
    ensures
        apply_ops(img, ops)(k) == img(k),
    decreases ops.len(),
{
    if ops.len() > 0 {
        let rest = ops.subrange(1, ops.len() as int);
        assert forall|i: int| 0 <= i < rest.len() implies op_target(#[trigger] rest[i]) != k by {
            assert(rest[i] == ops[i + 1]);
        }
        assert(op_target(ops[0]) != k);
        lemma_apply_ops_untouched(apply_op(img, ops[0]), rest, k);
    }
}

/// The register an operation addresses.
pub open spec fn op_target(op: RegOp) -> (usize, usize) {
    match op {
        RegOp::Store { base, offset, .. } => (base, offset),
        RegOp::Modify { base, offset, .. } => (base, offset),
        RegOp::SpinWhile { base, offset, .. } => (base, offset),
        RegOp::ModifyWhile { base, offset, .. } => (base, offset),
    }
}

} // verus!
