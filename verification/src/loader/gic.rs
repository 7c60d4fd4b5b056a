//! GICv3 interrupt controller of the RK3399: distributor and redistributors.
use vstd::prelude::*;
use crate::bitfield::{RegField, FieldSetting, read64_spec, read_field_u64};
use crate::mmio::RegOp;

verus! {

/// Distributor register offsets.
pub const GICD_CTLR: usize = 0x0000;
pub const GICD_TYPER: usize = 0x0004;
pub const GICD_IGROUPR: usize = 0x0080;
pub const GICD_ISENABLER: usize = 0x0100;
pub const GICD_IGRPMODR: usize = 0x0D00;

/// Redistributor register offsets.
pub const GICR_TYPER: usize = 0x0008;
pub const GICR_WAKER: usize = 0x0014;
pub const GICR_ISENABLER0: usize = 0x10100;

/// Number of redistributors (one per core).
pub const NR_REDISTRIBUTORS: usize = 6;
/// Distance between two redistributors' register frames.
pub const GICR_STRIDE: usize = 0x2000;

/// `GICD_CTLR.ARE_NS`: affinity routing for the non-secure state.
#[verifier::allow_in_spec]
pub fn ctlr_are_ns() -> RegField
    returns
        (RegField { mask: 0xF, shift: 5 }),
{
    RegField { mask: 0xF, shift: 5 }
}

/// `GICD_CTLR.ARE_S`: affinity routing for the secure state.
#[verifier::allow_in_spec]
pub fn ctlr_are_s() -> RegField
    returns
        (RegField { mask: 0xF, shift: 4 }),
{
    RegField { mask: 0xF, shift: 4 }
}

/// `GICD_CTLR.DS`: disable security.
#[verifier::allow_in_spec]
pub fn ctlr_ds() -> RegField
    returns
        (RegField { mask: 1, shift: 6 }),
{
    RegField { mask: 1, shift: 6 }
}

/// `GICD_CTLR.EnableGrp1S`.
#[verifier::allow_in_spec]
pub fn ctlr_enable_grp1s() -> RegField
    returns
        (RegField { mask: 1, shift: 2 }),
{
    RegField { mask: 1, shift: 2 }
}

/// `GICD_CTLR.EnableGrp1NS`.
#[verifier::allow_in_spec]
pub fn ctlr_enable_grp1ns() -> RegField
    returns
        (RegField { mask: 1, shift: 1 }),
{
    RegField { mask: 1, shift: 1 }
}

/// `GICD_CTLR.EnableGrp0`.
#[verifier::allow_in_spec]
pub fn ctlr_enable_grp0() -> RegField
    returns
        (RegField { mask: 1, shift: 0 }),
{
    RegField { mask: 1, shift: 0 }
}

/// `GICD_TYPER.ITLinesNumber`.
#[verifier::allow_in_spec]
pub fn typer_it_lines_number() -> RegField
    returns
        (RegField { mask: 0x1F, shift: 0 }),
{
    RegField { mask: 0x1F, shift: 0 }
}

/// `GICR_WAKER.ChildrenAsleep`: 1 while the core's interfaces are quiescent.
#[verifier::allow_in_spec]
pub fn waker_children_asleep() -> RegField
    returns
        (RegField { mask: 1, shift: 2 }),
{
    RegField { mask: 1, shift: 2 }
}

/// `GICR_WAKER.ProcessorSleep`: 1 while the core is entering a low-power state.
#[verifier::allow_in_spec]
pub fn waker_processor_sleep() -> RegField
    returns
        (RegField { mask: 1, shift: 1 }),
{
    RegField { mask: 1, shift: 1 }
}

/// `GICR_TYPER.Affinity_Value`, as the loader declares it: 32 bits at bit 31.
pub const AFFINITY_MASK: u64 = 0xFFFF_FFFF;
pub const AFFINITY_SHIFT: usize = 31;

/// The value written to `GICD_CTLR`: `ARE_NS` and `ARE_S` set, the three
/// group enables set, `DS` cleared. `ARE_NS` is declared four bits wide at
/// bit 5, so setting it also sets bit 6 (`DS`): the value is `0x1F7`, with
/// `DS` set in the end.
pub open spec fn ctlr_value() -> u32 {
    ctlr_are_ns().set_all().plus(ctlr_are_s().set_all()).plus(ctlr_enable_grp1s().set_all()).plus(
        ctlr_enable_grp1ns().set_all(),
    ).plus(ctlr_enable_grp0().set_all()).plus(ctlr_ds().clear_all()).value
}

/// The affinity of the running core, `Aff3:Aff2:Aff1:Aff0`, as the loader
/// forms it from `MPIDR_EL1`.
pub open spec fn core_affinity(mpidr: u64) -> u64 {
    (((mpidr >> 32u64) & 0xF) << 24u64) | (mpidr & 0x0FFF)
}

/// The affinity a redistributor reports in its `GICR_TYPER` value, as the
/// loader compares it.
pub open spec fn redistributor_affinity(typer: u64) -> u64 {
    read64_spec(AFFINITY_MASK, AFFINITY_SHIFT, typer) >> 32u64
}

/// Whether redistributor `i` serves the core with affinity `a`.
pub open spec fn serves(a: u64, typers: Seq<u64>, i: int) -> bool {
    redistributor_affinity(typers[i]) == a
}

/// The first redistributor at index `i` or after that serves affinity `a`.
pub open spec fn first_serving_from(a: u64, typers: Seq<u64>, i: nat) -> nat
    decreases NR_REDISTRIBUTORS - i,
{
    if i >= NR_REDISTRIBUTORS {
        NR_REDISTRIBUTORS as nat
    } else if serves(a, typers, i as int) {
        i
    } else {
        first_serving_from(a, typers, i + 1)
    }
}

/// The stores that put every interrupt line of the first `n` groups of 32
/// in group 1 (non-secure).
pub open spec fn group_program(gicd: usize, n: nat) -> Seq<RegOp>
    decreases n,
{
    if n == 0 {
        Seq::empty()
    } else {
        group_program(gicd, (n - 1) as nat) + seq![
            RegOp::Store { base: gicd, offset: (GICD_IGROUPR + 4 * (n - 1)) as usize, value: !0u32 },
            RegOp::Store { base: gicd, offset: (GICD_IGRPMODR + 4 * (n - 1)) as usize, value: !0u32 },
        ]
    }
}

/// The controller's register frames: the distributor and one redistributor
/// per core.
pub struct GICInner {
    pub gicd: usize,
    pub gicr: [usize; 6],
}

/// The program that brings the controller up for the core whose
/// redistributor is `cpu`, with `lines` groups of 32 interrupt lines.
pub open spec fn init_program(gic: GICInner, cpu: int, lines: nat) -> Seq<RegOp> {
    seq![
        RegOp::Store { base: gic.gicd, offset: GICD_CTLR, value: ctlr_value() },
        RegOp::Modify { base: gic.gicr@[0], offset: GICR_WAKER, field: waker_processor_sleep().clear_all() },
        RegOp::ModifyWhile {
            base: gic.gicr@[cpu],
            offset: GICR_WAKER,
            cond: waker_children_asleep().set_all(),
            field: waker_children_asleep().clear_all(),
        },
    ] + group_program(gic.gicd, lines) + seq![
        RegOp::Store { base: gic.gicr@[cpu], offset: GICR_ISENABLER0, value: 1 },
    ]
}

impl GICInner {
    /// The controller with its distributor at `gicd_start_addr` and its six
    /// redistributors every 0x2000 bytes from `gicr_start_addr`.
    pub fn new(gicd_start_addr: usize, gicr_start_addr: usize) -> (r: GICInner)
        requires
            gicr_start_addr + 5 * GICR_STRIDE <= usize::MAX,
        ensures
            r.gicd == gicd_start_addr,
            forall|i: int| 0 <= i < 6 ==> r.gicr@[i] == gicr_start_addr + i * GICR_STRIDE,
    {
        GICInner {
            gicd: gicd_start_addr,
            gicr: [
                gicr_start_addr + 0x0_000,
                gicr_start_addr + 0x2_000,
                gicr_start_addr + 0x4_000,
                gicr_start_addr + 0x6_000,
                gicr_start_addr + 0x8_000,
                gicr_start_addr + 0xA_000,
            ],
        }
    }

    /// Bring the controller up for the running core: affinity routing and
    /// all groups on at the distributor, the first redistributor woken, the
    /// running core's redistributor found by affinity and its interfaces
    /// woken, every interrupt line the distributor reports put in group 1,
    /// and SGI 0 enabled. `mpidr` is the value of `MPIDR_EL1`,
    /// `redist_typers` the `GICR_TYPER` value of each redistributor, and
    /// `gicd_typer` the value of `GICD_TYPER`.
    pub fn init(&self, mpidr: u64, redist_typers: &[u64; 6], gicd_typer: u32) -> (ops: Vec<RegOp>)
        requires
            exists|i: int| 0 <= i < 6 && serves(core_affinity(mpidr), redist_typers@, i),
        ensures
            ops@ == init_program(
                *self,
                first_serving_from(core_affinity(mpidr), redist_typers@, 0) as int,
                typer_it_lines_number().read(gicd_typer) as nat,
            ),
            first_serving_from(core_affinity(mpidr), redist_typers@, 0) < 6,
    {
        let mut ops: Vec<RegOp> = Vec::new();
        let ctlr = ctlr_are_ns().set_all().plus(ctlr_are_s().set_all()).plus(
            ctlr_enable_grp1s().set_all(),
        ).plus(ctlr_enable_grp1ns().set_all()).plus(ctlr_enable_grp0().set_all()).plus(
            ctlr_ds().clear_all(),
        );
        ops.push(RegOp::Store { base: self.gicd, offset: GICD_CTLR, value: ctlr.value });
        ops.push(
            RegOp::Modify {
                base: self.gicr[0],
                offset: GICR_WAKER,
                field: waker_processor_sleep().clear_all(),
            },
        );
        let a: u64 = ((mpidr >> 32) & 0xF) << 24 | (mpidr & 0x0FFF);
        let ghost typers = redist_typers@;
        let mut cpu_num: usize = 0;
        loop
            invariant
                cpu_num < 6,
                a == core_affinity(mpidr),
                typers == redist_typers@,
                exists|i: int| cpu_num <= i < 6 && serves(a, typers, i),
                first_serving_from(a, typers, cpu_num as nat) == first_serving_from(a, typers, 0),
            ensures
                cpu_num < 6,
                serves(a, typers, cpu_num as int),
                first_serving_from(a, typers, cpu_num as nat) == first_serving_from(a, typers, 0),
            decreases 6 - cpu_num,
        {
            let reported = read_field_u64(AFFINITY_MASK, AFFINITY_SHIFT, redist_typers[cpu_num]) >> 32;
            if a == reported {
                break;
            }
            cpu_num = cpu_num + 1;
        }
        let ghost cpu = cpu_num;
        assert(first_serving_from(a, typers, cpu as nat) == cpu);
        ops.push(
            RegOp::ModifyWhile {
                base: self.gicr[cpu_num],
                offset: GICR_WAKER,
                cond: waker_children_asleep().set_all(),
                field: waker_children_asleep().clear_all(),
            },
        );
        let nums = typer_it_lines_number().read(gicd_typer) as usize;
        assert(nums < 32) by (bit_vector)
            requires
                nums == (gicd_typer & (0x1Fu32 << 0usize)) >> 0usize,
        ;
        let ghost prefix = ops@;
        let mut i: usize = 0;
        while i < nums
            invariant
                i <= nums,
                nums < 32,
                ops@ == prefix + group_program(self.gicd, i as nat),
            decreases nums - i,
        {
            ops.push(RegOp::Store { base: self.gicd, offset: GICD_IGROUPR + 4 * i, value: !0u32 });
            ops.push(RegOp::Store { base: self.gicd, offset: GICD_IGRPMODR + 4 * i, value: !0u32 });
            i = i + 1;
            proof {
                assert(ops@ =~= prefix + group_program(self.gicd, i as nat));
            }
        }
        ops.push(RegOp::Store { base: self.gicr[cpu_num], offset: GICR_ISENABLER0, value: 1 });
        proof {
            assert(ops@ =~= init_program(*self, cpu as int, nums as nat));
        }
        ops
    }
}

} // verus!

verus! {

/// The encodings the controller's initialization uses, as numbers:
/// `GICD_CTLR` gets `0x1F7` (`ARE_NS` and `ARE_S` set over bits 4 to 8,
/// which takes in `DS` at bit 6, and the three group enables set).
pub proof fn lemma_gic_encodings()
    ensures
        ctlr_value() == 0x1F7,
        waker_processor_sleep().clear_all() == (FieldSetting { mask: 0b010, value: 0 }),
        waker_children_asleep().set_all() == (FieldSetting { mask: 0b100, value: 0b100 }),
        waker_children_asleep().clear_all() == (FieldSetting { mask: 0b100, value: 0 }),
{
    assert((15u32 << 5usize) == 480u32
        && (15u32 & 15u32) == 15u32
        && (15u32 << 4usize) == 240u32
        && (480u32 | 240u32) == 496u32
        && (480u32 & 480u32) == 480u32
        && (240u32 & 240u32) == 240u32
        && (1u32 << 2usize) == 4u32
        && (1u32 & 1u32) == 1u32
        && (496u32 | 4u32) == 500u32
        && (496u32 & 496u32) == 496u32
        && (4u32 & 4u32) == 4u32
        && (1u32 << 1usize) == 2u32
        && (500u32 | 2u32) == 502u32
        && (500u32 & 500u32) == 500u32
        && (2u32 & 2u32) == 2u32
        && (1u32 << 0usize) == 1u32
        && (502u32 | 1u32) == 503u32
        && (502u32 & 502u32) == 502u32
        && (1u32 << 6usize) == 64u32
        && (0u32 & 1u32) == 0u32
        && (0u32 << 6usize) == 0u32
        && (503u32 | 64u32) == 503u32
        && (503u32 & 503u32) == 503u32
        && (0u32 & 64u32) == 0u32
        && (503u32 | 0u32) == 503u32
        && (0u32 << 1usize) == 0u32
        && (0u32 << 2usize) == 0u32) by (bit_vector);
}

} // verus!

verus! {

/// The affinity the loader reads from any redistributor is zero: the field
/// is read as the 32 bits from bit 31, and that value is then shifted right
/// by 32. So the running core's redistributor
/// is found only when the core's own affinity is zero, and then it is the
/// first one.
pub proof fn lemma_reported_affinity_is_zero(typer: u64)
    ensures
        redistributor_affinity(typer) == 0,
{
    assert(((typer & (0xFFFF_FFFFu64 << 31usize)) >> 31usize) >> 32u64 == 0u64) by (bit_vector);
}

} // verus!

verus! {

/// Every line group the group program reaches is put in group 1, with
/// group modifier set (with the registers taken as plain memory).
pub proof fn lemma_group_program_sets_groups(img: crate::mmio::RegImage, gicd: usize, n: nat, i: nat)
    requires
        i < n <= 32,
    ensures
        crate::mmio::apply_ops(img, group_program(gicd, n))((gicd, (GICD_IGROUPR + 4 * i) as usize)) == !0u32,
        crate::mmio::apply_ops(img, group_program(gicd, n))((gicd, (GICD_IGRPMODR + 4 * i) as usize)) == !0u32,
    decreases n,
{
    let prev = group_program(gicd, (n - 1) as nat);
    let tail = seq![
        RegOp::Store { base: gicd, offset: (GICD_IGROUPR + 4 * (n - 1)) as usize, value: !0u32 },
        RegOp::Store { base: gicd, offset: (GICD_IGRPMODR + 4 * (n - 1)) as usize, value: !0u32 },
    ];
    assert(group_program(gicd, n) == prev + tail);
    crate::mmio::lemma_apply_ops_concat(img, prev, tail);
    let mid = crate::mmio::apply_ops(img, prev);
    reveal_with_fuel(crate::mmio::apply_ops, 3);
    if i < n - 1 {
        lemma_group_program_sets_groups(img, gicd, (n - 1) as nat, i);
    }
}

/// What the controller's initialization leaves in the registers (taken as
/// plain memory): `GICD_CTLR` holds `0x1F7`, every line group the
/// distributor reports is in group 1, and the running core's SGI 0 is
/// enabled.
pub proof fn lemma_init_effect(img: crate::mmio::RegImage, gic: GICInner, cpu: int, lines: nat)
    requires
        0 <= cpu < 6,
        lines < 32,
    ensures
        ({
            let after = crate::mmio::apply_ops(img, init_program(gic, cpu, lines));
            &&& after((gic.gicd, GICD_CTLR)) == 0x1F7
            &&& after((gic.gicr@[cpu], GICR_ISENABLER0)) == 1
            &&& forall|i: nat| i < lines ==> #[trigger] after((gic.gicd, (GICD_IGROUPR + 4 * i) as usize)) == !0u32
                && after((gic.gicd, (GICD_IGRPMODR + 4 * i) as usize)) == !0u32
        }),
{
    lemma_gic_encodings();
    let head = seq![
        RegOp::Store { base: gic.gicd, offset: GICD_CTLR, value: ctlr_value() },
        RegOp::Modify { base: gic.gicr@[0], offset: GICR_WAKER, field: waker_processor_sleep().clear_all() },
        RegOp::ModifyWhile {
            base: gic.gicr@[cpu],
            offset: GICR_WAKER,
            cond: waker_children_asleep().set_all(),
            field: waker_children_asleep().clear_all(),
        },
    ];
    let groups = group_program(gic.gicd, lines);
    let last = seq![RegOp::Store { base: gic.gicr@[cpu], offset: GICR_ISENABLER0, value: 1 }];
    assert(init_program(gic, cpu, lines) == head + groups + last);
    crate::mmio::lemma_apply_ops_concat(img, head + groups, last);
    crate::mmio::lemma_apply_ops_concat(img, head, groups);
    let i1 = crate::mmio::apply_ops(img, head);
    let i2 = crate::mmio::apply_ops(i1, groups);
    let after = crate::mmio::apply_ops(i2, last);
    reveal_with_fuel(crate::mmio::apply_ops, 4);
    assert(i1((gic.gicd, GICD_CTLR)) == 0x1F7);
    lemma_group_program_targets(gic.gicd, lines);
    crate::mmio::lemma_apply_ops_untouched(i1, groups, (gic.gicd, GICD_CTLR));
    assert(after((gic.gicd, GICD_CTLR)) == 0x1F7);
    assert(after((gic.gicr@[cpu], GICR_ISENABLER0)) == 1);
    assert forall|i: nat| i < lines implies #[trigger] after((gic.gicd, (GICD_IGROUPR + 4 * i) as usize))
        == !0u32 && after((gic.gicd, (GICD_IGRPMODR + 4 * i) as usize)) == !0u32 by {
        lemma_group_program_sets_groups(i1, gic.gicd, lines, i);
    }
    assert(crate::mmio::apply_ops(img, init_program(gic, cpu, lines)) == after);
    assert forall|i: nat| i < lines implies #[trigger] crate::mmio::apply_ops(img, init_program(gic, cpu, lines))(
        (gic.gicd, (GICD_IGROUPR + 4 * i) as usize)) == !0u32 && crate::mmio::apply_ops(img, init_program(gic, cpu, lines))(
        (gic.gicd, (GICD_IGRPMODR + 4 * i) as usize)) == !0u32 by {
        assert(after((gic.gicd, (GICD_IGROUPR + 4 * i) as usize)) == !0u32);
    }
}

/// The group program only stores into the distributor's group registers,
/// whose offsets lie between `0x80` and `0xE00`.
proof fn lemma_group_program_targets(gicd: usize, n: nat)
    requires
        n <= 32,
    ensures
        forall|i: int| 0 <= i < group_program(gicd, n).len() ==> {
            let t = crate::mmio::op_target(#[trigger] group_program(gicd, n)[i]);
            t.0 == gicd && GICD_IGROUPR <= t.1 < 0xE00
        },
        group_program(gicd, n).len() == 2 * n,
    decreases n,
{
    if n > 0 {
        lemma_group_program_targets(gicd, (n - 1) as nat);
        let prev = group_program(gicd, (n - 1) as nat);
        assert forall|i: int| 0 <= i < group_program(gicd, n).len() implies {
            let t = crate::mmio::op_target(#[trigger] group_program(gicd, n)[i]);
            t.0 == gicd && GICD_IGROUPR <= t.1 < 0xE00
        } by {
            if i < prev.len() {
                assert(group_program(gicd, n)[i] == prev[i]);
            }
        }
    }
}

} // verus!
