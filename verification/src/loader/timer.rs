//! RK3399 general-purpose timer.
use vstd::prelude::*;
use crate::bitfield::{RegField, FieldSetting};
use crate::mmio::RegOp;
use crate::rk3399::map::{timer_base, timer_base_spec, valid_timer_num};
use crate::loader::drivers::{DeviceType, Driver};

verus! {

/// Offsets of the timer registers.
pub const LOAD_COUNT0: usize = 0x00;
pub const LOAD_COUNT1: usize = 0x04;
pub const CURRENT_VALUE0: usize = 0x08;
pub const CURRENT_VALUE1: usize = 0x0C;
pub const LOAD_COUNT2: usize = 0x10;
pub const LOAD_COUNT3: usize = 0x14;
pub const INT_STATUS: usize = 0x18;
pub const CONTROL_REG: usize = 0x1C;

/// Timer ticks per microsecond (24 MHz input clock).
pub const TICKS_PER_US: u64 = 24;

/// Low 32 bits of a 64-bit count.
pub open spec fn low_word(c: u64) -> u32 {
    (c & 0xFFFF_FFFF) as u32
}

/// High 32 bits of a 64-bit count.
pub open spec fn high_word(c: u64) -> u32 {
    ((c >> 32) & 0xFFFF_FFFF) as u32
}

/// The 64-bit value whose halves are `low` and `high`.
pub open spec fn join_words(low: u32, high: u32) -> u64 {
    ((high as u64) << 32) | (low as u64)
}

/// Split a 64-bit count into its low and high words.
pub fn split_count(c: u64) -> (r: (u32, u32))
    ensures
        r.0 == low_word(c),
        r.1 == high_word(c),
        join_words(r.0, r.1) == c,
{
    let lo = (c & 0xFFFF_FFFF) as u32;
    let hi = ((c >> 32) & 0xFFFF_FFFF) as u32;
    proof {
        lemma_join_split(c);
    }
    (lo, hi)
}

/// Joining the halves of a count gives the count back.
pub proof fn lemma_join_split(c: u64)
    ensures
        join_words(low_word(c), high_word(c)) == c,
{
    assert(((((((c >> 32u64) & 0xFFFF_FFFFu64) as u32) as u64) << 32u64) | ((((c & 0xFFFF_FFFFu64)
        as u32) as u64))) == c) by (bit_vector);
}

/// Splitting a joined value gives its halves back.
pub proof fn lemma_split_join(low: u32, high: u32)
    ensures
        low_word(join_words(low, high)) == low,
        high_word(join_words(low, high)) == high,
{
    assert((((((high as u64) << 32u64) | (low as u64)) & 0xFFFF_FFFFu64) as u32) == low
        && (((((((high as u64) << 32u64) | (low as u64)) >> 32u64) & 0xFFFF_FFFFu64) as u32)
        == high)) by (bit_vector);
}

/// `CONTROL_REG.TIMER_EN`: 1 runs the timer, 0 stops it.
#[verifier::allow_in_spec]
pub fn timer_en() -> RegField
    returns
        (RegField { mask: 1, shift: 0 }),
{
    RegField { mask: 1, shift: 0 }
}

/// `CONTROL_REG.TIMER_MODE`: 1 counts to the user-defined count, 0 runs free.
#[verifier::allow_in_spec]
pub fn timer_mode() -> RegField
    returns
        (RegField { mask: 1, shift: 1 }),
{
    RegField { mask: 1, shift: 1 }
}

/// `CONTROL_REG.INT_EN`: 1 unmasks the timer interrupt, 0 masks it.
#[verifier::allow_in_spec]
pub fn int_en() -> RegField
    returns
        (RegField { mask: 1, shift: 2 }),
{
    RegField { mask: 1, shift: 2 }
}

/// `INT_STATUS.INT_PD`: the interrupt-pending flag; writing 1 clears it.
#[verifier::allow_in_spec]
pub fn int_pd() -> RegField
    returns
        (RegField { mask: 1, shift: 0 }),
{
    RegField { mask: 1, shift: 0 }
}

/// `CONTROL_REG` for a delay: stopped, counting to the user-defined count,
/// interrupt masked.
pub open spec fn control_oneshot_masked() -> u32 {
    timer_en().val(0).plus(timer_mode().val(1)).plus(int_en().val(0)).value
}

/// `CONTROL_REG` for an interrupt: stopped, free running, interrupt unmasked.
pub open spec fn control_free_running_irq() -> u32 {
    timer_en().val(0).plus(timer_mode().val(0)).plus(int_en().val(1)).value
}

/// The stores that zero the initial count and load the compare count with
/// `c` ticks.
pub open spec fn load_counts(base: usize, c: u64) -> Seq<RegOp> {
    seq![
        RegOp::Store { base, offset: LOAD_COUNT2, value: 0 },
        RegOp::Store { base, offset: LOAD_COUNT3, value: 0 },
        RegOp::Store { base, offset: LOAD_COUNT0, value: low_word(c) },
        RegOp::Store { base, offset: LOAD_COUNT1, value: high_word(c) },
    ]
}

/// The program of a busy-wait delay of `cnt` microseconds.
pub open spec fn delay_program(base: usize, cnt: u64) -> Seq<RegOp> {
    seq![RegOp::Store { base, offset: CONTROL_REG, value: control_oneshot_masked() }]
        + load_counts(base, (cnt * TICKS_PER_US) as u64)
        + seq![
            RegOp::Modify { base, offset: CONTROL_REG, field: timer_en().val(1) },
            RegOp::SpinWhile { base, offset: INT_STATUS, field: int_pd().val(0) },
            RegOp::Store { base, offset: INT_STATUS, value: 1 },
            RegOp::Modify { base, offset: CONTROL_REG, field: timer_en().val(0) },
        ]
}

/// The program that initializes the timer: stopped, user-defined count,
/// interrupt masked, compare count zero.
pub open spec fn init_program(base: usize) -> Seq<RegOp> {
    seq![
        RegOp::Store { base, offset: CONTROL_REG, value: control_oneshot_masked() },
        RegOp::Store { base, offset: LOAD_COUNT0, value: 0 },
        RegOp::Store { base, offset: LOAD_COUNT1, value: 0 },
    ]
}

/// The program that acknowledges a pending timer interrupt.
pub open spec fn clear_irq_program(base: usize) -> Seq<RegOp> {
    seq![RegOp::Store { base, offset: INT_STATUS, value: int_pd().set_all().value }]
}

/// The program that raises an interrupt after `cnt` microseconds.
pub open spec fn irq_delay_program(base: usize, cnt: u64) -> Seq<RegOp> {
    clear_irq_program(base)
        + seq![RegOp::Store { base, offset: CONTROL_REG, value: control_free_running_irq() }]
        + load_counts(base, (cnt * TICKS_PER_US) as u64)
        + seq![RegOp::Modify { base, offset: CONTROL_REG, field: timer_en().val(1) }]
}

/// Append the stores of `load_counts(base, c)` to `ops`.
fn push_load_counts(ops: &mut Vec<RegOp>, base: usize, c: u64)
    ensures
        final(ops)@ == old(ops)@ + load_counts(base, c),
{
    let (lo, hi) = split_count(c);
    ops.push(RegOp::Store { base, offset: LOAD_COUNT2, value: 0 });
    ops.push(RegOp::Store { base, offset: LOAD_COUNT3, value: 0 });
    ops.push(RegOp::Store { base, offset: LOAD_COUNT0, value: lo });
    ops.push(RegOp::Store { base, offset: LOAD_COUNT1, value: hi });
}

/// RK3399 timer driver state: the base of its register block.
pub struct TimerInner {
    pub base: usize,
}

impl TimerInner {
    /// The timer whose registers start at `mmio_start_addr`.
    pub fn new(mmio_start_addr: usize) -> (r: TimerInner)
        ensures
            r.base == mmio_start_addr,
    {
        TimerInner { base: mmio_start_addr }
    }

    /// Disable the timer, select the user-defined count mode with its
    /// interrupt masked, and zero the compare count.
    pub fn init(&self) -> (ops: Vec<RegOp>)
        ensures
            ops@ == init_program(self.base),
    {
        let control = timer_en().val(0).plus(timer_mode().val(1)).plus(int_en().val(0));
        let mut ops: Vec<RegOp> = Vec::new();
        ops.push(RegOp::Store { base: self.base, offset: CONTROL_REG, value: control.value });
        ops.push(RegOp::Store { base: self.base, offset: LOAD_COUNT0, value: 0 });
        ops.push(RegOp::Store { base: self.base, offset: LOAD_COUNT1, value: 0 });
        proof {
            assert(ops@ =~= init_program(self.base));
        }
        ops
    }

    /// Busy-wait `cnt` microseconds: load the compare count with `cnt * 24`
    /// ticks, start the timer, poll until the interrupt flag rises, then
    /// acknowledge it and stop the timer.
    pub fn delay_us(&self, cnt: u64) -> (ops: Vec<RegOp>)
        requires
            cnt * TICKS_PER_US <= u64::MAX,
        ensures
            ops@ == delay_program(self.base, cnt),
    {
        let control = timer_en().val(0).plus(timer_mode().val(1)).plus(int_en().val(0));
        let mut ops: Vec<RegOp> = Vec::new();
        ops.push(RegOp::Store { base: self.base, offset: CONTROL_REG, value: control.value });
        let ticks = cnt * TICKS_PER_US;
        push_load_counts(&mut ops, self.base, ticks);
        ops.push(RegOp::Modify { base: self.base, offset: CONTROL_REG, field: timer_en().val(1) });
        ops.push(RegOp::SpinWhile { base: self.base, offset: INT_STATUS, field: int_pd().val(0) });
        ops.push(RegOp::Store { base: self.base, offset: INT_STATUS, value: 1 });
        ops.push(RegOp::Modify { base: self.base, offset: CONTROL_REG, field: timer_en().val(0) });
        proof {
            assert(ops@ =~= delay_program(self.base, cnt));
        }
        ops
    }

    /// Arm the timer to raise its interrupt after `cnt` microseconds, free
    /// running, after acknowledging any pending interrupt.
    pub fn irq_delay_us(&self, cnt: u64) -> (ops: Vec<RegOp>)
        requires
            cnt * TICKS_PER_US <= u64::MAX,
        ensures
            ops@ == irq_delay_program(self.base, cnt),
    {
        let mut ops = self.clear_irq();
        let control = timer_en().val(0).plus(timer_mode().val(0)).plus(int_en().val(1));
        ops.push(RegOp::Store { base: self.base, offset: CONTROL_REG, value: control.value });
        let ticks = cnt * TICKS_PER_US;
        push_load_counts(&mut ops, self.base, ticks);
        ops.push(RegOp::Modify { base: self.base, offset: CONTROL_REG, field: timer_en().val(1) });
        proof {
            assert(ops@ =~= irq_delay_program(self.base, cnt));
        }
        ops
    }

    /// The 64-bit counter value from the two halves read from
    /// `CURRENT_VALUE0` (low) and `CURRENT_VALUE1` (high).
    pub fn current_val(&self, current_value0: u32, current_value1: u32) -> (r: u64)
        ensures
            r == join_words(current_value0, current_value1),
            r == current_value1 as int * 0x1_0000_0000 + current_value0 as int,
    {
        proof {
            lemma_join_is_sum(current_value0, current_value1);
        }
        ((current_value1 as u64) << 32) | current_value0 as u64
    }

    /// Acknowledge a pending timer interrupt (`INT_PD::SET`).
    pub fn clear_irq(&self) -> (ops: Vec<RegOp>)
        ensures
            ops@ == clear_irq_program(self.base),
    {
        let mut ops: Vec<RegOp> = Vec::new();
        ops.push(RegOp::Store { base: self.base, offset: INT_STATUS, value: int_pd().set_all().value });
        proof {
            assert(ops@ =~= clear_irq_program(self.base));
        }
        ops
    }

    /// Name of the device this driver handles.
    pub fn compatible(&self) -> (r: &'static str)
        ensures
            r@ == "RK3399 Timer"@,
    {
        "RK3399 Timer"
    }
}

/// Joining two words is the sum of the high word times 2^32 and the low word.
pub proof fn lemma_join_is_sum(low: u32, high: u32)
    ensures
        join_words(low, high) == high as int * 0x1_0000_0000 + low as int,
{
    assert((((high as u64) << 32u64) | (low as u64)) == (high as u64) * 0x1_0000_0000u64 + (
    low as u64)) by (bit_vector);
}

/// A timer driver: the device behind its lock.
pub struct Timer {
    pub inner: TimerInner,
}

impl Timer {
    /// The timer whose registers start at `mmio_start_addr`.
    pub fn new(mmio_start_addr: usize) -> (r: Timer)
        ensures
            r.inner.base == mmio_start_addr,
    {
        Timer { inner: TimerInner::new(mmio_start_addr) }
    }

    /// Busy-wait `cnt` microseconds.
    pub fn delay_us(&self, cnt: u64) -> (ops: Vec<RegOp>)
        requires
            cnt * TICKS_PER_US <= u64::MAX,
        ensures
            ops@ == delay_program(self.inner.base, cnt),
    {
        self.inner.delay_us(cnt)
    }

    /// Busy-wait `cnt` milliseconds: a delay of `cnt * 1000` microseconds.
    pub fn delay_ms(&self, cnt: u64) -> (ops: Vec<RegOp>)
        requires
            cnt * 1000 * TICKS_PER_US <= u64::MAX,
        ensures
            ops@ == delay_program(self.inner.base, (cnt * 1000) as u64),
    {
        self.inner.delay_us(cnt * 1000)
    }

    /// Raise the timer interrupt after `cnt` microseconds.
    pub fn irq_delay_us(&self, cnt: u64) -> (ops: Vec<RegOp>)
        requires
            cnt * TICKS_PER_US <= u64::MAX,
        ensures
            ops@ == irq_delay_program(self.inner.base, cnt),
    {
        self.inner.irq_delay_us(cnt)
    }

    /// Acknowledge a pending timer interrupt.
    pub fn clear_irq(&self) -> (ops: Vec<RegOp>)
        ensures
            ops@ == clear_irq_program(self.inner.base),
    {
        self.inner.clear_irq()
    }

    /// The counter value from its two halves.
    pub fn current_val(&self, current_value0: u32, current_value1: u32) -> (r: u64)
        ensures
            r == join_words(current_value0, current_value1),
    {
        self.inner.current_val(current_value0, current_value1)
    }
}

impl Driver for Timer {
    /// Initialize the timer (see `TimerInner::init`).
    fn init(&self) -> (ops: Vec<RegOp>)
        ensures
            ops@ == init_program(self.inner.base),
    {
        self.inner.init()
    }

    fn get_device_type(&self) -> (r: DeviceType)
        ensures
            r == DeviceType::Timer,
    {
        DeviceType::Timer
    }
}

/// Timer `num` of the board: timers 0 to 4 and 6 to 10 exist.
pub fn timer(num: usize) -> (r: Timer)
    requires
        valid_timer_num(num),
    ensures
        r.inner.base == timer_base_spec(num),
{
    Timer::new(timer_base(num))
}

} // verus!

verus! {

/// A busy-wait of `cnt` microseconds leaves its compare count, read back
/// from the two load registers, at `cnt * 24` ticks — whatever the
/// registers held before (with the registers taken as plain memory).
pub proof fn lemma_delay_loads_ticks(img: crate::mmio::RegImage, base: usize, cnt: u64)
    requires
        cnt * TICKS_PER_US <= u64::MAX,
    ensures
        join_words(
            crate::mmio::apply_ops(img, delay_program(base, cnt))((base, LOAD_COUNT0)),
            crate::mmio::apply_ops(img, delay_program(base, cnt))((base, LOAD_COUNT1)),
        ) == cnt * TICKS_PER_US,
{
    let c = (cnt * TICKS_PER_US) as u64;
    let p1 = seq![RegOp::Store { base, offset: CONTROL_REG, value: control_oneshot_masked() }];
    let p2 = load_counts(base, c);
    let p3 = seq![
        RegOp::Modify { base, offset: CONTROL_REG, field: timer_en().val(1) },
        RegOp::SpinWhile { base, offset: INT_STATUS, field: int_pd().val(0) },
        RegOp::Store { base, offset: INT_STATUS, value: 1 },
        RegOp::Modify { base, offset: CONTROL_REG, field: timer_en().val(0) },
    ];
    assert(delay_program(base, cnt) == p1 + p2 + p3);
    crate::mmio::lemma_apply_ops_concat(img, p1 + p2, p3);
    crate::mmio::lemma_apply_ops_concat(img, p1, p2);
    let i1 = crate::mmio::apply_ops(img, p1);
    let i2 = crate::mmio::apply_ops(i1, p2);
    assert forall|i: int| 0 <= i < p3.len() implies crate::mmio::op_target(#[trigger] p3[i]) != (
    base, LOAD_COUNT0) by {}
    assert forall|i: int| 0 <= i < p3.len() implies crate::mmio::op_target(#[trigger] p3[i]) != (
    base, LOAD_COUNT1) by {}
    crate::mmio::lemma_apply_ops_untouched(i2, p3, (base, LOAD_COUNT0));
    crate::mmio::lemma_apply_ops_untouched(i2, p3, (base, LOAD_COUNT1));
    reveal_with_fuel(crate::mmio::apply_ops, 5);
    assert(i2((base, LOAD_COUNT0)) == low_word(c));
    assert(i2((base, LOAD_COUNT1)) == high_word(c));
    lemma_join_split(c);
}

} // verus!

verus! {

/// The control and status encodings the timer programs use, as numbers.
pub proof fn lemma_timer_encodings()
    ensures
        control_oneshot_masked() == 0b010,
        control_free_running_irq() == 0b100,
        timer_en().val(1) == (FieldSetting { mask: 1, value: 1 }),
        timer_en().val(0) == (FieldSetting { mask: 1, value: 0 }),
        int_pd().val(0) == (FieldSetting { mask: 1, value: 0 }),
        int_pd().set_all().value == 1,
{
    assert((1u32 << 0usize) == 1u32
        && (0u32 & 1u32) == 0u32
        && (0u32 << 0usize) == 0u32
        && (1u32 << 1usize) == 2u32
        && (1u32 & 1u32) == 1u32
        && (1u32 << 2usize) == 4u32
        && (0u32 << 2usize) == 0u32
        && (1u32 | 2u32) == 3u32
        && (2u32 & 2u32) == 2u32
        && (0u32 | 2u32) == 2u32
        && (3u32 | 4u32) == 7u32
        && (2u32 & 3u32) == 2u32
        && (0u32 & 4u32) == 0u32
        && (2u32 | 0u32) == 2u32
        && (0u32 << 1usize) == 0u32
        && (0u32 & 2u32) == 0u32
        && (0u32 | 0u32) == 0u32
        && (0u32 & 3u32) == 0u32
        && (4u32 & 4u32) == 4u32
        && (0u32 | 4u32) == 4u32) by (bit_vector);
}

} // verus!

verus! {

/// What arming the timer interrupt leaves in the registers (taken as plain
/// memory), whatever they held: the pending flag acknowledged (1 written),
/// `CONTROL_REG` at `0b101` (running, free running, interrupt unmasked),
/// the initial count zero and the compare count `cnt * 24` ticks.
pub proof fn lemma_irq_delay_effect(img: crate::mmio::RegImage, base: usize, cnt: u64)
    requires
        cnt * TICKS_PER_US <= u64::MAX,
    ensures
        ({
            let after = crate::mmio::apply_ops(img, irq_delay_program(base, cnt));
            &&& after((base, CONTROL_REG)) == 0b101
            &&& after((base, INT_STATUS)) == 1
            &&& after((base, LOAD_COUNT2)) == 0
            &&& after((base, LOAD_COUNT3)) == 0
            &&& join_words(after((base, LOAD_COUNT0)), after((base, LOAD_COUNT1))) == cnt * TICKS_PER_US
        }),
{
    lemma_timer_encodings();
    let c = (cnt * TICKS_PER_US) as u64;
    let p = irq_delay_program(base, cnt);
    assert(p =~= seq![
        RegOp::Store { base, offset: INT_STATUS, value: 1 },
        RegOp::Store { base, offset: CONTROL_REG, value: 0b100 },
        RegOp::Store { base, offset: LOAD_COUNT2, value: 0 },
        RegOp::Store { base, offset: LOAD_COUNT3, value: 0 },
        RegOp::Store { base, offset: LOAD_COUNT0, value: low_word(c) },
        RegOp::Store { base, offset: LOAD_COUNT1, value: high_word(c) },
        RegOp::Modify { base, offset: CONTROL_REG, field: FieldSetting { mask: 1, value: 1 } },
    ]);
    reveal_with_fuel(crate::mmio::apply_ops, 8);
    assert(((0b100u32 & !1u32) | (1u32 & 1u32)) == 0b101u32) by (bit_vector);
    lemma_join_split(c);
}

} // verus!
