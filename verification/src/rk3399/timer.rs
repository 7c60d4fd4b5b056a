//! The kernel's driver for the RK3399 timers, as basic timers.
use vstd::prelude::*;
use crate::mmio::RegOp;
use crate::bitfield::FieldSetting;
use crate::irq::{IrqHandlers, NR_IRQS};
use crate::rk3399::map::{timer_base, timer_base_spec, valid_timer_num, GICD_BASE};
use crate::loader::timer::{
    CONTROL_REG, INT_STATUS, LOAD_COUNT0, LOAD_COUNT1, LOAD_COUNT2, LOAD_COUNT3, TICKS_PER_US,
    timer_en, timer_mode, int_en, int_pd, low_word, high_word, join_words, split_count,
    lemma_join_is_sum, lemma_join_split, lemma_timer_encodings, irq_delay_program, clear_irq_program, control_oneshot_masked,
};
use crate::loader::interrupt::enable_op;
use crate::arm::gicv3::irq_handler_enable;
use crate::drivers::timer::basic_timer::{Interface, TimerMode};

verus! {

/// Interrupt line of timer 0; timer `n` interrupts on line `TIMER0_INTR + n`.
pub const TIMER0_INTR: usize = 113;

/// The stores of an initial count of `init` and a compare count of `compare`
/// ticks.
pub open spec fn set_count_program(base: usize, init: u64, compare: u64) -> Seq<RegOp> {
    seq![
        RegOp::Store { base, offset: LOAD_COUNT2, value: low_word(init) },
        RegOp::Store { base, offset: LOAD_COUNT3, value: high_word(init) },
        RegOp::Store { base, offset: LOAD_COUNT0, value: low_word(compare) },
        RegOp::Store { base, offset: LOAD_COUNT1, value: high_word(compare) },
    ]
}

/// `CONTROL_REG` for a busy-wait: user-defined count, interrupt masked,
/// stopped.
pub open spec fn control_spin() -> u32 {
    timer_mode().val(1).plus(int_en().val(0)).plus(timer_en().val(0)).value
}

/// The program that prepares the timer for `mode` with a duration of `us`
/// microseconds: stopped, the mode's counting and interrupt settings (the
/// interrupt line enabled at the distributor when the mode interrupts), the
/// compare count loaded.
pub open spec fn init_program(base: usize, intr: usize, us: u64, mode: TimerMode) -> Seq<RegOp> {
    seq![RegOp::Modify { base, offset: CONTROL_REG, field: timer_en().val(0) }]
        + seq![RegOp::Modify {
            base,
            offset: CONTROL_REG,
            field: timer_mode().val(if mode == TimerMode::IRQPeriodic { 0 } else { 1 }),
        }]
        + (if mode == TimerMode::Count || mode == TimerMode::Spin {
            seq![RegOp::Modify { base, offset: CONTROL_REG, field: int_en().val(0) }]
        } else {
            seq![
                RegOp::Modify { base, offset: CONTROL_REG, field: int_en().val(1) },
                enable_op(GICD_BASE, intr),
            ]
        })
        + set_count_program(base, 0, (us * TICKS_PER_US) as u64)
}

/// The program of a busy-wait of `us` microseconds.
pub open spec fn spin_program(base: usize, us: u64) -> Seq<RegOp> {
    seq![RegOp::Store { base, offset: CONTROL_REG, value: control_spin() }]
        + set_count_program(base, 0, (us * TICKS_PER_US) as u64)
        + seq![
            RegOp::Modify { base, offset: CONTROL_REG, field: timer_en().val(1) },
            RegOp::SpinWhile { base, offset: INT_STATUS, field: int_pd().val(0) },
            RegOp::Store { base, offset: INT_STATUS, value: 1 },
            RegOp::Modify { base, offset: CONTROL_REG, field: timer_en().val(0) },
        ]
}

/// An RK3399 timer: its interrupt line and its register block.
pub struct TimerInner {
    pub intr: usize,
    pub base: usize,
}

impl TimerInner {
    /// Timer `timer_num`: timers 0 to 4 and 6 to 10 exist.
    pub fn new(timer_num: usize) -> (r: TimerInner)
        requires
            valid_timer_num(timer_num),
        ensures
            r.base == timer_base_spec(timer_num),
            r.intr == TIMER0_INTR + timer_num,
    {
        TimerInner { intr: TIMER0_INTR + timer_num, base: timer_base(timer_num) }
    }

    /// Load an initial count of `us_init` and a compare count of `us_compare`
    /// microseconds (24 ticks each).
    fn set_count(&self, us_init: u64, us_compare: u64) -> (ops: Vec<RegOp>)
        requires
            us_init * TICKS_PER_US <= u64::MAX,
            us_compare * TICKS_PER_US <= u64::MAX,
        ensures
            ops@ == set_count_program(
                self.base,
                (us_init * TICKS_PER_US) as u64,
                (us_compare * TICKS_PER_US) as u64,
            ),
    {
        let cnt01 = us_compare * TICKS_PER_US;
        let cnt23 = us_init * TICKS_PER_US;
        let (lo23, hi23) = split_count(cnt23);
        let (lo01, hi01) = split_count(cnt01);
        let mut ops: Vec<RegOp> = Vec::new();
        ops.push(RegOp::Store { base: self.base, offset: LOAD_COUNT2, value: lo23 });
        ops.push(RegOp::Store { base: self.base, offset: LOAD_COUNT3, value: hi23 });
        ops.push(RegOp::Store { base: self.base, offset: LOAD_COUNT0, value: lo01 });
        ops.push(RegOp::Store { base: self.base, offset: LOAD_COUNT1, value: hi01 });
        proof {
            assert(ops@ =~= set_count_program(self.base, cnt23, cnt01));
        }
        ops
    }

    /// The 64-bit counter value from its halves.
    fn current_value(&self, current_value0: u32, current_value1: u32) -> (r: u64)
        ensures
            r == join_words(current_value0, current_value1),
    {
        ((current_value1 as u64) << 32) | current_value0 as u64
    }

    /// Arm the timer to raise its interrupt after `cnt` microseconds, free
    /// running, after acknowledging any pending interrupt.
    pub fn irq_delay_us(&self, cnt: u64) -> (ops: Vec<RegOp>)
        requires
            cnt * TICKS_PER_US <= u64::MAX,
        ensures
            ops@ == irq_delay_program(self.base, cnt),
    {
        let t = crate::loader::timer::TimerInner::new(self.base);
        t.irq_delay_us(cnt)
    }
}

impl Interface for TimerInner {
    open spec fn irq_line(&self) -> usize {
        self.intr
    }

    open spec fn fits(&self, us: u64) -> bool {
        us * TICKS_PER_US <= u64::MAX
    }

    fn init(&self, duration_us: u64, mode: TimerMode) -> (ops: Vec<RegOp>)
        ensures
            ops@ == init_program(self.base, self.intr, duration_us, mode),
    {
        let mut ops = self.stop();
        match mode {
            TimerMode::Count | TimerMode::IRQOnce | TimerMode::Spin => {
                ops.push(RegOp::Modify { base: self.base, offset: CONTROL_REG, field: timer_mode().val(1) });
            },
            TimerMode::IRQPeriodic => {
                ops.push(RegOp::Modify { base: self.base, offset: CONTROL_REG, field: timer_mode().val(0) });
            },
        }
        match mode {
            TimerMode::Count | TimerMode::Spin => {
                ops.push(RegOp::Modify { base: self.base, offset: CONTROL_REG, field: int_en().val(0) });
            },
            TimerMode::IRQOnce | TimerMode::IRQPeriodic => {
                ops.push(RegOp::Modify { base: self.base, offset: CONTROL_REG, field: int_en().val(1) });
                let mut e = irq_handler_enable(self.intr);
                ops.append(&mut e);
            },
        }
        let mut c = self.set_count(0, duration_us);
        ops.append(&mut c);
        proof {
            assert(ops@ =~= init_program(self.base, self.intr, duration_us, mode));
        }
        ops
    }

    fn spin(&self, duration_us: u64) -> (ops: Vec<RegOp>)
        ensures
            ops@ == spin_program(self.base, duration_us),
    {
        let control = timer_mode().val(1).plus(int_en().val(0)).plus(timer_en().val(0));
        let mut ops: Vec<RegOp> = Vec::new();
        ops.push(RegOp::Store { base: self.base, offset: CONTROL_REG, value: control.value });
        let mut c = self.set_count(0, duration_us);
        ops.append(&mut c);
        let mut s = self.start();
        ops.append(&mut s);
        ops.push(RegOp::SpinWhile { base: self.base, offset: INT_STATUS, field: int_pd().val(0) });
        ops.push(RegOp::Store { base: self.base, offset: INT_STATUS, value: 1 });
        let mut t = self.stop();
        ops.append(&mut t);
        proof {
            assert(ops@ =~= spin_program(self.base, duration_us));
        }
        ops
    }

    fn set_irq_handler<H: Copy>(&self, handlers: &mut IrqHandlers<H>, handler: H) {
        handlers.install(self.intr, handler);
    }

    fn clear_irq(&self) -> (ops: Vec<RegOp>)
        ensures
            ops@ == clear_irq_program(self.base),
    {
        crate::loader::timer::TimerInner::new(self.base).clear_irq()
    }

    fn start(&self) -> (ops: Vec<RegOp>)
        ensures
            ops@ == seq![RegOp::Modify { base: self.base, offset: CONTROL_REG, field: timer_en().val(1) }],
    {
        let mut ops: Vec<RegOp> = Vec::new();
        ops.push(RegOp::Modify { base: self.base, offset: CONTROL_REG, field: timer_en().val(1) });
        ops
    }

    fn stop(&self) -> (ops: Vec<RegOp>)
        ensures
            ops@ == seq![RegOp::Modify { base: self.base, offset: CONTROL_REG, field: timer_en().val(0) }],
    {
        let mut ops: Vec<RegOp> = Vec::new();
        ops.push(RegOp::Modify { base: self.base, offset: CONTROL_REG, field: timer_en().val(0) });
        ops
    }

    /// Microseconds counted: the counter value divided by 24 ticks.
    fn get_cycle(&self, current_value0: u32, current_value1: u32) -> (r: u64)
        ensures
            r == join_words(current_value0, current_value1) / TICKS_PER_US,
    {
        self.current_value(current_value0, current_value1) / TICKS_PER_US
    }
}

} // verus!

verus! {

/// The control-register settings the kernel's timer programs use, as
/// numbers.
pub proof fn lemma_basic_timer_encodings()
    ensures
        control_spin() == 0b010,
        timer_mode().val(1) == (FieldSetting { mask: 0b10, value: 0b10 }),
        timer_mode().val(0) == (FieldSetting { mask: 0b10, value: 0 }),
        int_en().val(1) == (FieldSetting { mask: 0b100, value: 0b100 }),
        int_en().val(0) == (FieldSetting { mask: 0b100, value: 0 }),
        timer_en().val(1) == (FieldSetting { mask: 1, value: 1 }),
        timer_en().val(0) == (FieldSetting { mask: 1, value: 0 }),
{
    assert((1u32 << 1usize) == 2u32
        && (1u32 & 1u32) == 1u32
        && (1u32 << 2usize) == 4u32
        && (0u32 & 1u32) == 0u32
        && (0u32 << 2usize) == 0u32
        && (2u32 | 4u32) == 6u32
        && (2u32 & 2u32) == 2u32
        && (0u32 & 4u32) == 0u32
        && (2u32 | 0u32) == 2u32
        && (1u32 << 0usize) == 1u32
        && (0u32 << 0usize) == 0u32
        && (6u32 | 1u32) == 7u32
        && (2u32 & 6u32) == 2u32
        && (0u32 << 1usize) == 0u32) by (bit_vector);
}

/// What preparing the timer for `mode` leaves in the registers (taken as
/// plain memory), whatever they held: the timer stopped, counting to the
/// user-defined count in every mode but `IRQPeriodic` (free running there),
/// its interrupt unmasked exactly in the interrupting modes, the other
/// control bits kept; the initial count zero and the compare count
/// `us * 24` ticks.
pub proof fn lemma_init_effect(img: crate::mmio::RegImage, base: usize, intr: usize, us: u64, mode: TimerMode)
    requires
        us * TICKS_PER_US <= u64::MAX,
        mode == TimerMode::IRQOnce || mode == TimerMode::IRQPeriodic ==> intr / 32 < 32,
    ensures
        ({
            let after = crate::mmio::apply_ops(img, init_program(base, intr, us, mode));
            let ctrl = after((base, CONTROL_REG));
            &&& ctrl & 1 == 0
            &&& (ctrl >> 1u32) & 1 == (if mode == TimerMode::IRQPeriodic { 0u32 } else { 1u32 })
            &&& (ctrl >> 2u32) & 1 == (if mode == TimerMode::IRQOnce || mode == TimerMode::IRQPeriodic { 1u32 } else { 0u32 })
            &&& ctrl & !7u32 == img((base, CONTROL_REG)) & !7u32
            &&& after((base, LOAD_COUNT2)) == 0
            &&& after((base, LOAD_COUNT3)) == 0
            &&& join_words(after((base, LOAD_COUNT0)), after((base, LOAD_COUNT1))) == us * TICKS_PER_US
        }),
{
    lemma_basic_timer_encodings();
    assert(low_word(0) == 0 && high_word(0) == 0) by (bit_vector);
    let c = (us * TICKS_PER_US) as u64;
    let r = img((base, CONTROL_REG));
    let p = init_program(base, intr, us, mode);
    let m: u32 = if mode == TimerMode::IRQPeriodic { 0 } else { 0b10 };
    let i: u32 = if mode == TimerMode::IRQOnce || mode == TimerMode::IRQPeriodic { 0b100 } else { 0 };
    let counts = seq![
        RegOp::Store { base, offset: LOAD_COUNT2, value: 0 },
        RegOp::Store { base, offset: LOAD_COUNT3, value: 0 },
        RegOp::Store { base, offset: LOAD_COUNT0, value: low_word(c) },
        RegOp::Store { base, offset: LOAD_COUNT1, value: high_word(c) },
    ];
    let head = seq![
        RegOp::Modify { base, offset: CONTROL_REG, field: FieldSetting { mask: 1, value: 0 } },
        RegOp::Modify { base, offset: CONTROL_REG, field: FieldSetting { mask: 0b10, value: m } },
        RegOp::Modify { base, offset: CONTROL_REG, field: FieldSetting { mask: 0b100, value: i } },
    ];
    if mode == TimerMode::IRQOnce || mode == TimerMode::IRQPeriodic {
        assert(p =~= head + seq![enable_op(GICD_BASE, intr)] + counts);
    } else {
        assert(p =~= head + counts);
    }
    reveal_with_fuel(crate::mmio::apply_ops, 9);
    let after = crate::mmio::apply_ops(img, p);
    assert(after((base, CONTROL_REG)) == (((((r & !1u32) | (0u32 & 1u32)) & !0b10u32) | (m & 0b10u32)) & !0b100u32) | (i & 0b100u32));
    assert((m == 0u32 || m == 2u32) && (i == 0u32 || i == 4u32) ==> ({
        let x = (((((r & !1u32) | (0u32 & 1u32)) & !0b10u32) | (m & 0b10u32)) & !0b100u32) | (i & 0b100u32);
        &&& x & 1u32 == 0u32
        &&& (x >> 1u32) & 1u32 == (if m == 2u32 { 1u32 } else { 0u32 })
        &&& (x >> 2u32) & 1u32 == (if i == 4u32 { 1u32 } else { 0u32 })
        &&& x & !7u32 == r & !7u32
    })) by (bit_vector);
    lemma_join_split(c);
}

/// What a busy-wait leaves in the registers (taken as plain memory),
/// whatever they held: `CONTROL_REG` back at `0b010` (stopped, user-defined
/// count, interrupt masked), the pending flag acknowledged (1 written), the
/// initial count zero and the compare count `us * 24` ticks.
pub proof fn lemma_spin_effect(img: crate::mmio::RegImage, base: usize, us: u64)
    requires
        us * TICKS_PER_US <= u64::MAX,
    ensures
        ({
            let after = crate::mmio::apply_ops(img, spin_program(base, us));
            &&& after((base, CONTROL_REG)) == 0b010
            &&& after((base, INT_STATUS)) == 1
            &&& after((base, LOAD_COUNT2)) == 0
            &&& after((base, LOAD_COUNT3)) == 0
            &&& join_words(after((base, LOAD_COUNT0)), after((base, LOAD_COUNT1))) == us * TICKS_PER_US
        }),
{
    lemma_basic_timer_encodings();
    assert(low_word(0) == 0 && high_word(0) == 0) by (bit_vector);
    let c = (us * TICKS_PER_US) as u64;
    let p = spin_program(base, us);
    assert(p =~= seq![
        RegOp::Store { base, offset: CONTROL_REG, value: 0b010 },
        RegOp::Store { base, offset: LOAD_COUNT2, value: 0 },
        RegOp::Store { base, offset: LOAD_COUNT3, value: 0 },
        RegOp::Store { base, offset: LOAD_COUNT0, value: low_word(c) },
        RegOp::Store { base, offset: LOAD_COUNT1, value: high_word(c) },
        RegOp::Modify { base, offset: CONTROL_REG, field: FieldSetting { mask: 1, value: 1 } },
        RegOp::SpinWhile { base, offset: INT_STATUS, field: FieldSetting { mask: 1, value: 0 } },
        RegOp::Store { base, offset: INT_STATUS, value: 1 },
        RegOp::Modify { base, offset: CONTROL_REG, field: FieldSetting { mask: 1, value: 0 } },
    ]);
    reveal_with_fuel(crate::mmio::apply_ops, 10);
    assert(((((0b010u32 & !1u32) | (1u32 & 1u32)) & !1u32) | (0u32 & 1u32)) == 0b010u32) by (bit_vector);
    lemma_join_split(c);
}

/// Preparing a timer for an interrupting mode enables its own interrupt
/// line at the distributor, and no other: afterwards (registers taken as
/// plain memory) set-enable register `intr / 32` holds exactly bit
/// `intr % 32`, whatever the registers held, as long as the timer's block
/// is not the distributor's.
pub proof fn lemma_init_enables_own_line(img: crate::mmio::RegImage, base: usize, intr: usize, us: u64, mode: TimerMode)
    requires
        mode == TimerMode::IRQOnce || mode == TimerMode::IRQPeriodic,
        intr / 32 < 32,
        base != GICD_BASE,
    ensures
        (crate::mmio::apply_ops(img, init_program(base, intr, us, mode))(
            (GICD_BASE, (0x100 + 4 * (intr / 32)) as usize),
        ) >> ((intr % 32) as u32)) & 1 == 1,
        crate::mmio::apply_ops(img, init_program(base, intr, us, mode))(
            (GICD_BASE, (0x100 + 4 * (intr / 32)) as usize),
        ) == 1u32 << ((intr % 32) as u32),
{
    let p = init_program(base, intr, us, mode);
    let k = (GICD_BASE, (0x100 + 4 * (intr / 32)) as usize);
    let c = (us * TICKS_PER_US) as u64;
    let m: u32 = if mode == TimerMode::IRQPeriodic { 0 } else { 1 };
    let head = seq![
        RegOp::Modify { base, offset: CONTROL_REG, field: timer_en().val(0) },
        RegOp::Modify { base, offset: CONTROL_REG, field: timer_mode().val(m) },
        RegOp::Modify { base, offset: CONTROL_REG, field: int_en().val(1) },
        enable_op(GICD_BASE, intr),
    ];
    let counts = set_count_program(base, 0, c);
    assert(p =~= head + counts);
    crate::mmio::lemma_apply_ops_concat(img, head, counts);
    reveal_with_fuel(crate::mmio::apply_ops, 5);
    let mid = crate::mmio::apply_ops(img, head);
    let n = (intr % 32) as u32;
    assert(mid(k) == 1u32 << n);
    assert forall|i: int| 0 <= i < counts.len() implies crate::mmio::op_target(#[trigger] counts[i]) != k by {}
    crate::mmio::lemma_apply_ops_untouched(mid, counts, k);
    assert(n < 32 ==> ((1u32 << n) >> n) & 1 == 1) by (bit_vector);
}

/// Each existing timer, prepared for an interrupting mode, enables line
/// `113 + timer_num` at the distributor, its own.
pub proof fn lemma_timer_init_enables_its_line(img: crate::mmio::RegImage, timer_num: usize, us: u64, mode: TimerMode)
    requires
        valid_timer_num(timer_num),
        mode == TimerMode::IRQOnce || mode == TimerMode::IRQPeriodic,
    ensures
        ({
            let line = 113 + timer_num;
            let after = crate::mmio::apply_ops(
                img,
                init_program(timer_base_spec(timer_num) as usize, (TIMER0_INTR + timer_num) as usize, us, mode),
            );
            (after((GICD_BASE, (0x100 + 4 * (line / 32)) as usize)) >> ((line % 32) as u32)) & 1 == 1
        }),
{
    lemma_init_enables_own_line(img, timer_base_spec(timer_num) as usize, (TIMER0_INTR + timer_num) as usize, us, mode);
}

} // verus!
