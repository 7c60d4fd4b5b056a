//! Physical memory map of the Firefly RK3399 board.
use vstd::prelude::*;

verus! {

/// Start of the device region.
pub const START: usize = 0xF800_0000;
/// Last address of the device region.
pub const END_INCLUSIVE: usize = 0xFFFF_FFFF;
/// Address at which the firmware loads every binary by default.
pub const BOARD_DEFAULT_LOAD_ADDRESS: usize = 0x0008_0000;
/// General register files (pin multiplexing).
pub const GRF_BASE: usize = 0xFF77_0000;
/// Debug UART.
pub const UART2_BASE: usize = 0xFF1A_0000;
/// Timers 0 to 5.
pub const TIMER0_5_BASE: usize = 0xFF85_0000;
/// Timers 6 to 11.
pub const TIMER6_11_BASE: usize = 0xFF85_8000;
/// GICv3 distributor.
pub const GICD_BASE: usize = 0xFEE0_0000;
/// GICv3 redistributors.
pub const GICR_BASE: usize = 0xFEF0_0000;
/// Size of one timer's register block.
pub const TIMER_STRIDE: usize = 0x20;

/// The address on which the firmware loads every binary by default.
pub fn board_default_load_addr() -> (r: usize)
    ensures
        r == BOARD_DEFAULT_LOAD_ADDRESS,
{
    BOARD_DEFAULT_LOAD_ADDRESS
}

/// Timer numbers that have a register block: 0 to 4 in the first bank and
/// 6 to 10 in the second.
pub open spec fn valid_timer_num(num: usize) -> bool {
    (0 <= num < 5) || (6 <= num < 11)
}

/// Base address of timer `num`'s register block.
pub open spec fn timer_base_spec(num: usize) -> int {
    if num < 5 {
        TIMER0_5_BASE + TIMER_STRIDE * num
    } else {
        TIMER6_11_BASE + TIMER_STRIDE * (num - 6)
    }
}

/// Base address of timer `num`: its bank's base plus 0x20 per timer before
/// it in the bank.
pub fn timer_base(num: usize) -> (r: usize)
    requires
        valid_timer_num(num),
    ensures
        r == timer_base_spec(num),
{
    if num < 5 {
        TIMER0_5_BASE + TIMER_STRIDE * num
    } else {
        TIMER6_11_BASE + TIMER_STRIDE * (num - 6)
    }
}

/// Distinct timers have distinct register blocks that do not overlap.
pub proof fn lemma_timer_blocks_disjoint(a: usize, b: usize)
    requires
        valid_timer_num(a),
        valid_timer_num(b),
        a != b,
    ensures
        timer_base_spec(a) + TIMER_STRIDE <= timer_base_spec(b) || timer_base_spec(b)
            + TIMER_STRIDE <= timer_base_spec(a),
{
}

} // verus!
