use vstd::prelude::*;
use crate::geometry::Direction;

verus! {

/// Base delay between ticks for horizontal movement, in milliseconds.
pub const HORIZONTAL_DELAY: u64 = 150;

/// Base delay between ticks for vertical movement, in milliseconds.
pub const VERTICAL_DELAY: u64 = 200;

/// The floor under every delay, in milliseconds.
pub const MINIMUM_DELAY: u64 = 50;

/// How much each speed level takes off the delay, in milliseconds.
pub const SPEED_STEP: u64 = 20;

/// The base delay for a heading.
pub open spec fn base_delay(d: Direction) -> int {
    if d.horizontal() {
        HORIZONTAL_DELAY as int
    } else {
        VERTICAL_DELAY as int
    }
}

/// The delay between ticks: the base delay for the heading less
/// `SPEED_STEP` per level, never below `MINIMUM_DELAY`.
pub open spec fn delay_ms(d: Direction, speed_level: int) -> int {
    let raw = base_delay(d) - SPEED_STEP * speed_level;
    if raw > MINIMUM_DELAY {
        raw
    } else {
        MINIMUM_DELAY as int
    }
}

/// The inter-tick delay in milliseconds for a heading and a speed level.
pub fn tick_delay(direction: Direction, speed_level: u64) -> (r: u64)
    ensures
        r == delay_ms(direction, speed_level as int),
{
    let base = if direction.is_horizontal() {
        HORIZONTAL_DELAY
    } else {
        VERTICAL_DELAY
    };
    let reduction = if speed_level <= base / SPEED_STEP {
        proof {
            assert(speed_level * SPEED_STEP <= base) by (nonlinear_arith)
                requires
                    speed_level <= base / SPEED_STEP,
                    SPEED_STEP == 20,
            ;
        }
        speed_level * SPEED_STEP
    } else {
        proof {
            assert(speed_level * SPEED_STEP > base) by (nonlinear_arith)
                requires
                    speed_level > base / SPEED_STEP,
                    SPEED_STEP == 20,
            ;
        }
        base
    };
    let delay = base - reduction;
    if delay > MINIMUM_DELAY {
        delay
    } else {
        MINIMUM_DELAY
    }
}

} // verus!
