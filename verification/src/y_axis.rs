//! Y-axis tick values: each printed row's value is a linear interpolation
//! between the visible maximum (top row) and minimum, in fixed-point units.
use vstd::prelude::*;

verus! {

/// The value shown on tick row `row` (0 = top): `max - (max - min) * row / height`,
/// in the caller's fixed-point price units, rounded toward the minimum.
pub fn y_tick_value(min: i64, max: i64, height: u16, row: u16) -> (r: i64)
    requires
        min <= max,
        height > 0,
        row <= height,
        max - min <= 0x1000_0000_0000,
        -0x1000_0000_0000 <= min,
        max <= 0x1000_0000_0000,
    ensures
        r == max - (max - min) * row / (height as int),
        min <= r <= max,
    {
    let range: i64 = max - min;
    proof {
        assert(0 <= range * row <= 0x1000_0000_0000 * 0x1_0000) by (nonlinear_arith)
            requires 0 <= range <= 0x1000_0000_0000, 0 <= row < 0x1_0000,
        ;
        assert(range * row <= range * height) by (nonlinear_arith)
            requires 0 <= range, row <= height,
        ;
        assert(0 <= range * row / height as int <= range) by (nonlinear_arith)
            requires 0 <= range * row <= range * height, height > 0, 0 <= range,
        ;
    }
    let num: i64 = range * row as i64;
    max - num / height as i64
}

/// Tick labels are strictly decreasing from top to bottom: a tick `step` rows
/// lower shows a strictly smaller value, whenever the visible range spans at
/// least one fixed-point unit per `step` rows. (For ranges finer than that,
/// rounding can make adjacent labels coincide.)
pub proof fn lemma_y_axis_monotonic(min: i64, max: i64, height: u16, r1: u16, r2: u16, step: u16)
    requires
        min < max,
        height > 0,
        r2 == r1 + step,
        r2 <= height,
        (max - min) * step >= height,
    ensures
        max - (max - min) * r1 / (height as int) > max - (max - min) * r2 / (height as int),
{
    let g = (max - min) as int;
    let h = height as int;
    assert(g * r2 == g * r1 + g * step) by (nonlinear_arith)
        requires r2 == r1 + step,
    ;
    assert(g * r1 / h < g * r2 / h) by (nonlinear_arith)
        requires
            h > 0,
            g * r2 == g * r1 + g * step,
            g * step >= h,
            g * r1 >= 0,
    ;
}

} // verus!
