//! Fixed-point numeric primitives. Positions and velocities are signed
//! integers with 9 fractional bits (one pixel = 512 internal units); all
//! multiplications by a ratio truncate toward zero, which is load-bearing
//! for deterministic deceleration curves.

use vstd::prelude::*;

verus! {

/// Absolute value as a mathematical function.
pub open spec fn spec_abs(v: int) -> int {
    if v < 0 {
        -v
    } else {
        v
    }
}

/// Relies on num_traits::abs: on a primitive signed integer it returns
/// the absolute value. It panics on `i64::MIN`, which the precondition
/// excludes.
#[verifier::external_body]
pub(crate) fn abs_i64(v: i64) -> (r: i64)
    requires
        v != i64::MIN,
    ensures
        r == spec_abs(v as int),
{
    num_traits::abs(v)
}

/// `v * num / den` with the division truncating toward zero: the
/// magnitude is scaled with euclidean division (which equals truncation
/// for non-negative operands) and the sign is reapplied afterwards.
pub open spec fn spec_decay(v: int, num: int, den: int) -> int
    recommends
        num >= 0,
        den > 0,
{
    if v >= 0 {
        (v * num) / den
    } else {
        -((-v * num) / den)
    }
}

/// Scale a velocity by the ratio `num / den`, truncating toward zero —
/// never rounding, and never through floating point.
pub fn decay_velocity(v: i64, num: u32, den: u32) -> (r: i64)
    requires
        den > 0,
        v != i64::MIN,
        spec_abs(v as int) * num <= i64::MAX,
    ensures
        r == spec_decay(v as int, num as int, den as int),
        spec_abs(r as int) <= spec_abs(v as int) * num / den as int,
        num <= den ==> spec_abs(r as int) <= spec_abs(v as int),
{
    let a: i64 = if v < 0 {
        -v
    } else {
        v
    };
    let scaled: u64 = (a as u64) * (num as u64) / (den as u64);
    proof {
        assert(scaled == a * num / den as int) by (nonlinear_arith)
            requires
                scaled == (a as u64 as int) * (num as u64 as int) / (den as u64 as int),
                a == spec_abs(v as int),
                a >= 0,
                num >= 0,
                den > 0,
        {
        }
        assert(scaled <= a * num) by (nonlinear_arith)
            requires
                scaled == a * num / den as int,
                a >= 0,
                num >= 0,
                den > 0,
        {
        }
        if num <= den {
            assert(scaled <= a) by (nonlinear_arith)
                requires
                    scaled == a * num / den as int,
                    a >= 0,
                    0 <= num <= den,
                    den > 0,
            {
            }
        }
    }
    let q: i64 = scaled as i64;
    if v < 0 {
        -q
    } else {
        q
    }
}

/// Axis choice of the solid-hard resolution regime: `true` means the
/// horizontal axis wins and the entity is pushed out sideways, `false`
/// means the vertical axis wins. The choice compares the slope of the
/// center-to-center offset `(dx, dy)` against the slope of the actor's
/// half-extent box `(half_w, half_h)`; a zero horizontal length on
/// either side is substituted by one unit before comparing.
pub open spec fn spec_axis_horizontal(dx: int, dy: int, half_w: int, half_h: int) -> bool {
    let fx1 = if spec_abs(dx) == 0 {
        1
    } else {
        spec_abs(dx)
    };
    let fx2 = if half_w == 0 {
        1
    } else {
        half_w
    };
    spec_abs(dy) * fx2 <= half_h * fx1
}

/// Decide the solid-hard resolution axis from the center offset and the
/// actor's half-extents alone. A pure function: no other collision pair
/// influences the outcome.
pub fn solid_hard_axis_horizontal(dx: i64, dy: i64, half_w: u32, half_h: u32) -> (r: bool)
    requires
        dx != i64::MIN,
        dy != i64::MIN,
    ensures
        r == spec_axis_horizontal(dx as int, dy as int, half_w as int, half_h as int),
{
    let ax: i64 = abs_i64(dx);
    let ay: i64 = abs_i64(dy);
    let fx1: u128 = if ax == 0 {
        1
    } else {
        ax as u128
    };
    let fx2: u128 = if half_w == 0 {
        1
    } else {
        half_w as u128
    };
    proof {
        assert((ay as u128) * fx2 < 0x1_0000_0000_0000_0000_0000_0000_0000_0000) by (
        nonlinear_arith)
            requires
                0 <= (ay as u128) < 0x1_0000_0000_0000_0000,
                0 <= fx2 < 0x1_0000_0000_0000_0000,
        {
        }
        assert((half_h as u128) * fx1 < 0x1_0000_0000_0000_0000_0000_0000_0000_0000) by (
        nonlinear_arith)
            requires
                0 <= (half_h as u128) < 0x1_0000_0000,
                0 <= fx1 < 0x1_0000_0000_0000_0000,
        {
        }
    }
    (ay as u128) * fx2 <= (half_h as u128) * fx1
}

/// Swapping which axis is the deeper one flips the axis choice: when the
/// offset and half-extents are exchanged between the axes and the slopes
/// do not tie, a horizontal pick becomes a vertical pick and conversely.
pub proof fn lemma_axis_selection_flips(dx: int, dy: int, half_w: int, half_h: int)
    requires
        dx != 0,
        dy != 0,
        half_w > 0,
        half_h > 0,
        spec_abs(dy) * half_w != spec_abs(dx) * half_h,
    ensures
        spec_axis_horizontal(dx, dy, half_w, half_h) == !spec_axis_horizontal(
            dy,
            dx,
            half_h,
            half_w,
        ),
{
    let ax = spec_abs(dx);
    let ay = spec_abs(dy);
    assert(ax > 0 && ay > 0);
    assert(ay * half_w == half_w * ay) by (nonlinear_arith);
    assert(ax * half_h == half_h * ax) by (nonlinear_arith);
}

} // verus!
