//! Fixed-point scalars for the navigation model.
//!
//! Camera positions, velocities and angles are carried as 64-bit
//! integers scaled by [`UNIT`]. Angles live in `[0, TURN)` where a
//! full rotation is four quarter turns of `UNIT` each; the sine used
//! to derive the walking axes is the triangle wave [`tri_sin`], a
//! piecewise-linear stand-in whose arithmetic is exact.

use vstd::prelude::*;

verus! {

/// Fixed-point scale: one world unit, and one quarter turn of angle.
pub const UNIT: i64 = 1048576;

/// One full rotation: four quarter turns.
pub const TURN: i64 = 4 * UNIT;

/// Positions are kept within this bound on every axis.
pub const POS_LIMIT: i64 = 4503599627370496;

/// Largest translation magnitude a single navigation step may request.
pub const STEP_LIMIT: i64 = 1099511627776;

/// Magnitude of a coordinate.
pub open spec fn abs_fx(v: int) -> int {
    if v < 0 {
        -v
    } else {
        v
    }
}

/// Triangle-wave sine over angles in `[0, TURN)`: rises linearly from
/// 0 at angle 0 to `UNIT` at a quarter turn, falls to `-UNIT` at three
/// quarters, and returns to 0 at a full turn.
pub open spec fn tri_sin(x: int) -> int {
    if x <= UNIT {
        x
    } else if x <= 3 * UNIT {
        2 * UNIT - x
    } else {
        x - 4 * UNIT
    }
}

/// Triangle-wave cosine: the sine a quarter turn ahead.
pub open spec fn tri_cos(x: int) -> int {
    tri_sin((x + UNIT) % (TURN as int))
}

/// Sum wrapped back into `[0, TURN)`; defined for one turn of slack on
/// either side, which covers an in-range angle plus a bounded delta.
pub open spec fn wrap_turn(v: int) -> int {
    if v < 0 {
        v + TURN
    } else if v >= TURN {
        v - TURN
    } else {
        v
    }
}

/// Product of `a` and `b` scaled back down by `UNIT`, rounding toward
/// zero; the fixed-point multiplication.
pub open spec fn mul_scale(a: int, b: int) -> int {
    if a * b >= 0 {
        a * b / (UNIT as int)
    } else {
        -((-(a * b)) / (UNIT as int))
    }
}

/// `v` forced into `[-POS_LIMIT, POS_LIMIT]`.
pub open spec fn clamp_pos(v: int) -> int {
    if v < -POS_LIMIT {
        -POS_LIMIT as int
    } else if v > POS_LIMIT {
        POS_LIMIT as int
    } else {
        v
    }
}

pub fn tri_sin_fx(x: i64) -> (r: i64)
    requires
        0 <= x < TURN,
    ensures
        r == tri_sin(x as int),
        -UNIT <= r <= UNIT,
{
    if x <= UNIT {
        x
    } else if x <= 3 * UNIT {
        2 * UNIT - x
    } else {
        x - 4 * UNIT
    }
}

pub fn tri_cos_fx(x: i64) -> (r: i64)
    requires
        0 <= x < TURN,
    ensures
        r == tri_cos(x as int),
        -UNIT <= r <= UNIT,
{
    let shifted = if x + UNIT >= TURN {
        x + UNIT - TURN
    } else {
        x + UNIT
    };
    assert(shifted as int == (x + UNIT) % (TURN as int));
    tri_sin_fx(shifted)
}

/// Adds a rotation delta of at most one turn to an in-range angle and
/// wraps the result back into `[0, TURN)`.
pub fn wrap_turn_add(a: i64, d: i64) -> (r: i64)
    requires
        0 <= a < TURN,
        -TURN <= d <= TURN,
    ensures
        r == wrap_turn(a + d),
        0 <= r < TURN,
{
    let s = a + d;
    if s < 0 {
        s + TURN
    } else if s >= TURN {
        s - TURN
    } else {
        s
    }
}

/// Fixed-point multiply `a * b / UNIT`, rounding toward zero, for a
/// bounded step times a bounded axis component.
pub fn mul_scale_fx(a: i64, b: i64) -> (r: i64)
    requires
        -STEP_LIMIT <= a <= STEP_LIMIT,
        -2 * UNIT <= b <= 2 * UNIT,
    ensures
        r == mul_scale(a as int, b as int),
        -STEP_LIMIT * 2 <= r <= STEP_LIMIT * 2,
        -UNIT <= a <= UNIT && -2 * UNIT <= b <= 2 * UNIT ==> -2 * UNIT <= r <= 2 * UNIT,
        -UNIT <= a <= UNIT && -UNIT <= b <= UNIT ==> -UNIT <= r <= UNIT,
        -UNIT <= b <= UNIT ==> -STEP_LIMIT <= r <= STEP_LIMIT,
        -UNIT <= b <= UNIT ==> -abs_fx(a as int) <= r <= abs_fx(a as int),
{
    let aa: u64 = if a < 0 { (-a) as u64 } else { a as u64 };
    let bb: u64 = if b < 0 { (-b) as u64 } else { b as u64 };
    proof {
        assert((aa as int) * (bb as int) <= (STEP_LIMIT as int) * ((2 * UNIT) as int))
            by (nonlinear_arith)
            requires
                0 <= aa as int <= STEP_LIMIT as int,
                0 <= bb as int <= (2 * UNIT) as int,
        ;
    }
    let p: u64 = aa * bb;
    let q: u64 = p / (UNIT as u64);
    proof {
        assert((p as int) / (UNIT as int) <= (STEP_LIMIT as int) * 2) by (nonlinear_arith)
            requires
                0 <= p as int <= (STEP_LIMIT as int) * ((2 * UNIT) as int),
        ;
        if -UNIT <= a <= UNIT && -2 * UNIT <= b <= 2 * UNIT {
            assert((aa as int) * (bb as int) <= (UNIT as int) * ((2 * UNIT) as int))
                by (nonlinear_arith)
                requires
                    0 <= aa as int <= UNIT as int,
                    0 <= bb as int <= (2 * UNIT) as int,
            ;
            assert((p as int) / (UNIT as int) <= 2 * UNIT) by (nonlinear_arith)
                requires
                    0 <= p as int <= (UNIT as int) * ((2 * UNIT) as int),
            ;
        }
        if -UNIT <= b <= UNIT {
            assert((aa as int) * (bb as int) <= (aa as int) * (UNIT as int))
                by (nonlinear_arith)
                requires
                    0 <= aa as int,
                    0 <= bb as int <= UNIT as int,
            ;
            assert((p as int) / (UNIT as int) <= aa as int) by (nonlinear_arith)
                requires
                    0 <= p as int <= (aa as int) * (UNIT as int),
            ;
        }
        if -UNIT <= a <= UNIT && -UNIT <= b <= UNIT {
            assert((aa as int) * (bb as int) <= (UNIT as int) * (UNIT as int))
                by (nonlinear_arith)
                requires
                    0 <= aa as int <= UNIT as int,
                    0 <= bb as int <= UNIT as int,
            ;
            assert((p as int) / (UNIT as int) <= UNIT) by (nonlinear_arith)
                requires
                    0 <= p as int <= (UNIT as int) * (UNIT as int),
            ;
        }
        lemma_abs_mul(a as int, b as int);
        assert((aa as int) * (bb as int) == (
            if (a as int) * (b as int) >= 0 {
                (a as int) * (b as int)
            } else {
                -((a as int) * (b as int))
            }
        ));
    }
    let neg = (a < 0) != (b < 0);
    if neg {
        -(q as i64)
    } else {
        q as i64
    }
}

/// The magnitude of a product is the product of the magnitudes.
proof fn lemma_abs_mul(a: int, b: int)
    ensures
        (if a < 0 { -a } else { a }) * (if b < 0 { -b } else { b })
            == (if a * b >= 0 { a * b } else { -(a * b) }),
        (a < 0) != (b < 0) && a * b != 0 ==> a * b < 0,
        !((a < 0) != (b < 0)) ==> a * b >= 0,
{
    assert((if a < 0 { -a } else { a }) * (if b < 0 { -b } else { b })
        == (if a * b >= 0 { a * b } else { -(a * b) })) by (nonlinear_arith);
    assert((a < 0) != (b < 0) && a * b != 0 ==> a * b < 0) by (nonlinear_arith);
    assert(!((a < 0) != (b < 0)) ==> a * b >= 0) by (nonlinear_arith);
}

/// Clamps a coordinate into the world bound.
pub fn clamp_pos_fx(v: i64) -> (r: i64)
    ensures
        r == clamp_pos(v as int),
        -POS_LIMIT <= r <= POS_LIMIT,
{
    if v < -POS_LIMIT {
        -POS_LIMIT
    } else if v > POS_LIMIT {
        POS_LIMIT
    } else {
        v
    }
}

} // verus!
