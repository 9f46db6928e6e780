//! Clamping of commanded linear acceleration to per-class actuator limits.
//!
//! A commanded acceleration, already decomposed into the agent's local
//! forward/lateral axes, is scaled down whole — direction preserved — until
//! the forward component fits the forward or backward limit and the lateral
//! component fits the lateral limit. The physics engine downstream can then
//! rely on bounded inputs without knowing about per-class limits.
use vstd::prelude::*;
use crate::mathx::{abs_spec, Vec2};

verus! {

/// A negative published limit reads as zero.
pub open spec fn sanitize_limit_spec(v: int) -> int {
    if v < 0 { 0 } else { v }
}

/// Reads a published limit, treating negative values as zero.
pub fn sanitize_limit(v: i64) -> (r: i64)
    ensures
        r == sanitize_limit_spec(v as int),
        r >= 0,
{
    if v < 0 { 0 } else { v }
}

/// Sign-preserving scaling of `y` by the fraction `num / den`, rounding the
/// magnitude toward zero.
pub open spec fn scale_frac_spec(y: int, num: int, den: int) -> int
    recommends 0 <= num <= den, 0 < den,
{
    if y >= 0 { y * num / den } else { -((-y) * num / den) }
}

/// Scaling by a fraction of at most one preserves the sign and never grows
/// the magnitude.
pub proof fn lemma_scale_frac_bounds(y: int, num: int, den: int)
    requires
        0 <= num <= den,
        0 < den,
    ensures
        abs_spec(scale_frac_spec(y, num, den)) <= abs_spec(y),
        y >= 0 ==> 0 <= scale_frac_spec(y, num, den) <= y,
        y <= 0 ==> y <= scale_frac_spec(y, num, den) <= 0,
{
    if y >= 0 {
        assert(0 <= y * num / den <= y) by (nonlinear_arith)
            requires 0 <= y && 0 <= num <= den && 0 < den;
    } else {
        assert(0 <= (-y) * num / den <= -y) by (nonlinear_arith)
            requires 0 <= -y && 0 <= num <= den && 0 < den;
    }
}

fn scale_frac(y: i64, num: i64, den: i128) -> (r: i64)
    requires
        0 <= num <= den,
        0 < den,
    ensures
        r == scale_frac_spec(y as int, num as int, den as int),
        abs_spec(r as int) <= abs_spec(y as int),
{
    proof {
        lemma_scale_frac_bounds(y as int, num as int, den as int);
    }
    let neg: bool = y < 0;
    let ay: i128 = if y < 0 { -(y as i128) } else { y as i128 };
    proof {
        assert(0 <= ay * (num as i128) <= ay * den) by (nonlinear_arith)
            requires 0 <= ay && 0 <= num as i128 <= den;
        assert(ay * (num as i128) < 0x4000_0000_0000_0000_0000_0000_0000_0000i128) by (nonlinear_arith)
            requires
                0 <= ay <= 0x8000_0000_0000_0000i128,
                0 <= (num as i128) && (num as i128) < 0x8000_0000_0000_0000i128;
        assert((ay as int) * (num as int) / (den as int) <= ay as int) by (nonlinear_arith)
            requires 0 <= ay as int && 0 <= num as int <= den as int && 0 < den as int;
    }
    let m: i128 = ay * (num as i128) / den;
    let signed: i128 = if neg { -m } else { m };
    proof {
        assert(m == (ay as int) * (num as int) / (den as int));
    }
    signed as i64
}

/// The forward clamp: a command whose forward component exceeds the forward
/// limit is scaled down whole until that component equals the limit.
pub open spec fn scale_forward_spec(v: Vec2, maxf: int) -> Vec2
    recommends maxf >= 0,
{
    if v.x > maxf {
        Vec2 { x: maxf as i64, y: scale_frac_spec(v.y as int, maxf, v.x as int) as i64 }
    } else {
        v
    }
}

/// The backward clamp, symmetric to the forward clamp.
pub open spec fn scale_backward_spec(v: Vec2, maxb: int) -> Vec2
    recommends maxb >= 0,
{
    if v.x < -maxb {
        Vec2 { x: (-maxb) as i64, y: scale_frac_spec(v.y as int, maxb, -(v.x as int)) as i64 }
    } else {
        v
    }
}

/// The lateral clamp: a command whose lateral magnitude exceeds the lateral
/// limit is scaled down whole until that magnitude equals the limit.
pub open spec fn scale_lateral_spec(v: Vec2, maxl: int) -> Vec2
    recommends maxl >= 0,
{
    if abs_spec(v.y as int) > maxl {
        Vec2 {
            x: scale_frac_spec(v.x as int, maxl, abs_spec(v.y as int)) as i64,
            y: (if v.y >= 0 { maxl } else { -maxl }) as i64,
        }
    } else {
        v
    }
}

/// The committed local acceleration: the forward, backward and lateral clamps
/// applied in that order to the commanded local acceleration, with negative
/// published limits read as zero.
pub open spec fn clamp_accel_spec(v: Vec2, maxf: int, maxb: int, maxl: int) -> Vec2 {
    let f = sanitize_limit_spec(maxf);
    let b = sanitize_limit_spec(maxb);
    let l = sanitize_limit_spec(maxl);
    scale_lateral_spec(scale_backward_spec(scale_forward_spec(v, f), b), l)
}

/// Clamps a commanded local acceleration to the published per-axis limits.
pub fn clamp_acceleration(v: Vec2, maxf: i64, maxb: i64, maxl: i64) -> (r: Vec2)
    ensures
        r == clamp_accel_spec(v, maxf as int, maxb as int, maxl as int),
{
    let f: i64 = sanitize_limit(maxf);
    let b: i64 = sanitize_limit(maxb);
    let l: i64 = sanitize_limit(maxl);
    let after_forward: Vec2 = if v.x > f {
        let y = scale_frac(v.y, f, v.x as i128);
        Vec2 { x: f, y }
    } else {
        v
    };
    let after_backward: Vec2 = if after_forward.x < -b {
        let den: i128 = -(after_forward.x as i128);
        let y = scale_frac(after_forward.y, b, den);
        Vec2 { x: -b, y }
    } else {
        after_forward
    };
    let ay: i128 = if after_backward.y < 0 { -(after_backward.y as i128) } else { after_backward.y as i128 };
    if ay > l as i128 {
        let x = scale_frac(after_backward.x, l, ay);
        let y: i64 = if after_backward.y >= 0 { l } else { -l };
        Vec2 { x, y }
    } else {
        after_backward
    }
}

/// What the acceleration clamp guarantees, for every commanded local
/// acceleration and all published limits:
/// the committed magnitude on each axis never exceeds that axis's limit, the
/// direction of each component is preserved, a command within all limits is
/// committed unchanged, and the axis whose limit binds is committed at
/// exactly its limit.
pub proof fn lemma_accel_clamped(v: Vec2, maxf: int, maxb: int, maxl: int)
    requires
        maxf >= 0,
        maxb >= 0,
        maxl >= 0,
    ensures
        -maxb <= clamp_accel_spec(v, maxf, maxb, maxl).x <= maxf,
        -maxl <= clamp_accel_spec(v, maxf, maxb, maxl).y <= maxl,
        v.x >= 0 ==> clamp_accel_spec(v, maxf, maxb, maxl).x >= 0,
        v.x <= 0 ==> clamp_accel_spec(v, maxf, maxb, maxl).x <= 0,
        v.y >= 0 ==> clamp_accel_spec(v, maxf, maxb, maxl).y >= 0,
        v.y <= 0 ==> clamp_accel_spec(v, maxf, maxb, maxl).y <= 0,
        (-maxb <= v.x <= maxf && -maxl <= v.y <= maxl)
            ==> clamp_accel_spec(v, maxf, maxb, maxl) == v,
        (-maxb <= v.x <= maxf && abs_spec(v.y as int) > maxl)
            ==> clamp_accel_spec(v, maxf, maxb, maxl).y == (if v.y >= 0 { maxl } else { -maxl }),
        (v.x > maxf && abs_spec(scale_frac_spec(v.y as int, maxf, v.x as int)) <= maxl)
            ==> clamp_accel_spec(v, maxf, maxb, maxl).x == maxf,
        (v.x < -maxb && abs_spec(scale_frac_spec(v.y as int, maxb, -(v.x as int))) <= maxl)
            ==> clamp_accel_spec(v, maxf, maxb, maxl).x == -maxb,
{
    let f = scale_forward_spec(v, maxf);
    if v.x > maxf {
        lemma_scale_frac_bounds(v.y as int, maxf, v.x as int);
    }
    let b = scale_backward_spec(f, maxb);
    if f.x < -maxb {
        lemma_scale_frac_bounds(f.y as int, maxb, -(f.x as int));
    }
    let l = scale_lateral_spec(b, maxl);
    if abs_spec(b.y as int) > maxl {
        lemma_scale_frac_bounds(b.x as int, maxl, abs_spec(b.y as int));
    }
}

} // verus!
