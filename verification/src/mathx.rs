//! Fixed-point scalar and vector arithmetic for the control interface.
//!
//! One fixed-point unit is a thousandth of the base unit (`SCALE` units per
//! whole); angles are in milliradians, with a full turn of `TAU_MRAD` units.
//! The trigonometric functions are a rational approximation, exact by
//! definition here: every contract that mentions them speaks of `sin_unit_spec`
//! and its derivatives, so the physics downstream is verified against the same
//! tables the agents use.
use vstd::prelude::*;

verus! {

/// Fixed-point fraction: units per whole.
pub const SCALE: i64 = 1000;

/// Half a turn in milliradians.
pub const PI_MRAD: i64 = 3141;

/// A full turn in milliradians.
pub const TAU_MRAD: i64 = 6283;

/// A quarter turn in milliradians.
pub const QUARTER_MRAD: i64 = 1571;

/// Normalizes an angle into `[0, TAU_MRAD)`.
pub open spec fn norm_angle_spec(a: int) -> int {
    a % (TAU_MRAD as int)
}

/// Normalizes an angle into `[0, TAU_MRAD)`, congruent to the argument.
pub fn norm_angle(a: i64) -> (r: i64)
    ensures
        0 <= r < TAU_MRAD,
        r as int == norm_angle_spec(a as int),
{
    let m: i64 = a % TAU_MRAD;
    if m < 0 { m + TAU_MRAD } else { m }
}

/// The parabola `x * (PI_MRAD - x)` at the heart of the sine approximation.
pub open spec fn sin_prod(x: int) -> int {
    x * ((PI_MRAD as int) - x)
}

/// The quadratic sine approximation on the half turn `[0, PI_MRAD]`,
/// scaled by `SCALE`.
pub open spec fn sin_half_spec(x: int) -> int {
    16 * sin_prod(x) * (SCALE as int)
        / (5 * (PI_MRAD as int) * (PI_MRAD as int) - 4 * sin_prod(x))
}

/// Sine of a normalized angle in `[0, TAU_MRAD)`, scaled by `SCALE`.
pub open spec fn sin_unit_spec(x: int) -> int {
    if x <= PI_MRAD {
        sin_half_spec(x)
    } else {
        -sin_half_spec(x - PI_MRAD)
    }
}

/// Sine of any angle, scaled by `SCALE`.
pub open spec fn sin_fp_spec(a: int) -> int {
    sin_unit_spec(norm_angle_spec(a))
}

/// Cosine of any angle, scaled by `SCALE`: sine a quarter turn ahead.
pub open spec fn cos_fp_spec(a: int) -> int {
    sin_unit_spec((norm_angle_spec(a) + QUARTER_MRAD) % (TAU_MRAD as int))
}

/// The sine numerator product `x * (PI_MRAD - x)` is bounded on the half turn.
proof fn lemma_sin_product_bounds(x: int)
    requires
        0 <= x <= PI_MRAD,
    ensures
        0 <= sin_prod(x) <= 2466470,
{
    assert(0 <= x * (3141 - x) && x * (3141 - x) <= 2466470) by (nonlinear_arith)
        requires 0 <= x <= 3141;
}

fn sin_half(x: i64) -> (r: i64)
    requires
        0 <= x <= PI_MRAD,
    ensures
        r == sin_half_spec(x as int),
        0 <= r <= SCALE,
{
    proof {
        lemma_sin_product_bounds(x as int);
    }
    let p: i64 = x * (PI_MRAD - x);
    let num: i64 = 16 * p * SCALE;
    let den: i64 = 5 * PI_MRAD * PI_MRAD - 4 * p;
    let r: i64 = num / den;
    proof {
        assert(num <= 1000 * den) by (nonlinear_arith)
            requires
                num == 16 * p * 1000,
                den == 5 * 3141 * 3141 - 4 * p,
                p <= 2466470;
        assert(num / den <= 1000 && num / den >= 0) by (nonlinear_arith)
            requires num <= 1000 * den && num >= 0 && den > 0;
    }
    r
}

/// Sine of a normalized angle, scaled by `SCALE`.
pub fn sin_unit(x: i64) -> (r: i64)
    requires
        0 <= x < TAU_MRAD,
    ensures
        r == sin_unit_spec(x as int),
        -SCALE <= r <= SCALE,
{
    if x <= PI_MRAD {
        sin_half(x)
    } else {
        -sin_half(x - PI_MRAD)
    }
}

/// Sine of any angle, scaled by `SCALE`.
pub fn sin_fp(a: i64) -> (r: i64)
    ensures
        r == sin_fp_spec(a as int),
        -SCALE <= r <= SCALE,
{
    sin_unit(norm_angle(a))
}

/// Cosine of any angle, scaled by `SCALE`.
pub fn cos_fp(a: i64) -> (r: i64)
    ensures
        r == cos_fp_spec(a as int),
        -SCALE <= r <= SCALE,
{
    let n: i64 = norm_angle(a);
    let shifted: i64 = (n + QUARTER_MRAD) % TAU_MRAD;
    sin_unit(shifted)
}

/// Returns the smallest rotation between angles `a` and `b`.
///
/// A positive result is a counter-clockwise rotation and negative is
/// clockwise; the result is congruent to `b - a` modulo a full turn.
pub fn angle_diff(a: i64, b: i64) -> (r: i64)
    ensures
        -TAU_MRAD < r <= PI_MRAD,
        ((b as int) - (a as int) - (r as int)) % (TAU_MRAD as int) == 0,
{
    let d: i128 = b as i128 - a as i128;
    let m: i128 = d % (TAU_MRAD as i128);
    let c: i64 = if m < 0 { (m + TAU_MRAD as i128) as i64 } else { m as i64 };
    if c > PI_MRAD {
        c - TAU_MRAD
    } else {
        c
    }
}

/// A two-dimensional fixed-point vector.
#[derive(Copy, Clone, PartialEq, Eq, Structural, Debug)]
pub struct Vec2 {
    /// Horizontal component, in fixed-point units.
    pub x: i64,
    /// Vertical component, in fixed-point units.
    pub y: i64,
}

/// Builds a vector from its components.
pub fn vec2(x: i64, y: i64) -> (r: Vec2)
    ensures
        r == (Vec2 { x, y }),
{
    Vec2 { x, y }
}

/// Saturates `v` into `[lo, hi]`.
pub open spec fn clamp_spec(v: int, lo: int, hi: int) -> int {
    if v < lo { lo } else if v > hi { hi } else { v }
}

/// Saturates a value into a closed interval.
pub fn clamp_i64(v: i64, lo: i64, hi: i64) -> (r: i64)
    requires
        lo <= hi,
    ensures
        r == clamp_spec(v as int, lo as int, hi as int),
        lo <= r <= hi,
{
    if v < lo { lo } else if v > hi { hi } else { v }
}

/// The magnitude of a value.
pub open spec fn abs_spec(v: int) -> int {
    if v >= 0 { v } else { -v }
}

/// Truncating division by a positive divisor: rounds toward zero, as the
/// executable machine division does.
pub open spec fn div_trunc(a: int, b: int) -> int
    recommends b > 0,
{
    if a >= 0 { a / b } else { -((-a) / b) }
}

/// The magnitude of a truncating quotient never exceeds the magnitude of a
/// quotient with a numerator of larger magnitude.
proof fn lemma_div_trunc_bound(a: int, b: int)
    requires
        b > 0,
    ensures
        a >= 0 ==> 0 <= div_trunc(a, b) <= a,
        a < 0 ==> a <= div_trunc(a, b) <= 0,
{
    if a >= 0 {
        assert(0 <= a / b <= a) by (nonlinear_arith) requires a >= 0 && b > 0;
    } else {
        assert(0 <= (-a) / b <= -a) by (nonlinear_arith) requires -a > 0 && b > 0;
    }
}

/// The horizontal component of `v` rotated counter-clockwise by `a`.
pub open spec fn rotate_x_spec(v: Vec2, a: int) -> int {
    div_trunc(v.x * cos_fp_spec(a) - v.y * sin_fp_spec(a), SCALE as int)
}

/// The vertical component of `v` rotated counter-clockwise by `a`.
pub open spec fn rotate_y_spec(v: Vec2, a: int) -> int {
    div_trunc(v.x * sin_fp_spec(a) + v.y * cos_fp_spec(a), SCALE as int)
}

/// The largest coordinate magnitude the rotation accepts; far beyond any
/// world size the scenarios use.
pub const COORD_LIMIT: i64 = 0x4000_0000_0000;

impl Vec2 {
    /// Componentwise sum, saturating at the representation limits.
    pub fn add(self, o: Vec2) -> (r: Vec2)
        requires
            -COORD_LIMIT <= self.x + o.x <= COORD_LIMIT,
            -COORD_LIMIT <= self.y + o.y <= COORD_LIMIT,
        ensures
            r.x == self.x + o.x,
            r.y == self.y + o.y,
    {
        Vec2 { x: self.x + o.x, y: self.y + o.y }
    }

    /// Componentwise difference.
    pub fn sub(self, o: Vec2) -> (r: Vec2)
        requires
            -COORD_LIMIT <= self.x - o.x <= COORD_LIMIT,
            -COORD_LIMIT <= self.y - o.y <= COORD_LIMIT,
        ensures
            r.x == self.x - o.x,
            r.y == self.y - o.y,
    {
        Vec2 { x: self.x - o.x, y: self.y - o.y }
    }

    /// Componentwise saturation into `[-limit, limit]`.
    pub fn clamped(self, limit: i64) -> (r: Vec2)
        requires
            limit >= 0,
        ensures
            r.x == clamp_spec(self.x as int, -(limit as int), limit as int),
            r.y == clamp_spec(self.y as int, -(limit as int), limit as int),
    {
        Vec2 { x: clamp_i64(self.x, -limit, limit), y: clamp_i64(self.y, -limit, limit) }
    }

    /// Rotates the vector counter-clockwise by `angle` milliradians.
    pub fn rotate(self, angle: i64) -> (r: Vec2)
        requires
            -COORD_LIMIT <= self.x <= COORD_LIMIT,
            -COORD_LIMIT <= self.y <= COORD_LIMIT,
        ensures
            r.x == rotate_x_spec(self, angle as int),
            r.y == rotate_y_spec(self, angle as int),
            -(abs_spec(self.x as int) + abs_spec(self.y as int)) <= r.x
                <= abs_spec(self.x as int) + abs_spec(self.y as int),
            -(abs_spec(self.x as int) + abs_spec(self.y as int)) <= r.y
                <= abs_spec(self.x as int) + abs_spec(self.y as int),
    {
        let c: i64 = cos_fp(angle);
        let s: i64 = sin_fp(angle);
        proof {
            lemma_rotate_term_bound(self.x as int, self.y as int, c as int, s as int);
        }
        let ghost b = abs_spec(self.x as int) + abs_spec(self.y as int);
        let xw: i128 = self.x as i128;
        let yw: i128 = self.y as i128;
        let nx: i128 = xw * (c as i128) - yw * (s as i128);
        let ny: i128 = xw * (s as i128) + yw * (c as i128);
        let rx: i128 = div_i128_by_scale(nx, Ghost(b));
        let ry: i128 = div_i128_by_scale(ny, Ghost(b));
        Vec2 { x: rx as i64, y: ry as i64 }
    }
}

/// Each rotation product stays within `SCALE` times the magnitude of its
/// coordinate factor.
proof fn lemma_rotate_term_bound(x: int, y: int, c: int, s: int)
    requires
        -COORD_LIMIT <= x <= COORD_LIMIT,
        -COORD_LIMIT <= y <= COORD_LIMIT,
        -SCALE <= c <= SCALE,
        -SCALE <= s <= SCALE,
    ensures
        -abs_spec(x) * 1000 <= x * c <= abs_spec(x) * 1000,
        -abs_spec(y) * 1000 <= y * s <= abs_spec(y) * 1000,
        -abs_spec(x) * 1000 <= x * s <= abs_spec(x) * 1000,
        -abs_spec(y) * 1000 <= y * c <= abs_spec(y) * 1000,
{
    let ax = abs_spec(x);
    let ay = abs_spec(y);
    assert(-ax * 1000 <= x * c <= ax * 1000) by (nonlinear_arith)
        requires -ax <= x <= ax && -1000 <= c <= 1000;
    assert(-ay * 1000 <= y * s <= ay * 1000) by (nonlinear_arith)
        requires -ay <= y <= ay && -1000 <= s <= 1000;
    assert(-ax * 1000 <= x * s <= ax * 1000) by (nonlinear_arith)
        requires -ax <= x <= ax && -1000 <= s <= 1000;
    assert(-ay * 1000 <= y * c <= ay * 1000) by (nonlinear_arith)
        requires -ay <= y <= ay && -1000 <= c <= 1000;
}

/// Truncating division of a bounded wide value by `SCALE`.
fn div_i128_by_scale(n: i128, bound: Ghost<int>) -> (r: i128)
    requires
        0 <= bound@ <= 2 * (COORD_LIMIT as int),
        -bound@ * (SCALE as int) <= n <= bound@ * (SCALE as int),
    ensures
        r == div_trunc(n as int, SCALE as int),
        -bound@ <= r <= bound@,
{
    proof {
        lemma_div_trunc_bound(n as int, SCALE as int);
        if n >= 0 {
            assert((n as int) / 1000 <= bound@) by (nonlinear_arith)
                requires 0 <= n <= bound@ * 1000;
        } else {
            assert((-(n as int)) / 1000 <= bound@) by (nonlinear_arith)
                requires 0 < -(n as int) <= bound@ * 1000;
        }
    }
    n / (SCALE as i128)
}

} // verus!
