use vstd::prelude::*;

verus! {

use vstd::arithmetic::div_mod::lemma_fundamental_div_mod_converse;

/// Scalar values are fixed-point numbers: an `i64` holding `value * FX_ONE`.
/// All arithmetic saturates at `FX_MAX` instead of overflowing, so every
/// operation is total and no input can make the library panic.
pub type Fx = i64;

/// Number of fixed-point units in 1.0 (16 fractional bits).
pub const FX_ONE: i64 = 65536;

/// Saturation bound of every fixed-point computation (2^46 units, about
/// 2^30 whole units): products of two in-range values divided by `FX_ONE`
/// always fit in an `i64`.
pub const FX_MAX: i64 = 0x4000_0000_0000;

/// Pi in fixed-point units.
pub const FX_PI: i64 = 205887;

/// A full turn in fixed-point units; exactly twice `FX_PI`, so that the
/// short-path wrapping of angle deltas is exact.
pub const FX_TAU: i64 = 2 * FX_PI;

/// Pi / 2, rounded to the nearest fixed-point unit.
pub const FX_HALF_PI: i64 = 102944;

pub open spec fn abs_i(x: int) -> int {
    if x >= 0 {
        x
    } else {
        -x
    }
}

/// Saturation of a mathematical integer into the representable range.
pub open spec fn fx_clip(x: int) -> int {
    if x > FX_MAX as int {
        FX_MAX as int
    } else if x < -(FX_MAX as int) {
        -(FX_MAX as int)
    } else {
        x
    }
}

/// Division rounding toward zero, the rounding used by every fixed-point
/// multiplication and division here.
pub open spec fn div_trunc(a: int, b: int) -> int {
    let q = abs_i(a) / abs_i(b);
    if (a >= 0) == (b >= 0) {
        q
    } else {
        -q
    }
}

/// `fx_clip` with the result typed back as a scalar.
pub open spec fn fxc(x: int) -> Fx {
    fx_clip(x) as i64
}

/// Fixed-point multiplication as a mathematical function.
pub open spec fn fx_mul_s(a: int, b: int) -> Fx {
    fxc(div_trunc(a * b, FX_ONE as int))
}

/// Fixed-point division as a mathematical function.
pub open spec fn fx_div_s(a: int, b: int) -> Fx {
    fxc(div_trunc(a * (FX_ONE as int), b))
}

fn clip_i128(x: i128) -> (r: Fx)
    ensures
        r == fxc(x as int),
{
    if x > FX_MAX as i128 {
        FX_MAX
    } else if x < -(FX_MAX as i128) {
        -FX_MAX
    } else {
        x as i64
    }
}

pub(crate) fn clip_u128_pos(q: u128) -> (r: Fx)
    ensures
        r == fxc(q as int),
{
    if q > FX_MAX as u128 {
        FX_MAX
    } else {
        q as i64
    }
}

pub(crate) fn clip_u128_neg(q: u128) -> (r: Fx)
    ensures
        r == fxc(-(q as int)),
{
    if q > FX_MAX as u128 {
        -FX_MAX
    } else {
        -(q as i64)
    }
}

pub(crate) fn abs_u128(a: i64) -> (r: u128)
    ensures
        r == abs_i(a as int),
{
    if a >= 0 {
        a as u128
    } else {
        (-(a as i128)) as u128
    }
}

/// Saturating addition.
pub fn fx_add(a: Fx, b: Fx) -> (r: Fx)
    ensures
        r == fxc(a + b),
{
    clip_i128(a as i128 + b as i128)
}

/// Saturating subtraction.
pub fn fx_sub(a: Fx, b: Fx) -> (r: Fx)
    ensures
        r == fxc(a - b),
{
    clip_i128(a as i128 - b as i128)
}

/// Saturating negation.
pub fn fx_neg(a: Fx) -> (r: Fx)
    ensures
        r == fxc(-a),
{
    clip_i128(-(a as i128))
}

/// Saturating fixed-point multiplication, rounding toward zero.
pub fn fx_mul(a: Fx, b: Fx) -> (r: Fx)
    ensures
        r == fx_mul_s(a as int, b as int),
{
    proof {
        assert((a as int) * (b as int) <= 0x4000_0000_0000_0000_0000_0000_0000_0000int && (a
            as int) * (b as int) >= -0x4000_0000_0000_0000_0000_0000_0000_0000int)
            by (nonlinear_arith)
            requires
                (a as int) >= -0x8000_0000_0000_0000int && (a as int) <= 0x8000_0000_0000_0000int,
                (b as int) >= -0x8000_0000_0000_0000int && (b as int) <= 0x8000_0000_0000_0000int,
        ;
    }
    let p: i128 = (a as i128) * (b as i128);
    let m: u128 = if p >= 0 {
        p as u128
    } else {
        (-p) as u128
    };
    let q: u128 = m / (FX_ONE as u128);
    if p >= 0 {
        clip_u128_pos(q)
    } else {
        clip_u128_neg(q)
    }
}

/// Saturating fixed-point division, rounding toward zero.
pub fn fx_div(a: Fx, b: Fx) -> (r: Fx)
    requires
        b != 0,
    ensures
        r == fx_div_s(a as int, b as int),
{
    let ma: u128 = abs_u128(a) * (FX_ONE as u128);
    let mb: u128 = abs_u128(b);
    let q: u128 = ma / mb;
    proof {
        assert(abs_i((a as int) * (FX_ONE as int)) == abs_i(a as int) * (FX_ONE as int)
            && ((a as int) * (FX_ONE as int) >= 0) == (a as int >= 0)) by (nonlinear_arith)
            requires
                FX_ONE == 65536,
        ;
    }
    if (a < 0) == (b < 0) {
        clip_u128_pos(q)
    } else {
        clip_u128_neg(q)
    }
}

/// Smaller of two scalars.
pub fn fx_min(a: Fx, b: Fx) -> (r: Fx)
    ensures
        r == if a <= b { a } else { b },
{
    if a <= b {
        a
    } else {
        b
    }
}

/// Larger of two scalars.
pub fn fx_max(a: Fx, b: Fx) -> (r: Fx)
    ensures
        r == if a >= b { a } else { b },
{
    if a >= b {
        a
    } else {
        b
    }
}

/// A square never multiplies to a negative value, and saturation keeps it
/// representable.
pub proof fn lemma_fx_mul_square_nonneg(x: int)
    ensures
        0 <= fx_mul_s(x, x) <= FX_MAX as int,
{
    assert(x * x >= 0) by (nonlinear_arith);
    if x * x > 0 {
        vstd::arithmetic::div_mod::lemma_div_pos_is_pos(x * x, FX_ONE as int);
    }
}

/// Sign symmetry and commutativity of the fixed-point product: negating a
/// factor negates the product, and the factors commute.
pub proof fn lemma_fx_mul_s_neg(a: int, b: int)
    ensures
        fx_mul_s(a, -b) == -fx_mul_s(a, b),
        fx_mul_s(-a, b) == -fx_mul_s(a, b),
        fx_mul_s(a, b) == fx_mul_s(b, a),
{
    assert(a * (-b) == -(a * b) && (-a) * b == -(a * b) && a * b == b * a) by (nonlinear_arith);
}

/// Zero times anything is zero, also in fixed point.
pub proof fn lemma_fx_mul_zero_left(b: int)
    ensures
        fx_mul_s(0, b) == 0,
{
    assert(0 * b == 0) by (nonlinear_arith);
    vstd::arithmetic::div_mod::lemma_div_of0(FX_ONE as int);
}

/// Clamping into a closed interval, as a mathematical function.
pub open spec fn fx_clamp_s(x: int, lo: int, hi: int) -> int {
    if x < lo {
        lo
    } else if x > hi {
        hi
    } else {
        x
    }
}

/// Clamps a scalar into `[lo, hi]`.
pub fn fx_clamp(x: Fx, lo: Fx, hi: Fx) -> (r: Fx)
    requires
        lo <= hi,
    ensures
        r == fx_clamp_s(x as int, lo as int, hi as int),
{
    if x < lo {
        lo
    } else if x > hi {
        hi
    } else {
        x
    }
}

/// Saturating absolute value.
pub fn fx_abs(a: Fx) -> (r: Fx)
    ensures
        r == fxc(abs_i(a as int)),
{
    if a >= 0 {
        clip_i128(a as i128)
    } else {
        clip_i128(-(a as i128))
    }
}

/// Rounding to the nearest multiple of `step` (ties away from zero), as a
/// mathematical function. A step of zero means no snapping.
pub open spec fn round_to_interval_spec(v: int, step: int) -> int {
    if step <= 0 {
        v
    } else {
        fx_clip(round_div_nearest(v, step) * step)
    }
}

/// Nearest integer to `v / step` for positive `step`, ties away from zero.
pub open spec fn round_div_nearest(v: int, step: int) -> int {
    let q = abs_i(v) / step;
    let rm = abs_i(v) % step;
    let qq = if 2 * rm >= step {
        q + 1
    } else {
        q
    };
    if v >= 0 {
        qq
    } else {
        -qq
    }
}

/// Snaps `v` to the nearest multiple of `step`; `step == 0` disables
/// snapping and returns `v` unchanged.
pub fn round_to_interval(v: Fx, step: Fx) -> (r: Fx)
    ensures
        r == round_to_interval_spec(v as int, step as int),
        step <= 0 ==> r == v,
{
    if step <= 0 {
        v
    } else {
        let m: u128 = abs_u128(v);
        let s: u128 = step as u128;
        let q: u128 = m / s;
        let rm: u128 = m % s;
        let qq: u128 = if 2 * rm >= s {
            q + 1
        } else {
            q
        };
        proof {
            vstd::arithmetic::div_mod::lemma_fundamental_div_mod(m as int, s as int);
            assert((s as int) * (q as int) == m - rm);
            assert((qq as int) * (s as int) <= m + s && (qq as int) * (s as int) >= 0 && (-(qq
                as int)) * (s as int) == -((qq as int) * (s as int))) by (nonlinear_arith)
                requires
                    (qq as int) == (q as int) + 1 || (qq as int) == (q as int),
                    (s as int) * (q as int) <= m as int,
                    (q as int) >= 0,
                    (s as int) >= 1,
                    (m as int) >= 0,
            ;
        }
        let prod: u128 = qq * s;
        if v >= 0 {
            clip_u128_pos(prod)
        } else {
            clip_u128_neg(prod)
        }
    }
}

/// Snapping with a zero step changes nothing: the identity half of the
/// snapping law.
pub proof fn lemma_round_to_interval_zero_step(v: int)
    ensures
        round_to_interval_spec(v, 0) == v,
{
}

/// Snapping lands on the mathematically nearest multiple: whenever `v` lies
/// strictly within half a step of `k * step`, the snapped value is exactly
/// `k * step`.
pub proof fn lemma_round_to_interval_nearest(v: int, step: int, k: int)
    requires
        0 < step,
        2 * abs_i(v - k * step) < step,
        abs_i(k * step) <= FX_MAX as int,
    ensures
        round_to_interval_spec(v, step) == k * step,
{
    let e = v - k * step;
    if v >= 0 {
        if e >= 0 {
            assert(k * step >= 0) by (nonlinear_arith)
                requires
                    step > 0,
                    k * step == v - e,
                    v >= 0,
                    2 * e < step,
                    e >= 0,
            ;
            assert(k >= 0) by (nonlinear_arith)
                requires
                    step > 0,
                    k * step >= 0,
            ;
            lemma_fundamental_div_mod_converse(v, step, k, e);
            assert(round_div_nearest(v, step) == k);
        } else {
            assert(k >= 1) by (nonlinear_arith)
                requires
                    step > 0,
                    k * step == v - e,
                    v >= 0,
                    e < 0,
                    2 * (-e) < step,
            ;
            assert(v == (k - 1) * step + (step + e)) by (nonlinear_arith)
                requires
                    v == k * step + e,
            ;
            lemma_fundamental_div_mod_converse(v, step, k - 1, step + e);
            assert(2 * (step + e) >= step);
            assert(round_div_nearest(v, step) == k);
        }
    } else {
        if e <= 0 {
            assert(k <= 0) by (nonlinear_arith)
                requires
                    step > 0,
                    k * step == v - e,
                    v < 0,
                    e <= 0,
                    2 * (-e) < step,
            ;
            assert(-v == (-k) * step + (-e)) by (nonlinear_arith)
                requires
                    v == k * step + e,
            ;
            lemma_fundamental_div_mod_converse(-v, step, -k, -e);
            assert(round_div_nearest(v, step) == k);
        } else {
            assert(k <= -1) by (nonlinear_arith)
                requires
                    step > 0,
                    k * step == v - e,
                    v < 0,
                    e > 0,
                    2 * e < step,
            ;
            assert(-v == (-k - 1) * step + (step - e)) by (nonlinear_arith)
                requires
                    v == k * step + e,
            ;
            lemma_fundamental_div_mod_converse(-v, step, -k - 1, step - e);
            assert(2 * (step - e) >= step);
            assert(round_div_nearest(v, step) == k);
        }
    }
    assert(round_div_nearest(v, step) * step == k * step);
}

/// One-step wrapping of an angle delta into the short-path representative,
/// as a mathematical function. Saturation only matters for deltas beyond
/// several turns, which no angle difference produces.
pub open spec fn wrap_angle_delta_spec(d: int) -> int {
    if d > FX_PI as int {
        fx_clip(d - FX_TAU as int)
    } else if d < -(FX_PI as int) {
        fx_clip(d + FX_TAU as int)
    } else {
        d
    }
}

/// Wraps the per-frame change of a rotation angle into `[-pi, pi]`, so that
/// a drag crossing the `+-pi` boundary is read as the short signed step and
/// never as a near-full turn in the other direction.
pub fn wrap_angle_delta(d: Fx) -> (r: Fx)
    ensures
        r == wrap_angle_delta_spec(d as int),
{
    if d > FX_PI {
        fx_sub(d, FX_TAU)
    } else if d < -FX_PI {
        fx_add(d, FX_TAU)
    } else {
        d
    }
}

/// The short-path law of angle unwrapping: for any delta of less than a
/// full turn, the wrapped delta differs from the raw delta by a whole turn
/// or not at all, lands in `[-pi, pi]`, and whenever the raw delta crossed
/// the `+-pi` boundary the wrapped delta points the other way round.
pub proof fn lemma_wrap_short_path(d: int)
    requires
        abs_i(d) < FX_TAU as int,
    ensures
        abs_i(wrap_angle_delta_spec(d)) <= FX_PI as int,
        wrap_angle_delta_spec(d) == d || wrap_angle_delta_spec(d) == d - FX_TAU as int
            || wrap_angle_delta_spec(d) == d + FX_TAU as int,
        abs_i(d) > FX_PI as int ==> wrap_angle_delta_spec(d) != d && d * wrap_angle_delta_spec(d)
            <= 0,
{
    if d > FX_PI as int {
        assert(d * (d - FX_TAU as int) <= 0) by (nonlinear_arith)
            requires
                (FX_PI as int) < d && d < (FX_TAU as int),
                FX_TAU == 2 * FX_PI,
        ;
    } else if d < -(FX_PI as int) {
        assert(d * (d + FX_TAU as int) <= 0) by (nonlinear_arith)
            requires
                -(FX_TAU as int) < d && d < -(FX_PI as int),
                FX_TAU == 2 * FX_PI,
        ;
    }
}

/// Division of magnitudes rounding away from zero, for a positive divisor.
pub open spec fn div_ceil_mag(a: int, b: int) -> int {
    let q = (abs_i(a) + b - 1) / b;
    if a >= 0 {
        q
    } else {
        -q
    }
}

/// Fixed-point multiplication rounding away from zero, as a mathematical
/// function.
pub open spec fn fx_mul_up_s(a: int, b: int) -> Fx {
    fxc(div_ceil_mag(a * b, FX_ONE as int))
}

/// Saturating fixed-point multiplication that rounds away from zero, so a
/// product of positive factors stays positive: the scale composition uses
/// it to keep scales from collapsing to zero.
pub fn fx_mul_up(a: Fx, b: Fx) -> (r: Fx)
    ensures
        r == fx_mul_up_s(a as int, b as int),
        a > 0 && b > 0 ==> r > 0,
{
    proof {
        assert((a as int) * (b as int) <= 0x4000_0000_0000_0000_0000_0000_0000_0000int && (a
            as int) * (b as int) >= -0x4000_0000_0000_0000_0000_0000_0000_0000int && (a > 0 && b
            > 0 ==> (a as int) * (b as int) >= 1)) by (nonlinear_arith)
            requires
                (a as int) >= -0x8000_0000_0000_0000int && (a as int) <= 0x8000_0000_0000_0000int,
                (b as int) >= -0x8000_0000_0000_0000int && (b as int) <= 0x8000_0000_0000_0000int,
        ;
    }
    let p: i128 = (a as i128) * (b as i128);
    let m: u128 = if p >= 0 {
        p as u128
    } else {
        (-p) as u128
    };
    let q: u128 = (m + (FX_ONE as u128 - 1)) / (FX_ONE as u128);
    if p >= 0 {
        clip_u128_pos(q)
    } else {
        clip_u128_neg(q)
    }
}

/// A scale direction is a nonnegative unit combination, and the clamped
/// ratio offset stays above minus one, so their fixed-point product cannot
/// reach minus one: the scale offset stays strictly positive.
pub proof fn lemma_fx_mul_offset_above_neg_one(dir: int, delta: int)
    requires
        0 <= dir <= FX_ONE as int,
        delta >= -((FX_ONE - 7) as int),
    ensures
        fx_mul_s(dir, delta) > -(FX_ONE as int),
{
    if delta >= 0 {
        assert(dir * delta >= 0) by (nonlinear_arith)
            requires
                dir >= 0,
                delta >= 0,
        ;
        if dir * delta > 0 {
            vstd::arithmetic::div_mod::lemma_div_pos_is_pos(dir * delta, FX_ONE as int);
        }
    } else {
        assert(dir * delta >= -(FX_ONE as int) * ((FX_ONE - 7) as int) && dir * delta <= 0)
            by (nonlinear_arith)
            requires
                0 <= dir <= FX_ONE as int,
                -((FX_ONE - 7) as int) <= delta <= 0,
        ;
        assert((FX_ONE as int) * ((FX_ONE - 7) as int) == 65536int * 65529int) by (nonlinear_arith);
        vstd::arithmetic::div_mod::lemma_div_is_ordered(
            abs_i(dir * delta),
            65536int * 65529int,
            FX_ONE as int,
        );
        vstd::arithmetic::div_mod::lemma_div_multiples_vanish(65529int, 65536int);
        assert(65536int * 65529int / 65536int == 65529int);
        assert(abs_i(dir * delta) / (FX_ONE as int) <= 65529);
    }
}

/// Integer square root (largest `r` with `r * r <= x`), as a mathematical
/// function.
pub open spec fn sqrt_floor(x: int) -> int
    decreases x,
{
    if x < 1 {
        0
    } else {
        let h = sqrt_floor(x - 1);
        if (h + 1) * (h + 1) <= x {
            h + 1
        } else {
            h
        }
    }
}

pub proof fn lemma_sqrt_floor_bounds(x: int)
    requires
        x >= 0,
    ensures
        sqrt_floor(x) >= 0,
        sqrt_floor(x) * sqrt_floor(x) <= x,
        x < (sqrt_floor(x) + 1) * (sqrt_floor(x) + 1),
    decreases x,
{
    if x >= 1 {
        lemma_sqrt_floor_bounds(x - 1);
        let h = sqrt_floor(x - 1);
        if (h + 1) * (h + 1) <= x {
            assert(x < ((h + 1) + 1) * ((h + 1) + 1)) by (nonlinear_arith)
                requires
                    x - 1 < (h + 1) * (h + 1),
                    h >= 0,
            ;
        }
    }
}

pub proof fn lemma_sqrt_floor_unique(x: int, r: int)
    requires
        x >= 0,
        r >= 0,
        r * r <= x,
        x < (r + 1) * (r + 1),
    ensures
        r == sqrt_floor(x),
{
    lemma_sqrt_floor_bounds(x);
    let s = sqrt_floor(x);
    assert(r == s) by (nonlinear_arith)
        requires
            r >= 0,
            s >= 0,
            r * r <= x,
            x < (r + 1) * (r + 1),
            s * s <= x,
            x < (s + 1) * (s + 1),
    ;
}

fn isqrt_u64(x: u64) -> (r: u64)
    ensures
        r * r <= x,
        x < (r + 1) * (r + 1),
        r <= 0x1_0000_0000u64,
{
    if x == 0 {
        return 0;
    }
    let mut lo: u64 = 0;
    let mut hi: u64 = 0x1_0000_0001;
    proof {
        assert(0x1_0000_0001int * 0x1_0000_0001int > 0xffff_ffff_ffff_ffffint) by (nonlinear_arith);
    }
    while lo + 1 < hi
        invariant
            lo < hi,
            hi <= 0x1_0000_0001,
            lo * lo <= x,
            x < hi * hi,
        decreases hi - lo,
    {
        let mid: u64 = lo + (hi - lo) / 2;
        proof {
            assert((mid as int) * (mid as int) <= 0x1_0000_0001int * 0x1_0000_0001int)
                by (nonlinear_arith)
                requires
                    0 <= (mid as int) <= 0x1_0000_0001int,
            ;
        }
        if (mid as u128) * (mid as u128) <= x as u128 {
            lo = mid;
        } else {
            hi = mid;
        }
    }
    lo
}

/// Square root of a nonnegative fixed-point scalar, rounded down to the
/// nearest representable value.
pub fn fx_sqrt(a: Fx) -> (r: Fx)
    requires
        0 <= a <= FX_MAX,
    ensures
        r == sqrt_floor(a * (FX_ONE as int)),
        0 <= r <= FX_MAX,
{
    proof {
        assert((a as int) * (FX_ONE as int) <= 0x4000_0000_0000_0000int) by (nonlinear_arith)
            requires
                0 <= a <= 0x4000_0000_0000i64,
                FX_ONE == 65536,
        ;
    }
    let scaled: u64 = (a as u64) * (FX_ONE as u64);
    let r: u64 = isqrt_u64(scaled);
    proof {
        lemma_sqrt_floor_unique(scaled as int, r as int);
        assert(r <= 0x4000_0000_0000u64) by (nonlinear_arith)
            requires
                (r as int) * (r as int) <= 0x4000_0000_0000_0000int,
        ;
    }
    r as i64
}

} // verus!
