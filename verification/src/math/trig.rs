use vstd::prelude::*;

verus! {

use vstd::arithmetic::div_mod::{lemma_fundamental_div_mod, lemma_fundamental_div_mod_converse};
use crate::math::fx::{Fx, FX_ONE, FX_PI, FX_TAU, FX_HALF_PI, FX_MAX, abs_i, fx_clamp, fx_clamp_s, fx_div, fx_div_s, fx_mul, fx_mul_s, abs_u128, fx_abs, fx_add, fx_clip};

/// Pi / 4 in fixed-point units, the exact value of the arctangent
/// approximation at 1.
pub const ATAN_Q: i64 = 51472;

/// Correction weight (about 0.273) of the arctangent approximation.
pub const ATAN_K: i64 = 17891;

/// 5 * pi^2 in fixed-point units, the constant term of the sine
/// approximation's denominator.
pub const SIN_FIVE_PI_SQ: i64 = 3234055;

/// Largest value `n * (pi - n) / FX_ONE` reaches for `n` in `[0, pi]`,
/// about pi^2 / 4.
pub const SIN_M_MAX: i64 = 161703;

/// Reduction of an arbitrary angle into `[-pi, pi]`, as a mathematical
/// function (the representative of `x` modulo a full turn).
pub open spec fn angle_norm_spec(x: int) -> int {
    let m = x % (FX_TAU as int);
    if m > FX_PI as int {
        m - FX_TAU as int
    } else {
        m
    }
}

/// Reduces any angle into `[-pi, pi]`, congruent to the input modulo a
/// full turn.
pub fn angle_normalize(x: Fx) -> (r: Fx)
    ensures
        r == angle_norm_spec(x as int),
        -(FX_PI as int) <= r <= FX_PI as int,
{
    let ma: u128 = abs_u128(x) % (FX_TAU as u128);
    proof {
        if x >= 0 {
            assert(ma == (x as int) % (FX_TAU as int));
        } else {
            let a: int = -(x as int);
            lemma_fundamental_div_mod(a, FX_TAU as int);
            let qa: int = a / (FX_TAU as int);
            if ma == 0 {
                assert((-qa) * (FX_TAU as int) + 0 == x as int) by (nonlinear_arith)
                    requires
                        a == (FX_TAU as int) * qa + 0,
                        a == -(x as int),
                ;
                lemma_fundamental_div_mod_converse(x as int, FX_TAU as int, -qa, 0);
            } else {
                assert((-qa - 1) * (FX_TAU as int) + ((FX_TAU as int) - ma) == x as int)
                    by (nonlinear_arith)
                    requires
                        a == (FX_TAU as int) * qa + ma,
                        a == -(x as int),
                ;
                lemma_fundamental_div_mod_converse(
                    x as int,
                    FX_TAU as int,
                    -qa - 1,
                    FX_TAU as int - ma,
                );
            }
        }
    }
    let m: i64 = if x >= 0 {
        ma as i64
    } else if ma == 0 {
        0
    } else {
        FX_TAU - (ma as i64)
    };
    if m > FX_PI {
        m - FX_TAU
    } else {
        m
    }
}

/// Arctangent on `[0, 1]`, as a mathematical function: a quadratic
/// approximation that is exact at 0 and at 1 (where it returns pi / 4),
/// clamped into `[0, pi / 2]`.
pub open spec fn atan_unit_spec(u: int) -> int {
    let t1 = fx_mul_s(u, ATAN_Q as int);
    let t2 = fx_mul_s(fx_mul_s(u, ATAN_K as int) as int, FX_ONE as int - u);
    fx_clamp_s(t1 + t2, 0, FX_HALF_PI as int)
}

fn atan_unit(u: Fx) -> (r: Fx)
    requires
        0 <= u <= FX_ONE,
    ensures
        r == atan_unit_spec(u as int),
        0 <= r <= FX_HALF_PI,
        u == 0 ==> r == 0,
{
    let t1: i64 = fx_mul(u, ATAN_Q);
    let t2: i64 = fx_mul(fx_mul(u, ATAN_K), FX_ONE - u);
    proof {
        if u == 0 {
            crate::math::fx::lemma_fx_mul_zero_left(ATAN_Q as int);
            crate::math::fx::lemma_fx_mul_zero_left(ATAN_K as int);
            crate::math::fx::lemma_fx_mul_zero_left((FX_ONE - u) as int);
            assert(t1 == 0);
            assert(t2 == 0);
        }
    }
    fx_clamp(fx_add(t1, t2), 0, FX_HALF_PI)
}

/// Four-quadrant arctangent, as a mathematical function: octant reduction
/// of `y / x` into the quadratic arctangent approximation.
pub open spec fn fx_atan2_spec(y: int, x: int) -> int {
    if x == 0 && y == 0 {
        0
    } else {
        let ax = abs_i(x);
        let ay = abs_i(y);
        let base = if ay <= ax {
            atan_unit_spec(fx_clamp_s(fx_div_s(ay, ax) as int, 0, FX_ONE as int))
        } else {
            FX_HALF_PI as int - atan_unit_spec(fx_clamp_s(fx_div_s(ax, ay) as int, 0, FX_ONE as int))
        };
        let a = if x >= 0 {
            base
        } else {
            FX_PI as int - base
        };
        if y < 0 {
            -a
        } else {
            a
        }
    }
}

/// Angle of the vector `(x, y)`: approximate in general but exact on the
/// axes, always in `[-pi, pi]`, in the quadrant of the input, with the sign
/// of `y`. Both arguments zero give 0.
pub fn fx_atan2(y: Fx, x: Fx) -> (r: Fx)
    requires
        abs_i(x as int) <= FX_MAX as int,
        abs_i(y as int) <= FX_MAX as int,
    ensures
        r == fx_atan2_spec(y as int, x as int),
        -(FX_PI as int) <= r <= FX_PI as int,
        y == 0 && x > 0 ==> r == 0,
        y == 0 && x < 0 ==> r == FX_PI,
        x == 0 && y > 0 ==> r == FX_HALF_PI,
        x == 0 && y < 0 ==> r == -FX_HALF_PI,
        y > 0 ==> r >= 0,
        y < 0 ==> r <= 0,
        x > 0 ==> abs_i(r as int) <= FX_HALF_PI as int,
        x < 0 && y != 0 ==> abs_i(r as int) >= (FX_PI - FX_HALF_PI) as int,
{
    if x == 0 && y == 0 {
        return 0;
    }
    let ax: i64 = fx_abs(x);
    let ay: i64 = fx_abs(y);
    proof {
        if ay <= ax && ax != 0 && ay == 0 {
            vstd::arithmetic::div_mod::lemma_div_of0(ax as int);
        }
        if ay > ax && ax == 0 {
            vstd::arithmetic::div_mod::lemma_div_of0(ay as int);
        }
    }
    let base: i64 = if ay <= ax {
        atan_unit(fx_clamp(fx_div(ay, ax), 0, FX_ONE))
    } else {
        FX_HALF_PI - atan_unit(fx_clamp(fx_div(ax, ay), 0, FX_ONE))
    };
    let a: i64 = if x >= 0 {
        base
    } else {
        FX_PI - base
    };
    if y < 0 {
        -a
    } else {
        a
    }
}

/// Sine on `[0, pi]`, as a mathematical function: the rational quadratic
/// approximation `16 n (pi - n) / (5 pi^2 - 4 n (pi - n))`, clamped into
/// `[0, 1]`.
pub open spec fn sin_half_spec(n: int) -> int {
    let m = fx_clamp_s(fx_mul_s(n, FX_PI as int - n) as int, 0, SIN_M_MAX as int);
    let d = SIN_FIVE_PI_SQ as int - 4 * m;
    fx_clamp_s(fx_div_s(16 * m, d) as int, 0, FX_ONE as int)
}

fn sin_half(n: Fx) -> (r: Fx)
    requires
        0 <= n <= FX_PI,
    ensures
        r == sin_half_spec(n as int),
        0 <= r <= FX_ONE,
        n == 0 ==> r == 0,
{
    let m: i64 = fx_clamp(fx_mul(n, FX_PI - n), 0, SIN_M_MAX);
    let d: i64 = SIN_FIVE_PI_SQ - 4 * m;
    proof {
        if n == 0 {
            crate::math::fx::lemma_fx_mul_zero_left((FX_PI - n) as int);
            vstd::arithmetic::div_mod::lemma_div_of0(d as int);
            assert(m == 0);
            assert(fx_div_s(0, d as int) == 0);
        }
    }
    fx_clamp(fx_div(16 * m, d), 0, FX_ONE)
}

/// Sine of any angle, as a mathematical function: range reduction into
/// `[-pi, pi]` and the odd extension of the half-turn approximation.
pub open spec fn fx_sin_spec(x: int) -> int {
    let n = angle_norm_spec(x);
    if n >= 0 {
        sin_half_spec(n)
    } else {
        -sin_half_spec(-n)
    }
}

/// Sine, always in `[-1, 1]`, zero at zero, odd over the reduced angle.
pub fn fx_sin(x: Fx) -> (r: Fx)
    ensures
        r == fx_sin_spec(x as int),
        -(FX_ONE as int) <= r <= FX_ONE as int,
{
    let n: i64 = angle_normalize(x);
    if n >= 0 {
        sin_half(n)
    } else {
        -sin_half(-n)
    }
}

/// Cosine as the sine of the angle shifted by a quarter turn, as a
/// mathematical function.
pub open spec fn fx_cos_spec(x: int) -> int {
    fx_sin_spec(fx_clip(x + FX_HALF_PI as int))
}

/// Cosine, always in `[-1, 1]`.
pub fn fx_cos(x: Fx) -> (r: Fx)
    ensures
        r == fx_cos_spec(x as int),
        -(FX_ONE as int) <= r <= FX_ONE as int,
{
    fx_sin(fx_add(x, FX_HALF_PI))
}

} // verus!
