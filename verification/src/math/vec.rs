use vstd::prelude::*;

verus! {

use crate::math::fx::{Fx, FX_ONE, FX_MAX, fx_add, fx_sub, fx_neg, fx_mul, fx_div, fx_sqrt, fxc, fx_mul_s, fx_div_s, sqrt_floor, lemma_fx_mul_square_nonneg};
use crate::math::trig::{fx_sin, fx_cos, fx_sin_spec, fx_cos_spec};

/// A screen-space position or offset in fixed-point pixels.
#[derive(Clone, Copy, Debug, PartialEq, Eq, Structural)]
pub struct Vec2Fx {
    pub x: Fx,
    pub y: Fx,
}

/// A world-space vector with fixed-point components.
#[derive(Clone, Copy, Debug, PartialEq, Eq, Structural)]
pub struct Vec3Fx {
    pub x: Fx,
    pub y: Fx,
    pub z: Fx,
}

/// A homogeneous vector with fixed-point components.
#[derive(Clone, Copy, Debug, PartialEq, Eq, Structural)]
pub struct Vec4Fx {
    pub x: Fx,
    pub y: Fx,
    pub z: Fx,
    pub w: Fx,
}

/// A rotation quaternion with fixed-point components.
#[derive(Clone, Copy, Debug, PartialEq, Eq, Structural)]
pub struct QuatFx {
    pub x: Fx,
    pub y: Fx,
    pub z: Fx,
    pub w: Fx,
}

/// A 3 x 3 matrix stored by rows; vectors transform as columns, so a
/// transformed component is the dot product of a row with the vector.
#[derive(Clone, Copy, Debug, PartialEq, Eq, Structural)]
pub struct Mat3Fx {
    pub r0: Vec3Fx,
    pub r1: Vec3Fx,
    pub r2: Vec3Fx,
}

/// A 4 x 4 matrix stored by rows, same convention as `Mat3Fx`.
#[derive(Clone, Copy, Debug, PartialEq, Eq, Structural)]
pub struct Mat4Fx {
    pub r0: Vec4Fx,
    pub r1: Vec4Fx,
    pub r2: Vec4Fx,
    pub r3: Vec4Fx,
}

pub open spec fn v2_sub_s(a: Vec2Fx, b: Vec2Fx) -> Vec2Fx {
    Vec2Fx { x: fxc(a.x - b.x), y: fxc(a.y - b.y) }
}

pub fn v2_sub(a: Vec2Fx, b: Vec2Fx) -> (r: Vec2Fx)
    ensures
        r == v2_sub_s(a, b),
{
    Vec2Fx { x: fx_sub(a.x, b.x), y: fx_sub(a.y, b.y) }
}

pub open spec fn v2_len_sq_s(a: Vec2Fx) -> Fx {
    fxc(fx_mul_s(a.x as int, a.x as int) + fx_mul_s(a.y as int, a.y as int))
}

pub open spec fn v2_len_s(a: Vec2Fx) -> Fx {
    sqrt_floor(v2_len_sq_s(a) * (FX_ONE as int)) as i64
}

/// Length of a screen-space vector.
pub fn v2_len(a: Vec2Fx) -> (r: Fx)
    ensures
        r == v2_len_s(a),
        0 <= r <= FX_MAX,
{
    let s: i64 = fx_add(fx_mul(a.x, a.x), fx_mul(a.y, a.y));
    proof {
        lemma_fx_mul_square_nonneg(a.x as int);
        lemma_fx_mul_square_nonneg(a.y as int);
    }
    fx_sqrt(s)
}

/// Distance between two screen-space points.
pub open spec fn v2_dist_s(a: Vec2Fx, b: Vec2Fx) -> Fx {
    v2_len_s(v2_sub_s(a, b))
}

pub fn v2_dist(a: Vec2Fx, b: Vec2Fx) -> (r: Fx)
    ensures
        r == v2_dist_s(a, b),
        0 <= r <= FX_MAX,
{
    v2_len(v2_sub(a, b))
}

pub open spec fn v3_s(x: int, y: int, z: int) -> Vec3Fx {
    Vec3Fx { x: fxc(x), y: fxc(y), z: fxc(z) }
}

pub open spec fn v3_zero_s() -> Vec3Fx {
    Vec3Fx { x: 0, y: 0, z: 0 }
}

pub fn v3_zero() -> (r: Vec3Fx)
    ensures
        r == v3_zero_s(),
{
    Vec3Fx { x: 0, y: 0, z: 0 }
}

pub open spec fn v3_add_s(a: Vec3Fx, b: Vec3Fx) -> Vec3Fx {
    Vec3Fx { x: fxc(a.x + b.x), y: fxc(a.y + b.y), z: fxc(a.z + b.z) }
}

pub fn v3_add(a: Vec3Fx, b: Vec3Fx) -> (r: Vec3Fx)
    ensures
        r == v3_add_s(a, b),
{
    Vec3Fx { x: fx_add(a.x, b.x), y: fx_add(a.y, b.y), z: fx_add(a.z, b.z) }
}

pub open spec fn v3_sub_s(a: Vec3Fx, b: Vec3Fx) -> Vec3Fx {
    Vec3Fx { x: fxc(a.x - b.x), y: fxc(a.y - b.y), z: fxc(a.z - b.z) }
}

pub fn v3_sub(a: Vec3Fx, b: Vec3Fx) -> (r: Vec3Fx)
    ensures
        r == v3_sub_s(a, b),
{
    Vec3Fx { x: fx_sub(a.x, b.x), y: fx_sub(a.y, b.y), z: fx_sub(a.z, b.z) }
}

pub open spec fn v3_neg_s(a: Vec3Fx) -> Vec3Fx {
    Vec3Fx { x: fxc(-a.x), y: fxc(-a.y), z: fxc(-a.z) }
}

pub fn v3_neg(a: Vec3Fx) -> (r: Vec3Fx)
    ensures
        r == v3_neg_s(a),
{
    Vec3Fx { x: fx_neg(a.x), y: fx_neg(a.y), z: fx_neg(a.z) }
}

/// Componentwise scaling by a scalar factor.
pub open spec fn v3_scale_s(a: Vec3Fx, s: int) -> Vec3Fx {
    Vec3Fx {
        x: fx_mul_s(a.x as int, s),
        y: fx_mul_s(a.y as int, s),
        z: fx_mul_s(a.z as int, s),
    }
}

pub fn v3_scale(a: Vec3Fx, s: Fx) -> (r: Vec3Fx)
    ensures
        r == v3_scale_s(a, s as int),
{
    Vec3Fx { x: fx_mul(a.x, s), y: fx_mul(a.y, s), z: fx_mul(a.z, s) }
}

pub open spec fn v3_dot_s(a: Vec3Fx, b: Vec3Fx) -> Fx {
    fxc(
        fxc(fx_mul_s(a.x as int, b.x as int) + fx_mul_s(a.y as int, b.y as int)) + fx_mul_s(
            a.z as int,
            b.z as int,
        ),
    )
}

pub fn v3_dot(a: Vec3Fx, b: Vec3Fx) -> (r: Fx)
    ensures
        r == v3_dot_s(a, b),
{
    fx_add(fx_add(fx_mul(a.x, b.x), fx_mul(a.y, b.y)), fx_mul(a.z, b.z))
}

pub open spec fn v3_cross_s(a: Vec3Fx, b: Vec3Fx) -> Vec3Fx {
    Vec3Fx {
        x: fxc(fx_mul_s(a.y as int, b.z as int) - fx_mul_s(a.z as int, b.y as int)),
        y: fxc(fx_mul_s(a.z as int, b.x as int) - fx_mul_s(a.x as int, b.z as int)),
        z: fxc(fx_mul_s(a.x as int, b.y as int) - fx_mul_s(a.y as int, b.x as int)),
    }
}

pub fn v3_cross(a: Vec3Fx, b: Vec3Fx) -> (r: Vec3Fx)
    ensures
        r == v3_cross_s(a, b),
{
    Vec3Fx {
        x: fx_sub(fx_mul(a.y, b.z), fx_mul(a.z, b.y)),
        y: fx_sub(fx_mul(a.z, b.x), fx_mul(a.x, b.z)),
        z: fx_sub(fx_mul(a.x, b.y), fx_mul(a.y, b.x)),
    }
}

/// Squared length; never negative, since it is a clipped sum of squares.
pub open spec fn v3_len_sq_s(a: Vec3Fx) -> Fx {
    v3_dot_s(a, a)
}

pub fn v3_len_sq(a: Vec3Fx) -> (r: Fx)
    ensures
        r == v3_len_sq_s(a),
        0 <= r <= FX_MAX,
{
    proof {
        lemma_fx_mul_square_nonneg(a.x as int);
        lemma_fx_mul_square_nonneg(a.y as int);
        lemma_fx_mul_square_nonneg(a.z as int);
    }
    v3_dot(a, a)
}

pub open spec fn v3_len_s(a: Vec3Fx) -> Fx {
    sqrt_floor(v3_len_sq_s(a) * (FX_ONE as int)) as i64
}

/// Euclidean length of a vector.
pub fn v3_len(a: Vec3Fx) -> (r: Fx)
    ensures
        r == v3_len_s(a),
        0 <= r <= FX_MAX,
{
    fx_sqrt(v3_len_sq(a))
}

/// Normalization that degenerates to the zero vector instead of dividing
/// by a vanishing length, as the error model asks.
pub open spec fn v3_normalize_or_zero_s(a: Vec3Fx) -> Vec3Fx {
    let l = v3_len_s(a);
    if l == 0 {
        v3_zero_s()
    } else {
        Vec3Fx {
            x: fx_div_s(a.x as int, l as int),
            y: fx_div_s(a.y as int, l as int),
            z: fx_div_s(a.z as int, l as int),
        }
    }
}

pub fn v3_normalize_or_zero(a: Vec3Fx) -> (r: Vec3Fx)
    ensures
        r == v3_normalize_or_zero_s(a),
{
    let l: i64 = v3_len(a);
    if l == 0 {
        v3_zero()
    } else {
        Vec3Fx { x: fx_div(a.x, l), y: fx_div(a.y, l), z: fx_div(a.z, l) }
    }
}

pub open spec fn v3_dist_s(a: Vec3Fx, b: Vec3Fx) -> Fx {
    v3_len_s(v3_sub_s(a, b))
}

/// Distance between two points.
pub fn v3_dist(a: Vec3Fx, b: Vec3Fx) -> (r: Fx)
    ensures
        r == v3_dist_s(a, b),
        0 <= r <= FX_MAX,
{
    v3_len(v3_sub(a, b))
}

/// Hamilton product of two quaternions.
pub open spec fn q_mul_s(a: QuatFx, b: QuatFx) -> QuatFx {
    QuatFx {
        x: fxc(
            fxc(fx_mul_s(a.w as int, b.x as int) + fx_mul_s(a.x as int, b.w as int)) + fxc(
                fx_mul_s(a.y as int, b.z as int) - fx_mul_s(a.z as int, b.y as int),
            ),
        ),
        y: fxc(
            fxc(fx_mul_s(a.w as int, b.y as int) - fx_mul_s(a.x as int, b.z as int)) + fxc(
                fx_mul_s(a.y as int, b.w as int) + fx_mul_s(a.z as int, b.x as int),
            ),
        ),
        z: fxc(
            fxc(fx_mul_s(a.w as int, b.z as int) + fx_mul_s(a.x as int, b.y as int)) + fxc(
                fx_mul_s(a.z as int, b.w as int) - fx_mul_s(a.y as int, b.x as int),
            ),
        ),
        w: fxc(
            fxc(fx_mul_s(a.w as int, b.w as int) - fx_mul_s(a.x as int, b.x as int)) - fxc(
                fx_mul_s(a.y as int, b.y as int) + fx_mul_s(a.z as int, b.z as int),
            ),
        ),
    }
}

pub fn q_mul(a: QuatFx, b: QuatFx) -> (r: QuatFx)
    ensures
        r == q_mul_s(a, b),
{
    QuatFx {
        x: fx_add(
            fx_add(fx_mul(a.w, b.x), fx_mul(a.x, b.w)),
            fx_sub(fx_mul(a.y, b.z), fx_mul(a.z, b.y)),
        ),
        y: fx_add(
            fx_sub(fx_mul(a.w, b.y), fx_mul(a.x, b.z)),
            fx_add(fx_mul(a.y, b.w), fx_mul(a.z, b.x)),
        ),
        z: fx_add(
            fx_add(fx_mul(a.w, b.z), fx_mul(a.x, b.y)),
            fx_sub(fx_mul(a.z, b.w), fx_mul(a.y, b.x)),
        ),
        w: fx_sub(
            fx_sub(fx_mul(a.w, b.w), fx_mul(a.x, b.x)),
            fx_add(fx_mul(a.y, b.y), fx_mul(a.z, b.z)),
        ),
    }
}

/// The identity rotation.
pub open spec fn q_identity_s() -> QuatFx {
    QuatFx { x: 0, y: 0, z: 0, w: FX_ONE }
}

pub fn q_identity() -> (r: QuatFx)
    ensures
        r == q_identity_s(),
{
    QuatFx { x: 0, y: 0, z: 0, w: FX_ONE }
}

/// Rotation of a vector by a quaternion, through the doubled-cross form
/// `v + w t + qv x t` with `t = 2 (qv x v)`.
pub open spec fn q_rotate_s(q: QuatFx, v: Vec3Fx) -> Vec3Fx {
    let qv = Vec3Fx { x: q.x, y: q.y, z: q.z };
    let c = v3_cross_s(qv, v);
    let t = v3_add_s(c, c);
    v3_add_s(v3_add_s(v, v3_scale_s(t, q.w as int)), v3_cross_s(qv, t))
}

pub fn q_rotate(q: QuatFx, v: Vec3Fx) -> (r: Vec3Fx)
    ensures
        r == q_rotate_s(q, v),
{
    let qv = Vec3Fx { x: q.x, y: q.y, z: q.z };
    let c = v3_cross(qv, v);
    let t = v3_add(c, c);
    v3_add(v3_add(v, v3_scale(t, q.w)), v3_cross(qv, t))
}

/// Rotation of `angle` about a unit `axis`, via the half-angle sine and
/// cosine.
pub open spec fn q_from_axis_angle_s(axis: Vec3Fx, angle: int) -> QuatFx {
    let half = fx_mul_s(angle, 32768);
    let s = fx_sin_spec(half as int);
    let c = fx_cos_spec(half as int);
    QuatFx {
        x: fx_mul_s(axis.x as int, s),
        y: fx_mul_s(axis.y as int, s),
        z: fx_mul_s(axis.z as int, s),
        w: c as i64,
    }
}

pub fn q_from_axis_angle(axis: Vec3Fx, angle: Fx) -> (r: QuatFx)
    ensures
        r == q_from_axis_angle_s(axis, angle as int),
{
    let half: i64 = fx_mul(angle, 32768);
    let s: i64 = fx_sin(half);
    let c: i64 = fx_cos(half);
    QuatFx { x: fx_mul(axis.x, s), y: fx_mul(axis.y, s), z: fx_mul(axis.z, s), w: c }
}

/// Rotation matrix of a unit quaternion.
pub open spec fn m3_from_quat_s(q: QuatFx) -> Mat3Fx {
    let x2 = fx_mul_s(q.x as int, 2 * FX_ONE);
    let y2 = fx_mul_s(q.y as int, 2 * FX_ONE);
    let z2 = fx_mul_s(q.z as int, 2 * FX_ONE);
    let xx = fx_mul_s(q.x as int, x2 as int);
    let yy = fx_mul_s(q.y as int, y2 as int);
    let zz = fx_mul_s(q.z as int, z2 as int);
    let xy = fx_mul_s(q.x as int, y2 as int);
    let xz = fx_mul_s(q.x as int, z2 as int);
    let yz = fx_mul_s(q.y as int, z2 as int);
    let wx = fx_mul_s(q.w as int, x2 as int);
    let wy = fx_mul_s(q.w as int, y2 as int);
    let wz = fx_mul_s(q.w as int, z2 as int);
    Mat3Fx {
        r0: Vec3Fx {
            x: fxc(FX_ONE - fxc(yy + zz)),
            y: fxc(xy - wz),
            z: fxc(xz + wy),
        },
        r1: Vec3Fx {
            x: fxc(xy + wz),
            y: fxc(FX_ONE - fxc(xx + zz)),
            z: fxc(yz - wx),
        },
        r2: Vec3Fx {
            x: fxc(xz - wy),
            y: fxc(yz + wx),
            z: fxc(FX_ONE - fxc(xx + yy)),
        },
    }
}

pub fn m3_from_quat(q: QuatFx) -> (r: Mat3Fx)
    ensures
        r == m3_from_quat_s(q),
{
    let two: i64 = 2 * FX_ONE;
    let x2: i64 = fx_mul(q.x, two);
    let y2: i64 = fx_mul(q.y, two);
    let z2: i64 = fx_mul(q.z, two);
    let xx: i64 = fx_mul(q.x, x2);
    let yy: i64 = fx_mul(q.y, y2);
    let zz: i64 = fx_mul(q.z, z2);
    let xy: i64 = fx_mul(q.x, y2);
    let xz: i64 = fx_mul(q.x, z2);
    let yz: i64 = fx_mul(q.y, z2);
    let wx: i64 = fx_mul(q.w, x2);
    let wy: i64 = fx_mul(q.w, y2);
    let wz: i64 = fx_mul(q.w, z2);
    Mat3Fx {
        r0: Vec3Fx {
            x: fx_sub(FX_ONE, fx_add(yy, zz)),
            y: fx_sub(xy, wz),
            z: fx_add(xz, wy),
        },
        r1: Vec3Fx {
            x: fx_add(xy, wz),
            y: fx_sub(FX_ONE, fx_add(xx, zz)),
            z: fx_sub(yz, wx),
        },
        r2: Vec3Fx {
            x: fx_sub(xz, wy),
            y: fx_add(yz, wx),
            z: fx_sub(FX_ONE, fx_add(xx, yy)),
        },
    }
}

pub open spec fn m3_transform_s(m: Mat3Fx, v: Vec3Fx) -> Vec3Fx {
    Vec3Fx { x: v3_dot_s(m.r0, v), y: v3_dot_s(m.r1, v), z: v3_dot_s(m.r2, v) }
}

pub fn m3_transform(m: &Mat3Fx, v: Vec3Fx) -> (r: Vec3Fx)
    ensures
        r == m3_transform_s(*m, v),
{
    Vec3Fx { x: v3_dot(m.r0, v), y: v3_dot(m.r1, v), z: v3_dot(m.r2, v) }
}

pub open spec fn m3_col_s(m: Mat3Fx, j: int) -> Vec3Fx {
    if j == 0 {
        Vec3Fx { x: m.r0.x, y: m.r1.x, z: m.r2.x }
    } else if j == 1 {
        Vec3Fx { x: m.r0.y, y: m.r1.y, z: m.r2.y }
    } else {
        Vec3Fx { x: m.r0.z, y: m.r1.z, z: m.r2.z }
    }
}

pub open spec fn m3_mul_s(a: Mat3Fx, b: Mat3Fx) -> Mat3Fx {
    Mat3Fx {
        r0: Vec3Fx {
            x: v3_dot_s(a.r0, m3_col_s(b, 0)),
            y: v3_dot_s(a.r0, m3_col_s(b, 1)),
            z: v3_dot_s(a.r0, m3_col_s(b, 2)),
        },
        r1: Vec3Fx {
            x: v3_dot_s(a.r1, m3_col_s(b, 0)),
            y: v3_dot_s(a.r1, m3_col_s(b, 1)),
            z: v3_dot_s(a.r1, m3_col_s(b, 2)),
        },
        r2: Vec3Fx {
            x: v3_dot_s(a.r2, m3_col_s(b, 0)),
            y: v3_dot_s(a.r2, m3_col_s(b, 1)),
            z: v3_dot_s(a.r2, m3_col_s(b, 2)),
        },
    }
}

pub fn m3_mul(a: &Mat3Fx, b: &Mat3Fx) -> (r: Mat3Fx)
    ensures
        r == m3_mul_s(*a, *b),
{
    let c0 = Vec3Fx { x: b.r0.x, y: b.r1.x, z: b.r2.x };
    let c1 = Vec3Fx { x: b.r0.y, y: b.r1.y, z: b.r2.y };
    let c2 = Vec3Fx { x: b.r0.z, y: b.r1.z, z: b.r2.z };
    Mat3Fx {
        r0: Vec3Fx { x: v3_dot(a.r0, c0), y: v3_dot(a.r0, c1), z: v3_dot(a.r0, c2) },
        r1: Vec3Fx { x: v3_dot(a.r1, c0), y: v3_dot(a.r1, c1), z: v3_dot(a.r1, c2) },
        r2: Vec3Fx { x: v3_dot(a.r2, c0), y: v3_dot(a.r2, c1), z: v3_dot(a.r2, c2) },
    }
}

pub open spec fn v4_dot_s(a: Vec4Fx, b: Vec4Fx) -> Fx {
    fxc(
        fxc(fx_mul_s(a.x as int, b.x as int) + fx_mul_s(a.y as int, b.y as int)) + fxc(
            fx_mul_s(a.z as int, b.z as int) + fx_mul_s(a.w as int, b.w as int),
        ),
    )
}

pub fn v4_dot(a: Vec4Fx, b: Vec4Fx) -> (r: Fx)
    ensures
        r == v4_dot_s(a, b),
{
    fx_add(
        fx_add(fx_mul(a.x, b.x), fx_mul(a.y, b.y)),
        fx_add(fx_mul(a.z, b.z), fx_mul(a.w, b.w)),
    )
}

pub open spec fn m4_identity_s() -> Mat4Fx {
    Mat4Fx {
        r0: Vec4Fx { x: FX_ONE, y: 0, z: 0, w: 0 },
        r1: Vec4Fx { x: 0, y: FX_ONE, z: 0, w: 0 },
        r2: Vec4Fx { x: 0, y: 0, z: FX_ONE, w: 0 },
        r3: Vec4Fx { x: 0, y: 0, z: 0, w: FX_ONE },
    }
}

pub fn m4_identity() -> (r: Mat4Fx)
    ensures
        r == m4_identity_s(),
{
    Mat4Fx {
        r0: Vec4Fx { x: FX_ONE, y: 0, z: 0, w: 0 },
        r1: Vec4Fx { x: 0, y: FX_ONE, z: 0, w: 0 },
        r2: Vec4Fx { x: 0, y: 0, z: FX_ONE, w: 0 },
        r3: Vec4Fx { x: 0, y: 0, z: 0, w: FX_ONE },
    }
}

pub open spec fn m4_col_s(m: Mat4Fx, j: int) -> Vec4Fx {
    if j == 0 {
        Vec4Fx { x: m.r0.x, y: m.r1.x, z: m.r2.x, w: m.r3.x }
    } else if j == 1 {
        Vec4Fx { x: m.r0.y, y: m.r1.y, z: m.r2.y, w: m.r3.y }
    } else if j == 2 {
        Vec4Fx { x: m.r0.z, y: m.r1.z, z: m.r2.z, w: m.r3.z }
    } else {
        Vec4Fx { x: m.r0.w, y: m.r1.w, z: m.r2.w, w: m.r3.w }
    }
}

pub open spec fn m4_mul_row_s(a: Vec4Fx, b: Mat4Fx) -> Vec4Fx {
    Vec4Fx {
        x: v4_dot_s(a, m4_col_s(b, 0)),
        y: v4_dot_s(a, m4_col_s(b, 1)),
        z: v4_dot_s(a, m4_col_s(b, 2)),
        w: v4_dot_s(a, m4_col_s(b, 3)),
    }
}

fn m4_mul_row(a: Vec4Fx, b: &Mat4Fx) -> (r: Vec4Fx)
    ensures
        r == m4_mul_row_s(a, *b),
{
    let c0 = Vec4Fx { x: b.r0.x, y: b.r1.x, z: b.r2.x, w: b.r3.x };
    let c1 = Vec4Fx { x: b.r0.y, y: b.r1.y, z: b.r2.y, w: b.r3.y };
    let c2 = Vec4Fx { x: b.r0.z, y: b.r1.z, z: b.r2.z, w: b.r3.z };
    let c3 = Vec4Fx { x: b.r0.w, y: b.r1.w, z: b.r2.w, w: b.r3.w };
    Vec4Fx { x: v4_dot(a, c0), y: v4_dot(a, c1), z: v4_dot(a, c2), w: v4_dot(a, c3) }
}

/// Matrix product; the left factor applies second, as in the combined
/// projection-times-view products the configuration builds.
pub open spec fn m4_mul_s(a: Mat4Fx, b: Mat4Fx) -> Mat4Fx {
    Mat4Fx {
        r0: m4_mul_row_s(a.r0, b),
        r1: m4_mul_row_s(a.r1, b),
        r2: m4_mul_row_s(a.r2, b),
        r3: m4_mul_row_s(a.r3, b),
    }
}

pub fn m4_mul(a: &Mat4Fx, b: &Mat4Fx) -> (r: Mat4Fx)
    ensures
        r == m4_mul_s(*a, *b),
{
    Mat4Fx {
        r0: m4_mul_row(a.r0, b),
        r1: m4_mul_row(a.r1, b),
        r2: m4_mul_row(a.r2, b),
        r3: m4_mul_row(a.r3, b),
    }
}

/// Transformation of a homogeneous vector.
pub open spec fn m4_transform_v4_s(m: Mat4Fx, v: Vec4Fx) -> Vec4Fx {
    Vec4Fx {
        x: v4_dot_s(m.r0, v),
        y: v4_dot_s(m.r1, v),
        z: v4_dot_s(m.r2, v),
        w: v4_dot_s(m.r3, v),
    }
}

pub fn m4_transform_v4(m: &Mat4Fx, v: Vec4Fx) -> (r: Vec4Fx)
    ensures
        r == m4_transform_v4_s(*m, v),
{
    Vec4Fx { x: v4_dot(m.r0, v), y: v4_dot(m.r1, v), z: v4_dot(m.r2, v), w: v4_dot(m.r3, v) }
}

/// Transformation of a point, with an implicit homogeneous 1.
pub open spec fn m4_transform_point_s(m: Mat4Fx, p: Vec3Fx) -> Vec4Fx {
    m4_transform_v4_s(m, Vec4Fx { x: p.x, y: p.y, z: p.z, w: FX_ONE })
}

pub fn m4_transform_point(m: &Mat4Fx, p: Vec3Fx) -> (r: Vec4Fx)
    ensures
        r == m4_transform_point_s(*m, p),
{
    m4_transform_v4(m, Vec4Fx { x: p.x, y: p.y, z: p.z, w: FX_ONE })
}

/// A rigid transform: a rotation in the upper 3 x 3 block and a
/// translation in the last column.
pub open spec fn m4_from_mat3_translation_s(r: Mat3Fx, t: Vec3Fx) -> Mat4Fx {
    Mat4Fx {
        r0: Vec4Fx { x: r.r0.x, y: r.r0.y, z: r.r0.z, w: t.x },
        r1: Vec4Fx { x: r.r1.x, y: r.r1.y, z: r.r1.z, w: t.y },
        r2: Vec4Fx { x: r.r2.x, y: r.r2.y, z: r.r2.z, w: t.z },
        r3: Vec4Fx { x: 0, y: 0, z: 0, w: FX_ONE },
    }
}

pub fn m4_from_mat3_translation(r: &Mat3Fx, t: Vec3Fx) -> (m: Mat4Fx)
    ensures
        m == m4_from_mat3_translation_s(*r, t),
{
    Mat4Fx {
        r0: Vec4Fx { x: r.r0.x, y: r.r0.y, z: r.r0.z, w: t.x },
        r1: Vec4Fx { x: r.r1.x, y: r.r1.y, z: r.r1.z, w: t.y },
        r2: Vec4Fx { x: r.r2.x, y: r.r2.y, z: r.r2.z, w: t.z },
        r3: Vec4Fx { x: 0, y: 0, z: 0, w: FX_ONE },
    }
}

pub open spec fn m4_from_rotation_translation_s(q: QuatFx, t: Vec3Fx) -> Mat4Fx {
    m4_from_mat3_translation_s(m3_from_quat_s(q), t)
}

pub fn m4_from_rotation_translation(q: QuatFx, t: Vec3Fx) -> (m: Mat4Fx)
    ensures
        m == m4_from_rotation_translation_s(q, t),
{
    let r = m3_from_quat(q);
    m4_from_mat3_translation(&r, t)
}

pub open spec fn m4_from_translation_s(t: Vec3Fx) -> Mat4Fx {
    Mat4Fx {
        r0: Vec4Fx { x: FX_ONE, y: 0, z: 0, w: t.x },
        r1: Vec4Fx { x: 0, y: FX_ONE, z: 0, w: t.y },
        r2: Vec4Fx { x: 0, y: 0, z: FX_ONE, w: t.z },
        r3: Vec4Fx { x: 0, y: 0, z: 0, w: FX_ONE },
    }
}

pub fn m4_from_translation(t: Vec3Fx) -> (m: Mat4Fx)
    ensures
        m == m4_from_translation_s(t),
{
    Mat4Fx {
        r0: Vec4Fx { x: FX_ONE, y: 0, z: 0, w: t.x },
        r1: Vec4Fx { x: 0, y: FX_ONE, z: 0, w: t.y },
        r2: Vec4Fx { x: 0, y: 0, z: FX_ONE, w: t.z },
        r3: Vec4Fx { x: 0, y: 0, z: 0, w: FX_ONE },
    }
}

/// A scale-rotation-translation composition: the rotation's columns are
/// scaled per axis and the translation fills the last column.
pub open spec fn m4_from_scale_rotation_translation_s(sc: Vec3Fx, q: QuatFx, t: Vec3Fx) -> Mat4Fx {
    let r = m3_from_quat_s(q);
    Mat4Fx {
        r0: Vec4Fx {
            x: fx_mul_s(r.r0.x as int, sc.x as int),
            y: fx_mul_s(r.r0.y as int, sc.y as int),
            z: fx_mul_s(r.r0.z as int, sc.z as int),
            w: t.x,
        },
        r1: Vec4Fx {
            x: fx_mul_s(r.r1.x as int, sc.x as int),
            y: fx_mul_s(r.r1.y as int, sc.y as int),
            z: fx_mul_s(r.r1.z as int, sc.z as int),
            w: t.y,
        },
        r2: Vec4Fx {
            x: fx_mul_s(r.r2.x as int, sc.x as int),
            y: fx_mul_s(r.r2.y as int, sc.y as int),
            z: fx_mul_s(r.r2.z as int, sc.z as int),
            w: t.z,
        },
        r3: Vec4Fx { x: 0, y: 0, z: 0, w: FX_ONE },
    }
}

pub fn m4_from_scale_rotation_translation(sc: Vec3Fx, q: QuatFx, t: Vec3Fx) -> (m: Mat4Fx)
    ensures
        m == m4_from_scale_rotation_translation_s(sc, q, t),
{
    let r = m3_from_quat(q);
    Mat4Fx {
        r0: Vec4Fx {
            x: fx_mul(r.r0.x, sc.x),
            y: fx_mul(r.r0.y, sc.y),
            z: fx_mul(r.r0.z, sc.z),
            w: t.x,
        },
        r1: Vec4Fx {
            x: fx_mul(r.r1.x, sc.x),
            y: fx_mul(r.r1.y, sc.y),
            z: fx_mul(r.r1.z, sc.z),
            w: t.y,
        },
        r2: Vec4Fx {
            x: fx_mul(r.r2.x, sc.x),
            y: fx_mul(r.r2.y, sc.y),
            z: fx_mul(r.r2.z, sc.z),
            w: t.z,
        },
        r3: Vec4Fx { x: 0, y: 0, z: 0, w: FX_ONE },
    }
}

pub open spec fn det3_s(a: int, b: int, c: int, d: int, e: int, f: int, g: int, h: int, i: int) -> Fx {
    let m1 = fxc(fx_mul_s(e, i) - fx_mul_s(f, h));
    let m2 = fxc(fx_mul_s(d, i) - fx_mul_s(f, g));
    let m3 = fxc(fx_mul_s(d, h) - fx_mul_s(e, g));
    fxc(fxc(fx_mul_s(a, m1 as int) - fx_mul_s(b, m2 as int)) + fx_mul_s(c, m3 as int))
}

fn det3(a: Fx, b: Fx, c: Fx, d: Fx, e: Fx, f: Fx, g: Fx, h: Fx, i: Fx) -> (r: Fx)
    ensures
        r == det3_s(a as int, b as int, c as int, d as int, e as int, f as int, g as int, h as int, i as int),
{
    let m1: i64 = fx_sub(fx_mul(e, i), fx_mul(f, h));
    let m2: i64 = fx_sub(fx_mul(d, i), fx_mul(f, g));
    let m3: i64 = fx_sub(fx_mul(d, h), fx_mul(e, g));
    fx_add(fx_sub(fx_mul(a, m1), fx_mul(b, m2)), fx_mul(c, m3))
}

pub open spec fn m4_minor_00_s(m: Mat4Fx) -> Fx {
    det3_s(m.r1.y as int, m.r1.z as int, m.r1.w as int, m.r2.y as int, m.r2.z as int, m.r2.w as int, m.r3.y as int, m.r3.z as int, m.r3.w as int)
}
pub open spec fn m4_minor_01_s(m: Mat4Fx) -> Fx {
    det3_s(m.r1.x as int, m.r1.z as int, m.r1.w as int, m.r2.x as int, m.r2.z as int, m.r2.w as int, m.r3.x as int, m.r3.z as int, m.r3.w as int)
}
pub open spec fn m4_minor_02_s(m: Mat4Fx) -> Fx {
    det3_s(m.r1.x as int, m.r1.y as int, m.r1.w as int, m.r2.x as int, m.r2.y as int, m.r2.w as int, m.r3.x as int, m.r3.y as int, m.r3.w as int)
}
pub open spec fn m4_minor_03_s(m: Mat4Fx) -> Fx {
    det3_s(m.r1.x as int, m.r1.y as int, m.r1.z as int, m.r2.x as int, m.r2.y as int, m.r2.z as int, m.r3.x as int, m.r3.y as int, m.r3.z as int)
}
pub open spec fn m4_minor_10_s(m: Mat4Fx) -> Fx {
    det3_s(m.r0.y as int, m.r0.z as int, m.r0.w as int, m.r2.y as int, m.r2.z as int, m.r2.w as int, m.r3.y as int, m.r3.z as int, m.r3.w as int)
}
pub open spec fn m4_minor_11_s(m: Mat4Fx) -> Fx {
    det3_s(m.r0.x as int, m.r0.z as int, m.r0.w as int, m.r2.x as int, m.r2.z as int, m.r2.w as int, m.r3.x as int, m.r3.z as int, m.r3.w as int)
}
pub open spec fn m4_minor_12_s(m: Mat4Fx) -> Fx {
    det3_s(m.r0.x as int, m.r0.y as int, m.r0.w as int, m.r2.x as int, m.r2.y as int, m.r2.w as int, m.r3.x as int, m.r3.y as int, m.r3.w as int)
}
pub open spec fn m4_minor_13_s(m: Mat4Fx) -> Fx {
    det3_s(m.r0.x as int, m.r0.y as int, m.r0.z as int, m.r2.x as int, m.r2.y as int, m.r2.z as int, m.r3.x as int, m.r3.y as int, m.r3.z as int)
}
pub open spec fn m4_minor_20_s(m: Mat4Fx) -> Fx {
    det3_s(m.r0.y as int, m.r0.z as int, m.r0.w as int, m.r1.y as int, m.r1.z as int, m.r1.w as int, m.r3.y as int, m.r3.z as int, m.r3.w as int)
}
pub open spec fn m4_minor_21_s(m: Mat4Fx) -> Fx {
    det3_s(m.r0.x as int, m.r0.z as int, m.r0.w as int, m.r1.x as int, m.r1.z as int, m.r1.w as int, m.r3.x as int, m.r3.z as int, m.r3.w as int)
}
pub open spec fn m4_minor_22_s(m: Mat4Fx) -> Fx {
    det3_s(m.r0.x as int, m.r0.y as int, m.r0.w as int, m.r1.x as int, m.r1.y as int, m.r1.w as int, m.r3.x as int, m.r3.y as int, m.r3.w as int)
}
pub open spec fn m4_minor_23_s(m: Mat4Fx) -> Fx {
    det3_s(m.r0.x as int, m.r0.y as int, m.r0.z as int, m.r1.x as int, m.r1.y as int, m.r1.z as int, m.r3.x as int, m.r3.y as int, m.r3.z as int)
}
pub open spec fn m4_minor_30_s(m: Mat4Fx) -> Fx {
    det3_s(m.r0.y as int, m.r0.z as int, m.r0.w as int, m.r1.y as int, m.r1.z as int, m.r1.w as int, m.r2.y as int, m.r2.z as int, m.r2.w as int)
}
pub open spec fn m4_minor_31_s(m: Mat4Fx) -> Fx {
    det3_s(m.r0.x as int, m.r0.z as int, m.r0.w as int, m.r1.x as int, m.r1.z as int, m.r1.w as int, m.r2.x as int, m.r2.z as int, m.r2.w as int)
}
pub open spec fn m4_minor_32_s(m: Mat4Fx) -> Fx {
    det3_s(m.r0.x as int, m.r0.y as int, m.r0.w as int, m.r1.x as int, m.r1.y as int, m.r1.w as int, m.r2.x as int, m.r2.y as int, m.r2.w as int)
}
pub open spec fn m4_minor_33_s(m: Mat4Fx) -> Fx {
    det3_s(m.r0.x as int, m.r0.y as int, m.r0.z as int, m.r1.x as int, m.r1.y as int, m.r1.z as int, m.r2.x as int, m.r2.y as int, m.r2.z as int)
}
pub open spec fn m4_det_s(m: Mat4Fx) -> Fx {
    fxc(
        fxc(
            fx_mul_s(m.r0.x as int, m4_minor_00_s(m) as int) - fx_mul_s(
                m.r0.y as int,
                m4_minor_01_s(m) as int,
            ),
        ) + fxc(
            fx_mul_s(m.r0.z as int, m4_minor_02_s(m) as int) - fx_mul_s(
                m.r0.w as int,
                m4_minor_03_s(m) as int,
            ),
        ),
    )
}

/// Determinant by cofactor expansion along the first row.
pub fn m4_det(m: &Mat4Fx) -> (r: Fx)
    ensures
        r == m4_det_s(*m),
{
    let n00: i64 = det3(m.r1.y, m.r1.z, m.r1.w, m.r2.y, m.r2.z, m.r2.w, m.r3.y, m.r3.z, m.r3.w);
    let n01: i64 = det3(m.r1.x, m.r1.z, m.r1.w, m.r2.x, m.r2.z, m.r2.w, m.r3.x, m.r3.z, m.r3.w);
    let n02: i64 = det3(m.r1.x, m.r1.y, m.r1.w, m.r2.x, m.r2.y, m.r2.w, m.r3.x, m.r3.y, m.r3.w);
    let n03: i64 = det3(m.r1.x, m.r1.y, m.r1.z, m.r2.x, m.r2.y, m.r2.z, m.r3.x, m.r3.y, m.r3.z);
    fx_add(
        fx_sub(fx_mul(m.r0.x, n00), fx_mul(m.r0.y, n01)),
        fx_sub(fx_mul(m.r0.z, n02), fx_mul(m.r0.w, n03)),
    )
}

/// Inverse as the adjugate over the determinant, entry by entry in fixed
/// point; no inverse is reported when the fixed-point determinant is zero.
pub open spec fn m4_inverse_s(m: Mat4Fx) -> Option<Mat4Fx> {
    if m4_det_s(m) == 0 {
        Option::None
    } else {
        Option::Some(Mat4Fx {
        r0: Vec4Fx { x: fx_div_s(m4_minor_00_s(m) as int, m4_det_s(m) as int), y: fxc(-(fx_div_s(m4_minor_10_s(m) as int, m4_det_s(m) as int) as int)) as i64, z: fx_div_s(m4_minor_20_s(m) as int, m4_det_s(m) as int), w: fxc(-(fx_div_s(m4_minor_30_s(m) as int, m4_det_s(m) as int) as int)) as i64, },
        r1: Vec4Fx { x: fxc(-(fx_div_s(m4_minor_01_s(m) as int, m4_det_s(m) as int) as int)) as i64, y: fx_div_s(m4_minor_11_s(m) as int, m4_det_s(m) as int), z: fxc(-(fx_div_s(m4_minor_21_s(m) as int, m4_det_s(m) as int) as int)) as i64, w: fx_div_s(m4_minor_31_s(m) as int, m4_det_s(m) as int), },
        r2: Vec4Fx { x: fx_div_s(m4_minor_02_s(m) as int, m4_det_s(m) as int), y: fxc(-(fx_div_s(m4_minor_12_s(m) as int, m4_det_s(m) as int) as int)) as i64, z: fx_div_s(m4_minor_22_s(m) as int, m4_det_s(m) as int), w: fxc(-(fx_div_s(m4_minor_32_s(m) as int, m4_det_s(m) as int) as int)) as i64, },
        r3: Vec4Fx { x: fxc(-(fx_div_s(m4_minor_03_s(m) as int, m4_det_s(m) as int) as int)) as i64, y: fx_div_s(m4_minor_13_s(m) as int, m4_det_s(m) as int), z: fxc(-(fx_div_s(m4_minor_23_s(m) as int, m4_det_s(m) as int) as int)) as i64, w: fx_div_s(m4_minor_33_s(m) as int, m4_det_s(m) as int), },
        })
    }
}

pub fn m4_inverse(m: &Mat4Fx) -> (r: Option<Mat4Fx>)
    ensures
        r == m4_inverse_s(*m),
{
    let n00: i64 = det3(m.r1.y, m.r1.z, m.r1.w, m.r2.y, m.r2.z, m.r2.w, m.r3.y, m.r3.z, m.r3.w);
    let n01: i64 = det3(m.r1.x, m.r1.z, m.r1.w, m.r2.x, m.r2.z, m.r2.w, m.r3.x, m.r3.z, m.r3.w);
    let n02: i64 = det3(m.r1.x, m.r1.y, m.r1.w, m.r2.x, m.r2.y, m.r2.w, m.r3.x, m.r3.y, m.r3.w);
    let n03: i64 = det3(m.r1.x, m.r1.y, m.r1.z, m.r2.x, m.r2.y, m.r2.z, m.r3.x, m.r3.y, m.r3.z);
    let n10: i64 = det3(m.r0.y, m.r0.z, m.r0.w, m.r2.y, m.r2.z, m.r2.w, m.r3.y, m.r3.z, m.r3.w);
    let n11: i64 = det3(m.r0.x, m.r0.z, m.r0.w, m.r2.x, m.r2.z, m.r2.w, m.r3.x, m.r3.z, m.r3.w);
    let n12: i64 = det3(m.r0.x, m.r0.y, m.r0.w, m.r2.x, m.r2.y, m.r2.w, m.r3.x, m.r3.y, m.r3.w);
    let n13: i64 = det3(m.r0.x, m.r0.y, m.r0.z, m.r2.x, m.r2.y, m.r2.z, m.r3.x, m.r3.y, m.r3.z);
    let n20: i64 = det3(m.r0.y, m.r0.z, m.r0.w, m.r1.y, m.r1.z, m.r1.w, m.r3.y, m.r3.z, m.r3.w);
    let n21: i64 = det3(m.r0.x, m.r0.z, m.r0.w, m.r1.x, m.r1.z, m.r1.w, m.r3.x, m.r3.z, m.r3.w);
    let n22: i64 = det3(m.r0.x, m.r0.y, m.r0.w, m.r1.x, m.r1.y, m.r1.w, m.r3.x, m.r3.y, m.r3.w);
    let n23: i64 = det3(m.r0.x, m.r0.y, m.r0.z, m.r1.x, m.r1.y, m.r1.z, m.r3.x, m.r3.y, m.r3.z);
    let n30: i64 = det3(m.r0.y, m.r0.z, m.r0.w, m.r1.y, m.r1.z, m.r1.w, m.r2.y, m.r2.z, m.r2.w);
    let n31: i64 = det3(m.r0.x, m.r0.z, m.r0.w, m.r1.x, m.r1.z, m.r1.w, m.r2.x, m.r2.z, m.r2.w);
    let n32: i64 = det3(m.r0.x, m.r0.y, m.r0.w, m.r1.x, m.r1.y, m.r1.w, m.r2.x, m.r2.y, m.r2.w);
    let n33: i64 = det3(m.r0.x, m.r0.y, m.r0.z, m.r1.x, m.r1.y, m.r1.z, m.r2.x, m.r2.y, m.r2.z);
    let det: i64 = fx_add(
        fx_sub(fx_mul(m.r0.x, n00), fx_mul(m.r0.y, n01)),
        fx_sub(fx_mul(m.r0.z, n02), fx_mul(m.r0.w, n03)),
    );
    if det == 0 {
        Option::None
    } else {
        Option::Some(Mat4Fx {
            r0: Vec4Fx { x: fx_div(n00, det), y: fx_neg(fx_div(n10, det)), z: fx_div(n20, det), w: fx_neg(fx_div(n30, det)), },
            r1: Vec4Fx { x: fx_neg(fx_div(n01, det)), y: fx_div(n11, det), z: fx_neg(fx_div(n21, det)), w: fx_div(n31, det), },
            r2: Vec4Fx { x: fx_div(n02, det), y: fx_neg(fx_div(n12, det)), z: fx_div(n22, det), w: fx_neg(fx_div(n32, det)), },
            r3: Vec4Fx { x: fx_neg(fx_div(n03, det)), y: fx_div(n13, det), z: fx_neg(fx_div(n23, det)), w: fx_div(n33, det), },
        })
    }
}

} // verus!
use vstd::prelude::*;

verus! {

use crate::math::fx::{fx_clip};

/// Whether a scalar lies inside the saturation range; every result of a
/// fixed-point operation does.
pub open spec fn fx_in_range(x: int) -> bool {
    -(FX_MAX as int) <= x <= FX_MAX as int
}

/// Whether each component of a vector lies inside the saturation range.
pub open spec fn v3_in_range_s(v: Vec3Fx) -> bool {
    fx_in_range(v.x as int) && fx_in_range(v.y as int) && fx_in_range(v.z as int)
}

/// A squared length is never negative and never saturates below zero.
pub proof fn lemma_v3_len_sq_nonneg(v: Vec3Fx)
    ensures
        0 <= v3_len_sq_s(v) <= FX_MAX as int,
{
    lemma_fx_mul_square_nonneg(v.x as int);
    lemma_fx_mul_square_nonneg(v.y as int);
    lemma_fx_mul_square_nonneg(v.z as int);
}

/// The dot product does not depend on the order of its arguments.
pub proof fn lemma_v3_dot_comm(a: Vec3Fx, b: Vec3Fx)
    ensures
        v3_dot_s(a, b) == v3_dot_s(b, a),
{
    crate::math::fx::lemma_fx_mul_s_neg(a.x as int, b.x as int);
    crate::math::fx::lemma_fx_mul_s_neg(a.y as int, b.y as int);
    crate::math::fx::lemma_fx_mul_s_neg(a.z as int, b.z as int);
}

/// Negating a vector negates its dot product with any other vector.
pub proof fn lemma_v3_dot_neg_right(u: Vec3Fx, r: Vec3Fx)
    requires
        v3_in_range_s(r),
    ensures
        v3_dot_s(u, v3_neg_s(r)) == -v3_dot_s(u, r),
{
    crate::math::fx::lemma_fx_mul_s_neg(u.x as int, r.x as int);
    crate::math::fx::lemma_fx_mul_s_neg(u.y as int, r.y as int);
    crate::math::fx::lemma_fx_mul_s_neg(u.z as int, r.z as int);
}

/// Negating a vector leaves its squared length unchanged.
pub proof fn lemma_v3_len_sq_neg(v: Vec3Fx)
    requires
        v3_in_range_s(v),
    ensures
        v3_len_sq_s(v3_neg_s(v)) == v3_len_sq_s(v),
{
    crate::math::fx::lemma_fx_mul_s_neg(v.x as int, v.x as int);
    crate::math::fx::lemma_fx_mul_s_neg(-(v.x as int), v.x as int);
    crate::math::fx::lemma_fx_mul_s_neg(v.y as int, v.y as int);
    crate::math::fx::lemma_fx_mul_s_neg(-(v.y as int), v.y as int);
    crate::math::fx::lemma_fx_mul_s_neg(v.z as int, v.z as int);
    crate::math::fx::lemma_fx_mul_s_neg(-(v.z as int), v.z as int);
}


/// Rotation of `angle` about the unit `axis` as a matrix, through the
/// half-angle-free Rodrigues form with the sine and cosine of the angle.
pub open spec fn m3_from_axis_angle_s(axis: Vec3Fx, angle: int) -> Mat3Fx {
    let c = fx_cos_spec(angle);
    let s = fx_sin_spec(angle);
    let t = fx_clip(FX_ONE - c);
    let txx = fx_mul_s(t, fx_mul_s(axis.x as int, axis.x as int) as int);
    let tyy = fx_mul_s(t, fx_mul_s(axis.y as int, axis.y as int) as int);
    let tzz = fx_mul_s(t, fx_mul_s(axis.z as int, axis.z as int) as int);
    let txy = fx_mul_s(t, fx_mul_s(axis.x as int, axis.y as int) as int);
    let txz = fx_mul_s(t, fx_mul_s(axis.x as int, axis.z as int) as int);
    let tyz = fx_mul_s(t, fx_mul_s(axis.y as int, axis.z as int) as int);
    let sx = fx_mul_s(s, axis.x as int);
    let sy = fx_mul_s(s, axis.y as int);
    let sz = fx_mul_s(s, axis.z as int);
    Mat3Fx {
        r0: Vec3Fx { x: fx_clip(txx + c) as i64, y: fx_clip(txy - sz) as i64, z: fx_clip(txz + sy) as i64 },
        r1: Vec3Fx { x: fx_clip(txy + sz) as i64, y: fx_clip(tyy + c) as i64, z: fx_clip(tyz - sx) as i64 },
        r2: Vec3Fx { x: fx_clip(txz - sy) as i64, y: fx_clip(tyz + sx) as i64, z: fx_clip(tzz + c) as i64 },
    }
}

pub fn m3_from_axis_angle(axis: Vec3Fx, angle: Fx) -> (r: Mat3Fx)
    ensures
        r == m3_from_axis_angle_s(axis, angle as int),
{
    let c: i64 = fx_cos(angle);
    let s: i64 = fx_sin(angle);
    let t: i64 = fx_sub(FX_ONE, c);
    let txx: i64 = fx_mul(t, fx_mul(axis.x, axis.x));
    let tyy: i64 = fx_mul(t, fx_mul(axis.y, axis.y));
    let tzz: i64 = fx_mul(t, fx_mul(axis.z, axis.z));
    let txy: i64 = fx_mul(t, fx_mul(axis.x, axis.y));
    let txz: i64 = fx_mul(t, fx_mul(axis.x, axis.z));
    let tyz: i64 = fx_mul(t, fx_mul(axis.y, axis.z));
    let sx: i64 = fx_mul(s, axis.x);
    let sy: i64 = fx_mul(s, axis.y);
    let sz: i64 = fx_mul(s, axis.z);
    Mat3Fx {
        r0: Vec3Fx { x: fx_add(txx, c), y: fx_sub(txy, sz), z: fx_add(txz, sy) },
        r1: Vec3Fx { x: fx_add(txy, sz), y: fx_add(tyy, c), z: fx_sub(tyz, sx) },
        r2: Vec3Fx { x: fx_sub(txz, sy), y: fx_add(tyz, sx), z: fx_add(tzz, c) },
    }
}


/// A vector length is a nonnegative, representable scalar.
pub proof fn lemma_v3_len_s_bounds(v: Vec3Fx)
    ensures
        0 <= v3_len_s(v) <= FX_MAX,
{
    lemma_v3_len_sq_nonneg(v);
    assert(v3_len_sq_s(v) * (FX_ONE as int) >= 0 && v3_len_sq_s(v) * (FX_ONE as int)
        <= 0x4000_0000_0000int * 65536int) by (nonlinear_arith)
        requires
            0 <= v3_len_sq_s(v) <= 0x4000_0000_0000int,
            FX_ONE == 65536,
    ;
    crate::math::fx::lemma_sqrt_floor_bounds(v3_len_sq_s(v) * (FX_ONE as int));
    let s = crate::math::fx::sqrt_floor(v3_len_sq_s(v) * (FX_ONE as int));
    assert(s <= 0x8000_0000int) by (nonlinear_arith)
        requires
            s >= 0,
            s * s <= 0x4000_0000_0000int * 65536int,
    ;
}

} // verus!
