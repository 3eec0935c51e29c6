use vstd::prelude::*;

verus! {

use crate::math::fx::{Fx, FX_ONE, FX_MAX, fx_add, fx_sub, fx_neg, fx_mul, fx_div, fx_clamp, fxc, fx_mul_s, fx_div_s, fx_clamp_s};
use crate::math::vec::{Vec2Fx, Vec3Fx, Vec4Fx, Mat3Fx, Mat4Fx, v3_add, v3_sub, v3_scale, v3_dot, v3_cross, v3_len, v3_len_sq, v3_normalize_or_zero, v3_add_s, v3_sub_s, v3_neg_s, v3_scale_s, v3_dot_s, v3_cross_s, v3_len_s, v3_len_sq_s, v3_normalize_or_zero_s, v3_zero_s, v3_dist, v3_dist_s, m4_transform_point, m4_transform_point_s, m4_transform_v4, m4_transform_v4_s, lemma_v3_len_sq_nonneg};

/// Threshold under which a fixed-point denominator counts as degenerate
/// (about 2.4e-4 in whole units).
pub const GEOM_EPS: i64 = 16;

/// A screen-space rectangle in fixed-point pixels.
#[derive(Clone, Copy, Debug, PartialEq, Eq, Structural)]
pub struct Rect {
    pub min_x: Fx,
    pub min_y: Fx,
    pub max_x: Fx,
    pub max_y: Fx,
}

pub open spec fn rect_width_s(r: Rect) -> Fx {
    fxc(r.max_x - r.min_x)
}

pub fn rect_width(r: &Rect) -> (w: Fx)
    ensures
        w == rect_width_s(*r),
{
    fx_sub(r.max_x, r.min_x)
}

pub open spec fn rect_height_s(r: Rect) -> Fx {
    fxc(r.max_y - r.min_y)
}

pub fn rect_height(r: &Rect) -> (h: Fx)
    ensures
        h == rect_height_s(*r),
{
    fx_sub(r.max_y, r.min_y)
}

pub open spec fn rect_center_s(r: Rect) -> Vec2Fx {
    Vec2Fx {
        x: fx_mul_s(fxc(r.min_x + r.max_x) as int, 32768),
        y: fx_mul_s(fxc(r.min_y + r.max_y) as int, 32768),
    }
}

pub fn rect_center(r: &Rect) -> (c: Vec2Fx)
    ensures
        c == rect_center_s(*r),
{
    Vec2Fx { x: fx_mul(fx_add(r.min_x, r.max_x), 32768), y: fx_mul(fx_add(r.min_y, r.max_y), 32768) }
}

/// Intersection of a ray with a plane, described by the ray parameter of
/// the hit and the radial distance from the plane's origin point to it.
#[derive(Clone, Copy, Debug, PartialEq, Eq, Structural)]
pub struct PlaneHit {
    pub t: Fx,
    pub dist_from_origin: Fx,
}

/// Ray-plane intersection, as a mathematical function: no hit when the ray
/// runs (nearly) parallel to the plane.
pub open spec fn ray_to_plane_origin_s(
    normal: Vec3Fx,
    plane_origin: Vec3Fx,
    ray_origin: Vec3Fx,
    ray_dir: Vec3Fx,
) -> Option<PlaneHit> {
    let denom = v3_dot_s(normal, ray_dir);
    if -(GEOM_EPS as int) <= denom <= GEOM_EPS as int {
        Option::None
    } else {
        let t = fx_div_s(v3_dot_s(normal, v3_sub_s(plane_origin, ray_origin)) as int, denom as int);
        let hit = v3_add_s(ray_origin, v3_scale_s(ray_dir, t as int));
        Option::Some(PlaneHit { t: t, dist_from_origin: v3_dist_s(hit, plane_origin) })
    }
}

/// Intersects a ray with the plane through `plane_origin` with the given
/// normal; reports no hit instead of dividing by a vanishing denominator.
pub fn ray_to_plane_origin(
    normal: Vec3Fx,
    plane_origin: Vec3Fx,
    ray_origin: Vec3Fx,
    ray_dir: Vec3Fx,
) -> (r: Option<PlaneHit>)
    ensures
        r == ray_to_plane_origin_s(normal, plane_origin, ray_origin, ray_dir),
        r is Some ==> r->0.dist_from_origin >= 0,
{
    let denom: i64 = v3_dot(normal, ray_dir);
    if -GEOM_EPS <= denom && denom <= GEOM_EPS {
        Option::None
    } else {
        let t: i64 = fx_div(v3_dot(normal, v3_sub(plane_origin, ray_origin)), denom);
        let hit = v3_add(ray_origin, v3_scale(ray_dir, t));
        Option::Some(PlaneHit { t: t, dist_from_origin: v3_dist(hit, plane_origin) })
    }
}

/// Projection of a world point to screen pixels, as a mathematical
/// function: no result when the point is on or behind the camera plane.
pub open spec fn world_to_screen_s(viewport: Rect, mvp: Mat4Fx, pos: Vec3Fx) -> Option<Vec2Fx> {
    let clip = m4_transform_point_s(mvp, pos);
    if clip.w <= 0 {
        Option::None
    } else {
        let ndc_x = fx_div_s(clip.x as int, clip.w as int);
        let ndc_y = fx_div_s(clip.y as int, clip.w as int);
        let center = rect_center_s(viewport);
        let half_w = fx_mul_s(rect_width_s(viewport) as int, 32768);
        let half_h = fx_mul_s(rect_height_s(viewport) as int, 32768);
        Option::Some(
            Vec2Fx {
                x: fxc(center.x + fx_mul_s(half_w as int, ndc_x as int)),
                y: fxc(center.y + fx_mul_s(half_h as int, -(ndc_y as int))),
            },
        )
    }
}

/// Projects a world point through a model-view-projection matrix into the
/// viewport, with the screen y axis pointing down; fails rather than
/// producing a garbage point for positions behind the camera.
pub fn world_to_screen(viewport: &Rect, mvp: &Mat4Fx, pos: Vec3Fx) -> (r: Option<Vec2Fx>)
    ensures
        r == world_to_screen_s(*viewport, *mvp, pos),
{
    let clip: Vec4Fx = m4_transform_point(mvp, pos);
    if clip.w <= 0 {
        Option::None
    } else {
        let ndc_x: i64 = fx_div(clip.x, clip.w);
        let ndc_y: i64 = fx_div(clip.y, clip.w);
        let center = rect_center(viewport);
        let half_w: i64 = fx_mul(rect_width(viewport), 32768);
        let half_h: i64 = fx_mul(rect_height(viewport), 32768);
        Option::Some(
            Vec2Fx {
                x: fx_add(center.x, fx_mul(half_w, ndc_x)),
                y: fx_add(center.y, fx_mul(half_h, fx_neg(ndc_y))),
            },
        )
    }
}

/// Unprojection of a screen pixel at a given depth, as a mathematical
/// function: no result for a degenerate viewport or a vanishing
/// homogeneous coordinate.
pub open spec fn screen_to_world_s(viewport: Rect, inv: Mat4Fx, pos: Vec2Fx, z: int) -> Option<
    Vec3Fx,
> {
    let w = rect_width_s(viewport);
    let h = rect_height_s(viewport);
    if w == 0 || h == 0 {
        Option::None
    } else {
        let ndc_x = fxc(
            fx_mul_s(fx_div_s(fxc(pos.x - viewport.min_x) as int, w as int) as int, 2 * FX_ONE)
                - FX_ONE,
        );
        let ndc_y = fxc(
            -(fx_mul_s(fx_div_s(fxc(pos.y - viewport.min_y) as int, h as int) as int, 2 * FX_ONE)
                - FX_ONE),
        );
        let world = m4_transform_v4_s(inv, Vec4Fx { x: ndc_x, y: ndc_y, z: fxc(z) as i64, w: FX_ONE });
        if world.w == 0 {
            Option::None
        } else {
            Option::Some(
                Vec3Fx {
                    x: fx_div_s(world.x as int, world.w as int),
                    y: fx_div_s(world.y as int, world.w as int),
                    z: fx_div_s(world.z as int, world.w as int),
                },
            )
        }
    }
}

/// Unprojects a screen pixel at normalized depth `z` through an inverse
/// view-projection matrix, with the same y flip as `world_to_screen`;
/// fails where the matrix is not invertible for the given depth.
pub fn screen_to_world(viewport: &Rect, inv: &Mat4Fx, pos: Vec2Fx, z: Fx) -> (r: Option<Vec3Fx>)
    ensures
        r == screen_to_world_s(*viewport, *inv, pos, z as int),
{
    let w: i64 = rect_width(viewport);
    let h: i64 = rect_height(viewport);
    if w == 0 || h == 0 {
        Option::None
    } else {
        let ndc_x: i64 = fx_sub(fx_mul(fx_div(fx_sub(pos.x, viewport.min_x), w), 2 * FX_ONE), FX_ONE);
        let ndc_y: i64 = fx_neg(
            fx_sub(fx_mul(fx_div(fx_sub(pos.y, viewport.min_y), h), 2 * FX_ONE), FX_ONE),
        );
        let zc: i64 = fx_clamp(z, -FX_MAX, FX_MAX);
        let world: Vec4Fx = m4_transform_v4(inv, Vec4Fx { x: ndc_x, y: ndc_y, z: zc, w: FX_ONE });
        if world.w == 0 {
            Option::None
        } else {
            Option::Some(
                Vec3Fx {
                    x: fx_div(world.x, world.w),
                    y: fx_div(world.y, world.w),
                    z: fx_div(world.z, world.w),
                },
            )
        }
    }
}

/// The shortest-arc rotation mapping the unit vector `from` onto `to`, as
/// a matrix. The anti-parallel case picks a deterministic perpendicular
/// axis and turns half a revolution about it.
pub open spec fn rotation_align_s(from: Vec3Fx, to: Vec3Fx) -> Mat3Fx {
    let c = v3_dot_s(from, to);
    if c <= -FX_ONE + GEOM_EPS {
        let px = v3_cross_s(from, Vec3Fx { x: FX_ONE, y: 0, z: 0 });
        let py = v3_cross_s(from, Vec3Fx { x: 0, y: FX_ONE, z: 0 });
        let p = if v3_len_sq_s(px) > GEOM_EPS as int {
            px
        } else {
            py
        };
        let a = v3_normalize_or_zero_s(p);
        half_turn_about_s(a)
    } else {
        let v = v3_cross_s(from, to);
        let k = fx_div_s(FX_ONE as int, fxc(FX_ONE + c) as int);
        align_matrix_s(v, c as int, k as int)
    }
}

/// Half a revolution about the unit axis `a`: `2 a aT - I`.
pub open spec fn half_turn_about_s(a: Vec3Fx) -> Mat3Fx {
    Mat3Fx {
        r0: Vec3Fx {
            x: fxc(two_prod_s(a.x as int, a.x as int) - FX_ONE),
            y: two_prod_s(a.x as int, a.y as int),
            z: two_prod_s(a.x as int, a.z as int),
        },
        r1: Vec3Fx {
            x: two_prod_s(a.y as int, a.x as int),
            y: fxc(two_prod_s(a.y as int, a.y as int) - FX_ONE),
            z: two_prod_s(a.y as int, a.z as int),
        },
        r2: Vec3Fx {
            x: two_prod_s(a.z as int, a.x as int),
            y: two_prod_s(a.z as int, a.y as int),
            z: fxc(two_prod_s(a.z as int, a.z as int) - FX_ONE),
        },
    }
}

pub open spec fn two_prod_s(a: int, b: int) -> Fx {
    fxc(2 * fx_mul_s(a, b))
}

/// The small-angle branch of `rotation_align_s`, from the cross product
/// `v`, the cosine `c` and the shared factor `k = 1 / (1 + c)`.
pub open spec fn align_matrix_s(v: Vec3Fx, c: int, k: int) -> Mat3Fx {
    Mat3Fx {
        r0: Vec3Fx {
            x: fxc(fx_mul_s(fx_mul_s(v.x as int, v.x as int) as int, k) + c),
            y: fxc(fx_mul_s(fx_mul_s(v.y as int, v.x as int) as int, k) - v.z),
            z: fxc(fx_mul_s(fx_mul_s(v.z as int, v.x as int) as int, k) + v.y),
        },
        r1: Vec3Fx {
            x: fxc(fx_mul_s(fx_mul_s(v.x as int, v.y as int) as int, k) + v.z),
            y: fxc(fx_mul_s(fx_mul_s(v.y as int, v.y as int) as int, k) + c),
            z: fxc(fx_mul_s(fx_mul_s(v.z as int, v.y as int) as int, k) - v.x),
        },
        r2: Vec3Fx {
            x: fxc(fx_mul_s(fx_mul_s(v.x as int, v.z as int) as int, k) - v.y),
            y: fxc(fx_mul_s(fx_mul_s(v.y as int, v.z as int) as int, k) + v.x),
            z: fxc(fx_mul_s(fx_mul_s(v.z as int, v.z as int) as int, k) + c),
        },
    }
}

fn two_prod(a: Fx, b: Fx) -> (r: Fx)
    ensures
        r == two_prod_s(a as int, b as int),
{
    let p: i64 = fx_mul(a, b);
    fx_add(p, p)
}

pub fn rotation_align(from: Vec3Fx, to: Vec3Fx) -> (r: Mat3Fx)
    ensures
        r == rotation_align_s(from, to),
{
    let c: i64 = v3_dot(from, to);
    if c <= -FX_ONE + GEOM_EPS {
        let px = v3_cross(from, Vec3Fx { x: FX_ONE, y: 0, z: 0 });
        let py = v3_cross(from, Vec3Fx { x: 0, y: FX_ONE, z: 0 });
        let p = if v3_len_sq(px) > GEOM_EPS {
            px
        } else {
            py
        };
        let a = v3_normalize_or_zero(p);
        Mat3Fx {
            r0: Vec3Fx {
                x: fx_sub(two_prod(a.x, a.x), FX_ONE),
                y: two_prod(a.x, a.y),
                z: two_prod(a.x, a.z),
            },
            r1: Vec3Fx {
                x: two_prod(a.y, a.x),
                y: fx_sub(two_prod(a.y, a.y), FX_ONE),
                z: two_prod(a.y, a.z),
            },
            r2: Vec3Fx {
                x: two_prod(a.z, a.x),
                y: two_prod(a.z, a.y),
                z: fx_sub(two_prod(a.z, a.z), FX_ONE),
            },
        }
    } else {
        let v = v3_cross(from, to);
        let k: i64 = fx_div(FX_ONE, fx_add(FX_ONE, c));
        Mat3Fx {
            r0: Vec3Fx {
                x: fx_add(fx_mul(fx_mul(v.x, v.x), k), c),
                y: fx_sub(fx_mul(fx_mul(v.y, v.x), k), v.z),
                z: fx_add(fx_mul(fx_mul(v.z, v.x), k), v.y),
            },
            r1: Vec3Fx {
                x: fx_add(fx_mul(fx_mul(v.x, v.y), k), v.z),
                y: fx_add(fx_mul(fx_mul(v.y, v.y), k), c),
                z: fx_sub(fx_mul(fx_mul(v.z, v.y), k), v.x),
            },
            r2: Vec3Fx {
                x: fx_sub(fx_mul(fx_mul(v.x, v.z), k), v.y),
                y: fx_add(fx_mul(fx_mul(v.y, v.z), k), v.x),
                z: fx_add(fx_mul(fx_mul(v.z, v.z), k), c),
            },
        }
    }
}

/// The derived quantities shared by every closest-point candidate of a
/// segment pair: unit directions, lengths, and the dot products of the
/// normal equations.
pub struct SegFrame {
    pub a1: Vec3Fx,
    pub u1: Vec3Fx,
    pub l1: Fx,
    pub a2: Vec3Fx,
    pub u2: Vec3Fx,
    pub l2: Fx,
    pub c: Fx,
    pub f: Fx,
    pub b: Fx,
    pub denom: Fx,
}

pub open spec fn seg_frame_s(a1: Vec3Fx, b1: Vec3Fx, a2: Vec3Fx, b2: Vec3Fx) -> SegFrame {
    let d1 = v3_sub_s(b1, a1);
    let d2 = v3_sub_s(b2, a2);
    let u1 = v3_normalize_or_zero_s(d1);
    let u2 = v3_normalize_or_zero_s(d2);
    let r = v3_sub_s(a1, a2);
    let b = v3_dot_s(u1, u2);
    SegFrame {
        a1: a1,
        u1: u1,
        l1: v3_len_s(d1),
        a2: a2,
        u2: u2,
        l2: v3_len_s(d2),
        c: v3_dot_s(u1, r),
        f: v3_dot_s(u2, r),
        b: b,
        denom: fxc(FX_ONE - fx_mul_s(b as int, b as int)),
    }
}

/// The difference vector between the two segment points at parameters
/// `s` and `t` (world lengths along the unit directions).
pub open spec fn seg_diff_s(fr: SegFrame, s: int, t: int) -> Vec3Fx {
    v3_sub_s(v3_add_s(fr.a1, v3_scale_s(fr.u1, s)), v3_add_s(fr.a2, v3_scale_s(fr.u2, t)))
}

/// Squared distance between the two segment points at `s` and `t`.
pub open spec fn seg_d2_s(fr: SegFrame, s: int, t: int) -> Fx {
    v3_len_sq_s(seg_diff_s(fr, s, t))
}

/// Best `t` for a fixed `s`, clamped into the second segment.
pub open spec fn seg_t_of_s(fr: SegFrame, s: int) -> Fx {
    fx_clamp_s(fxc(fr.f + fx_mul_s(s, fr.b as int)) as int, 0, fr.l2 as int) as i64
}

/// Best `s` for a fixed `t`, clamped into the first segment.
pub open spec fn seg_s_of_t(fr: SegFrame, t: int) -> Fx {
    fx_clamp_s(fxc(-fr.c + fx_mul_s(t, fr.b as int)) as int, 0, fr.l1 as int) as i64
}

/// Whether the two directions are far enough from parallel for the
/// interior solution of the normal equations to be usable.
pub open spec fn seg_has_interior_s(fr: SegFrame) -> bool {
    fr.denom > GEOM_EPS
}

/// The interior solution of the normal equations, clamped into both
/// segments.
pub open spec fn seg_interior_s(fr: SegFrame) -> (Fx, Fx) {
    let num_s = fxc(fx_mul_s(fr.b as int, fr.f as int) - fr.c);
    let num_t = fxc(fr.f - fx_mul_s(fr.b as int, fr.c as int));
    (
        fx_clamp_s(fx_div_s(num_s as int, fr.denom as int) as int, 0, fr.l1 as int) as i64,
        fx_clamp_s(fx_div_s(num_t as int, fr.denom as int) as int, 0, fr.l2 as int) as i64,
    )
}

/// The candidate parameter pairs examined for the closest points: the four
/// clamped edge projections and, away from parallel, the clamped interior
/// solution.
pub open spec fn seg_min_d2_s(fr: SegFrame) -> Fx {
    let db = seg_d2_s(fr, 0, seg_t_of_s(fr, 0) as int);
    let dc = seg_d2_s(fr, fr.l1 as int, seg_t_of_s(fr, fr.l1 as int) as int);
    let dd = seg_d2_s(fr, seg_s_of_t(fr, 0) as int, 0);
    let de = seg_d2_s(fr, seg_s_of_t(fr, fr.l2 as int) as int, fr.l2 as int);
    let m = fx_min_s(fx_min_s(fx_min_s(db, dc), dd), de);
    if seg_has_interior_s(fr) {
        let (si, ti) = seg_interior_s(fr);
        fx_min_s(m, seg_d2_s(fr, si as int, ti as int))
    } else {
        m
    }
}

pub open spec fn fx_min_s(a: Fx, b: Fx) -> Fx {
    if a <= b {
        a
    } else {
        b
    }
}

/// The result of the closest-point search between two segments: world
/// length parameters along each segment's unit direction, and the squared
/// distance between the two chosen points.
#[derive(Clone, Copy, Debug, PartialEq, Eq, Structural)]
pub struct SegmentClosest {
    pub s: Fx,
    pub t: Fx,
    pub dist_sq: Fx,
}

fn seg_d2(fr_a1: Vec3Fx, fr_u1: Vec3Fx, fr_a2: Vec3Fx, fr_u2: Vec3Fx, s: Fx, t: Fx, fr: Ghost<
    SegFrame,
>) -> (r: Fx)
    requires
        fr@.a1 == fr_a1,
        fr@.u1 == fr_u1,
        fr@.a2 == fr_a2,
        fr@.u2 == fr_u2,
    ensures
        r == seg_d2_s(fr@, s as int, t as int),
        0 <= r <= FX_MAX,
{
    let diff = v3_sub(v3_add(fr_a1, v3_scale(fr_u1, s)), v3_add(fr_a2, v3_scale(fr_u2, t)));
    v3_len_sq(diff)
}

/// Closest points between the segments `a1..b1` and `a2..b2`: returns the
/// world-length parameters along each segment's unit direction and the
/// squared distance, the smallest over the edge and interior candidates.
/// Near-parallel directions skip the interior solution instead of dividing
/// by a vanishing denominator.
#[verifier::rlimit(100)]
pub fn segment_to_segment(a1: Vec3Fx, b1: Vec3Fx, a2: Vec3Fx, b2: Vec3Fx) -> (r: SegmentClosest)
    ensures
        r.dist_sq == seg_min_d2_s(seg_frame_s(a1, b1, a2, b2)),
        0 <= r.dist_sq <= FX_MAX,
        r.dist_sq == seg_d2_s(seg_frame_s(a1, b1, a2, b2), r.s as int, r.t as int),
        0 <= r.s <= seg_frame_s(a1, b1, a2, b2).l1,
        0 <= r.t <= seg_frame_s(a1, b1, a2, b2).l2,
{
    let d1 = v3_sub(b1, a1);
    let d2v = v3_sub(b2, a2);
    let u1 = v3_normalize_or_zero(d1);
    let u2 = v3_normalize_or_zero(d2v);
    let l1: i64 = v3_len(d1);
    let l2: i64 = v3_len(d2v);
    let rvec = v3_sub(a1, a2);
    let c: i64 = v3_dot(u1, rvec);
    let f: i64 = v3_dot(u2, rvec);
    let b: i64 = v3_dot(u1, u2);
    let denom: i64 = fx_sub(FX_ONE, fx_mul(b, b));
    let ghost fr = seg_frame_s(a1, b1, a2, b2);

    let tb: i64 = fx_clamp(fx_add(f, fx_mul(0, b)), 0, l2);
    let db: i64 = seg_d2(a1, u1, a2, u2, 0, tb, Ghost(fr));
    let tc: i64 = fx_clamp(fx_add(f, fx_mul(l1, b)), 0, l2);
    let dc: i64 = seg_d2(a1, u1, a2, u2, l1, tc, Ghost(fr));
    let sd: i64 = fx_clamp(fx_add(fx_neg(c), fx_mul(0, b)), 0, l1);
    let dd: i64 = seg_d2(a1, u1, a2, u2, sd, 0, Ghost(fr));
    let se: i64 = fx_clamp(fx_add(fx_neg(c), fx_mul(l2, b)), 0, l1);
    let de: i64 = seg_d2(a1, u1, a2, u2, se, l2, Ghost(fr));

    let mut best_s: i64 = 0;
    let mut best_t: i64 = tb;
    let mut best_d: i64 = db;
    if dc < best_d {
        best_s = l1;
        best_t = tc;
        best_d = dc;
    }
    if dd < best_d {
        best_s = sd;
        best_t = 0;
        best_d = dd;
    }
    if de < best_d {
        best_s = se;
        best_t = l2;
        best_d = de;
    }
    proof {
        assert(best_d == fx_min_s(fx_min_s(fx_min_s(db, dc), dd), de));
    }
    if denom > GEOM_EPS {
        let num_s: i64 = fx_sub(fx_mul(b, f), c);
        let num_t: i64 = fx_sub(f, fx_mul(b, c));
        let si: i64 = fx_clamp(fx_div(num_s, denom), 0, l1);
        let ti: i64 = fx_clamp(fx_div(num_t, denom), 0, l2);
        let di: i64 = seg_d2(a1, u1, a2, u2, si, ti, Ghost(fr));
        if di < best_d {
            best_s = si;
            best_t = ti;
            best_d = di;
        }
    }
    SegmentClosest { s: best_s, t: best_t, dist_sq: best_d }
}


/// The closest-point search is symmetric in its two segments: swapping the
/// segment arguments swaps the candidate parameter pairs one for one and
/// negates every difference vector, so the smallest squared distance is
/// the same.
/// The two frames of a swapped segment pair share their lengths, unit
/// directions and denominator, and their normal-equation dot products are
/// each other's negations.
#[verifier::rlimit(100)]
proof fn lemma_frames_swap(a1: Vec3Fx, b1: Vec3Fx, a2: Vec3Fx, b2: Vec3Fx)
    ensures
        seg_frame_s(a2, b2, a1, b1).a1 == seg_frame_s(a1, b1, a2, b2).a2,
        seg_frame_s(a2, b2, a1, b1).a2 == seg_frame_s(a1, b1, a2, b2).a1,
        seg_frame_s(a2, b2, a1, b1).u1 == seg_frame_s(a1, b1, a2, b2).u2,
        seg_frame_s(a2, b2, a1, b1).u2 == seg_frame_s(a1, b1, a2, b2).u1,
        seg_frame_s(a2, b2, a1, b1).l1 == seg_frame_s(a1, b1, a2, b2).l2,
        seg_frame_s(a2, b2, a1, b1).l2 == seg_frame_s(a1, b1, a2, b2).l1,
        seg_frame_s(a2, b2, a1, b1).b == seg_frame_s(a1, b1, a2, b2).b,
        seg_frame_s(a2, b2, a1, b1).c == -seg_frame_s(a1, b1, a2, b2).f,
        seg_frame_s(a2, b2, a1, b1).f == -seg_frame_s(a1, b1, a2, b2).c,
        seg_frame_s(a2, b2, a1, b1).denom == seg_frame_s(a1, b1, a2, b2).denom,
{
    let f1 = seg_frame_s(a1, b1, a2, b2);
    let f2 = seg_frame_s(a2, b2, a1, b1);
    let r1 = v3_sub_s(a1, a2);
    let r2 = v3_sub_s(a2, a1);
    assert(r2 == v3_neg_s(r1));
    assert(crate::math::vec::v3_in_range_s(r1));
    crate::math::vec::lemma_v3_dot_comm(f1.u1, f1.u2);
    crate::math::vec::lemma_v3_dot_neg_right(f1.u2, r1);
    crate::math::vec::lemma_v3_dot_neg_right(f1.u1, r1);
    assert(f2.b == f1.b);
    assert(f2.c == -f1.f && f2.f == -f1.c);
}

#[verifier::rlimit(100)]
pub proof fn lemma_segment_to_segment_symmetric(a1: Vec3Fx, b1: Vec3Fx, a2: Vec3Fx, b2: Vec3Fx)
    ensures
        seg_min_d2_s(seg_frame_s(a1, b1, a2, b2)) == seg_min_d2_s(seg_frame_s(a2, b2, a1, b1)),
{
    lemma_frames_swap(a1, b1, a2, b2);
    lemma_min_swap(seg_frame_s(a1, b1, a2, b2), seg_frame_s(a2, b2, a1, b1));
}

/// For any two frames related by the swap of their segments, the smallest
/// candidate squared distance is the same: the candidate pairs correspond
/// one to one with their parameters exchanged.
#[verifier::rlimit(100)]
proof fn lemma_min_swap(f1: SegFrame, f2: SegFrame)
    requires
        f2.a1 == f1.a2,
        f2.u1 == f1.u2,
        f2.a2 == f1.a1,
        f2.u2 == f1.u1,
        f2.l1 == f1.l2,
        f2.l2 == f1.l1,
        f2.b == f1.b,
        f2.c == -f1.f,
        f2.f == -f1.c,
        f2.denom == f1.denom,
    ensures
        seg_min_d2_s(f2) == seg_min_d2_s(f1),
{
    lemma_swap_cand_b(f1, f2);
    lemma_swap_cand_c(f1, f2);
    lemma_swap_cand_d(f1, f2);
    lemma_swap_cand_e(f1, f2);
    if seg_has_interior_s(f1) {
        lemma_swap_cand_interior(f1, f2);
    }
}

/// The start-of-first-segment candidate of the swapped frame is the
/// start-of-second-segment candidate of the unswapped one.
#[verifier::rlimit(100)]
proof fn lemma_swap_cand_b(f1: SegFrame, f2: SegFrame)
    requires
        f2.a1 == f1.a2,
        f2.u1 == f1.u2,
        f2.a2 == f1.a1,
        f2.u2 == f1.u1,
        f2.l1 == f1.l2,
        f2.l2 == f1.l1,
        f2.b == f1.b,
        f2.c == -f1.f,
        f2.f == -f1.c,
        f2.denom == f1.denom,
    ensures
        seg_d2_s(f2, 0, seg_t_of_s(f2, 0) as int) == seg_d2_s(f1, seg_s_of_t(f1, 0) as int, 0),
{
    crate::math::fx::lemma_fx_mul_s_neg(f1.b as int, f1.f as int);
    crate::math::fx::lemma_fx_mul_s_neg(f1.b as int, f1.c as int);
    assert(seg_t_of_s(f2, 0) == seg_s_of_t(f1, 0));
    lemma_seg_d2_swap(f1, f2, seg_s_of_t(f1, 0) as int, 0);
}

/// The end-of-first-segment candidate of the swapped frame is the
/// end-of-second-segment candidate of the unswapped one.
#[verifier::rlimit(100)]
proof fn lemma_swap_cand_c(f1: SegFrame, f2: SegFrame)
    requires
        f2.a1 == f1.a2,
        f2.u1 == f1.u2,
        f2.a2 == f1.a1,
        f2.u2 == f1.u1,
        f2.l1 == f1.l2,
        f2.l2 == f1.l1,
        f2.b == f1.b,
        f2.c == -f1.f,
        f2.f == -f1.c,
        f2.denom == f1.denom,
    ensures
        seg_d2_s(f2, f2.l1 as int, seg_t_of_s(f2, f2.l1 as int) as int) == seg_d2_s(
            f1,
            seg_s_of_t(f1, f1.l2 as int) as int,
            f1.l2 as int,
        ),
{
    crate::math::fx::lemma_fx_mul_s_neg(f1.b as int, f1.f as int);
    crate::math::fx::lemma_fx_mul_s_neg(f1.b as int, f1.c as int);
    assert(seg_t_of_s(f2, f2.l1 as int) == seg_s_of_t(f1, f1.l2 as int));
    lemma_seg_d2_swap(f1, f2, seg_s_of_t(f1, f1.l2 as int) as int, f1.l2 as int);
}

/// And the other way round for the second segment's endpoints.
#[verifier::rlimit(100)]
proof fn lemma_swap_cand_d(f1: SegFrame, f2: SegFrame)
    requires
        f2.a1 == f1.a2,
        f2.u1 == f1.u2,
        f2.a2 == f1.a1,
        f2.u2 == f1.u1,
        f2.l1 == f1.l2,
        f2.l2 == f1.l1,
        f2.b == f1.b,
        f2.c == -f1.f,
        f2.f == -f1.c,
        f2.denom == f1.denom,
    ensures
        seg_d2_s(f2, seg_s_of_t(f2, 0) as int, 0) == seg_d2_s(f1, 0, seg_t_of_s(f1, 0) as int),
{
    crate::math::fx::lemma_fx_mul_s_neg(f1.b as int, f1.f as int);
    crate::math::fx::lemma_fx_mul_s_neg(f1.b as int, f1.c as int);
    assert(seg_s_of_t(f2, 0) == seg_t_of_s(f1, 0));
    lemma_seg_d2_swap(f1, f2, 0, seg_t_of_s(f1, 0) as int);
}

#[verifier::rlimit(100)]
proof fn lemma_swap_cand_e(f1: SegFrame, f2: SegFrame)
    requires
        f2.a1 == f1.a2,
        f2.u1 == f1.u2,
        f2.a2 == f1.a1,
        f2.u2 == f1.u1,
        f2.l1 == f1.l2,
        f2.l2 == f1.l1,
        f2.b == f1.b,
        f2.c == -f1.f,
        f2.f == -f1.c,
        f2.denom == f1.denom,
    ensures
        seg_d2_s(f2, seg_s_of_t(f2, f2.l2 as int) as int, f2.l2 as int) == seg_d2_s(
            f1,
            f1.l1 as int,
            seg_t_of_s(f1, f1.l1 as int) as int,
        ),
{
    crate::math::fx::lemma_fx_mul_s_neg(f1.b as int, f1.f as int);
    crate::math::fx::lemma_fx_mul_s_neg(f1.b as int, f1.c as int);
    assert(seg_s_of_t(f2, f2.l2 as int) == seg_t_of_s(f1, f1.l1 as int));
    lemma_seg_d2_swap(f1, f2, f1.l1 as int, seg_t_of_s(f1, f1.l1 as int) as int);
}

/// The clamped interior solutions of the normal equations swap places.
#[verifier::rlimit(100)]
proof fn lemma_swap_cand_interior(f1: SegFrame, f2: SegFrame)
    requires
        f2.a1 == f1.a2,
        f2.u1 == f1.u2,
        f2.a2 == f1.a1,
        f2.u2 == f1.u1,
        f2.l1 == f1.l2,
        f2.l2 == f1.l1,
        f2.b == f1.b,
        f2.c == -f1.f,
        f2.f == -f1.c,
        f2.denom == f1.denom,
    ensures
        seg_interior_s(f2).0 == seg_interior_s(f1).1,
        seg_interior_s(f2).1 == seg_interior_s(f1).0,
        seg_d2_s(f2, seg_interior_s(f2).0 as int, seg_interior_s(f2).1 as int) == seg_d2_s(
            f1,
            seg_interior_s(f1).0 as int,
            seg_interior_s(f1).1 as int,
        ),
{
    crate::math::fx::lemma_fx_mul_s_neg(f1.b as int, f1.f as int);
    crate::math::fx::lemma_fx_mul_s_neg(f1.b as int, f1.c as int);
    assert(seg_interior_s(f2).0 == seg_interior_s(f1).1 && seg_interior_s(f2).1 == seg_interior_s(
        f1,
    ).0);
    lemma_seg_d2_swap(f1, f2, seg_interior_s(f1).0 as int, seg_interior_s(f1).1 as int);
}

/// Swapping the frames and the parameters negates the difference vector,
/// which leaves the squared distance unchanged.
proof fn lemma_seg_d2_swap(fr1: SegFrame, fr2: SegFrame, s: int, t: int)
    requires
        fr2.a1 == fr1.a2,
        fr2.u1 == fr1.u2,
        fr2.a2 == fr1.a1,
        fr2.u2 == fr1.u1,
    ensures
        seg_d2_s(fr2, t, s) == seg_d2_s(fr1, s, t),
{
    let d1 = seg_diff_s(fr1, s, t);
    let d2 = seg_diff_s(fr2, t, s);
    assert(d2 == v3_neg_s(d1));
    assert(crate::math::vec::v3_in_range_s(d1));
    crate::math::vec::lemma_v3_len_sq_neg(d1);
}

/// Two segments that start at the same point are trivially intersecting,
/// and the closest-point search reports a squared distance of exactly
/// zero for them.
pub proof fn lemma_segment_to_segment_shared_start(a: Vec3Fx, b1: Vec3Fx, b2: Vec3Fx)
    requires
        crate::math::vec::v3_in_range_s(a),
    ensures
        seg_min_d2_s(seg_frame_s(a, b1, a, b2)) == 0,
{
    let fr = seg_frame_s(a, b1, a, b2);
    let r = v3_sub_s(a, a);
    assert(r == v3_zero_s());
    lemma_dot_zero_right(fr.u1);
    lemma_dot_zero_right(fr.u2);
    assert(fr.c == 0 && fr.f == 0);
    crate::math::fx::lemma_fx_mul_zero_left(fr.b as int);
    crate::math::vec::lemma_v3_len_s_bounds(v3_sub_s(b1, a));
    crate::math::vec::lemma_v3_len_s_bounds(v3_sub_s(b2, a));
    assert(fr.l1 >= 0 && fr.l2 >= 0);
    assert(seg_t_of_s(fr, 0) == 0);
    let db_diff = seg_diff_s(fr, 0, 0);
    assert(db_diff == v3_zero_s());
    crate::math::fx::lemma_fx_mul_zero_left(0);
    assert(seg_d2_s(fr, 0, 0) == 0);
    lemma_seg_d2_nonneg(fr, fr.l1 as int, seg_t_of_s(fr, fr.l1 as int) as int);
    lemma_seg_d2_nonneg(fr, seg_s_of_t(fr, 0) as int, 0);
    lemma_seg_d2_nonneg(fr, seg_s_of_t(fr, fr.l2 as int) as int, fr.l2 as int);
    if seg_has_interior_s(fr) {
        let (si, ti) = seg_interior_s(fr);
        lemma_seg_d2_nonneg(fr, si as int, ti as int);
    }
}

proof fn lemma_dot_zero_right(u: Vec3Fx)
    ensures
        v3_dot_s(u, v3_zero_s()) == 0,
{
    crate::math::fx::lemma_fx_mul_s_neg(u.x as int, 0);
    crate::math::fx::lemma_fx_mul_s_neg(u.y as int, 0);
    crate::math::fx::lemma_fx_mul_s_neg(u.z as int, 0);
    crate::math::fx::lemma_fx_mul_zero_left(u.x as int);
    crate::math::fx::lemma_fx_mul_zero_left(u.y as int);
    crate::math::fx::lemma_fx_mul_zero_left(u.z as int);
}

proof fn lemma_seg_d2_nonneg(fr: SegFrame, s: int, t: int)
    ensures
        seg_d2_s(fr, s, t) >= 0,
{
    crate::math::vec::lemma_v3_len_sq_nonneg(seg_diff_s(fr, s, t));
}

} // verus!
