use transform_gizmo::math::fx::{
    fx_add, fx_div, fx_mul, fx_mul_up, fx_neg, fx_sqrt, fx_sub, round_to_interval,
    wrap_angle_delta, FX_HALF_PI, FX_MAX, FX_ONE, FX_PI, FX_TAU,
};
use transform_gizmo::math::trig::{angle_normalize, fx_atan2, fx_cos, fx_sin};
use transform_gizmo::math::vec::{
    m4_identity, m4_inverse, m4_mul, m4_transform_point, v3_cross, v3_dot, v3_len,
    v3_normalize_or_zero, Vec3Fx,
};
use transform_gizmo::math::geom::{
    ray_to_plane_origin, rect_center, rect_width, screen_to_world, segment_to_segment,
    world_to_screen, Rect,
};
use transform_gizmo::math::vec::Vec2Fx;

fn v3(x: i64, y: i64, z: i64) -> Vec3Fx {
    Vec3Fx { x, y, z }
}

#[test]
fn saturating_arithmetic_clips_at_the_range_bound() {
    assert_eq!(fx_add(FX_MAX, FX_MAX), FX_MAX);
    assert_eq!(fx_sub(-FX_MAX, FX_MAX), -FX_MAX);
    assert_eq!(fx_neg(-FX_MAX), FX_MAX);
    assert_eq!(fx_mul(FX_MAX, FX_MAX), FX_MAX);
}

#[test]
fn fixed_point_products_and_quotients() {
    // 1.5 * 2 == 3
    assert_eq!(fx_mul(98304, 131072), 196608);
    // (-1.5) * 2 == -3, rounding toward zero
    assert_eq!(fx_mul(-98304, 131072), -196608);
    // 3 / 2 == 1.5
    assert_eq!(fx_div(196608, 131072), 98304);
    // ceil-rounding keeps tiny positive products positive
    assert_eq!(fx_mul_up(1, 1), 1);
    assert_eq!(fx_mul(1, 1), 0);
}

#[test]
fn square_root_is_exact_on_squares() {
    assert_eq!(fx_sqrt(4 * FX_ONE), 2 * FX_ONE);
    assert_eq!(fx_sqrt(0), 0);
    assert_eq!(fx_sqrt(25 * FX_ONE), 5 * FX_ONE);
}

#[test]
fn round_to_interval_zero_step_is_identity() {
    for v in [-987654, -1, 0, 1, 65536, 123456789] {
        assert_eq!(round_to_interval(v, 0), v);
    }
}

#[test]
fn round_to_interval_snaps_to_nearest_multiple() {
    let step = 6554; // one tenth
    // 1.23 in fixed point snaps to twelve steps
    assert_eq!(round_to_interval(80609, step), 12 * step);
    // just above half a step rounds up
    assert_eq!(round_to_interval(step / 2 + 1, step), step);
    // negative values mirror
    assert_eq!(round_to_interval(-80609, step), -12 * step);
}

#[test]
fn wrap_reports_the_short_path_across_the_boundary() {
    // 179 degrees to -179 degrees is a +2 degree step
    let a_prev = 204743; // about 179 degrees
    let a_cur = -204743;
    let d = fx_sub(a_cur, a_prev);
    let w = wrap_angle_delta(d);
    assert_eq!(w, d + FX_TAU);
    assert!(w > 0 && w < 3000);
    // and the mirror image
    assert_eq!(wrap_angle_delta(fx_sub(a_prev, a_cur)), -w);
    // small deltas pass unchanged
    assert_eq!(wrap_angle_delta(1234), 1234);
}

#[test]
fn angle_normalize_is_periodic() {
    assert_eq!(angle_normalize(0), 0);
    assert_eq!(angle_normalize(FX_TAU), 0);
    assert_eq!(angle_normalize(-FX_TAU), 0);
    assert_eq!(angle_normalize(FX_PI + FX_TAU), FX_PI);
    assert_eq!(angle_normalize(1000 - FX_TAU), 1000);
}

#[test]
fn atan2_is_exact_on_the_axes_and_diagonal() {
    assert_eq!(fx_atan2(0, 5 * FX_ONE), 0);
    assert_eq!(fx_atan2(0, -5 * FX_ONE), FX_PI);
    assert_eq!(fx_atan2(3 * FX_ONE, 0), FX_HALF_PI);
    assert_eq!(fx_atan2(-3 * FX_ONE, 0), -FX_HALF_PI);
    // the diagonal gives exactly pi / 4
    assert_eq!(fx_atan2(FX_ONE, FX_ONE), 51472);
    assert_eq!(fx_atan2(0, 0), 0);
}

#[test]
fn atan2_tracks_angles_to_within_a_third_of_a_degree() {
    for deg in [3_i32, 10, 33, 45, 80, 100, 170, 190, 260, 340] {
        let rad = (deg as f64).to_radians();
        let x = (1000.0 * rad.cos() * 65536.0) as i64;
        let y = (1000.0 * rad.sin() * 65536.0) as i64;
        let got = fx_atan2(y, x) as f64 / 65536.0;
        let want = (y as f64).atan2(x as f64);
        assert!(
            (got - want).abs() < 0.006,
            "deg {deg}: got {got}, want {want}"
        );
    }
}

#[test]
fn sine_and_cosine_stay_bounded_and_hit_the_landmarks() {
    assert_eq!(fx_sin(0), 0);
    assert_eq!(fx_sin(FX_PI), 0);
    let s = fx_sin(FX_HALF_PI);
    assert!(s >= FX_ONE - 8 && s <= FX_ONE);
    let c = fx_cos(0);
    assert!(c >= FX_ONE - 8 && c <= FX_ONE);
    for a in [-400000_i64, -100000, -3000, 0, 7000, 90000, 350000] {
        assert!(fx_sin(a).abs() <= FX_ONE);
        assert!(fx_cos(a).abs() <= FX_ONE);
    }
}

#[test]
fn vector_algebra_basics() {
    let a = v3(3 * FX_ONE, 4 * FX_ONE, 0);
    assert_eq!(v3_len(a), 5 * FX_ONE);
    let n = v3_normalize_or_zero(a);
    assert_eq!(n.x, 39321);
    assert_eq!(n.y, 52428);
    assert_eq!(n.z, 0);
    assert_eq!(v3_normalize_or_zero(v3(0, 0, 0)), v3(0, 0, 0));
    let x = v3(FX_ONE, 0, 0);
    let y = v3(0, FX_ONE, 0);
    assert_eq!(v3_cross(x, y), v3(0, 0, FX_ONE));
    assert_eq!(v3_dot(x, y), 0);
    assert_eq!(v3_dot(a, a), 25 * FX_ONE);
}

#[test]
fn identity_matrix_inverts_to_itself() {
    let id = m4_identity();
    let sq = m4_mul(&id, &id);
    assert_eq!(sq, id);
    let inv = m4_inverse(&id).expect("identity is invertible");
    assert_eq!(inv, id);
    let p = m4_transform_point(&id, v3(7 * FX_ONE, -2 * FX_ONE, FX_ONE));
    assert_eq!((p.x, p.y, p.z, p.w), (7 * FX_ONE, -2 * FX_ONE, FX_ONE, FX_ONE));
}

#[test]
fn ray_plane_intersection_reports_parameter_and_radius() {
    // plane z = 0, ray from (0, 2, 5) pointing down the z axis
    let hit = ray_to_plane_origin(
        v3(0, 0, FX_ONE),
        v3(0, 0, 0),
        v3(0, 2 * FX_ONE, 5 * FX_ONE),
        v3(0, 0, -FX_ONE),
    )
    .expect("ray meets the plane");
    assert_eq!(hit.t, 5 * FX_ONE);
    assert_eq!(hit.dist_from_origin, 2 * FX_ONE);
    // a ray parallel to the plane reports nothing
    assert!(ray_to_plane_origin(
        v3(0, 0, FX_ONE),
        v3(0, 0, 0),
        v3(0, 2 * FX_ONE, 5 * FX_ONE),
        v3(FX_ONE, 0, 0),
    )
    .is_none());
}

#[test]
fn closest_points_of_separated_parallel_segments() {
    let r = segment_to_segment(
        v3(0, 0, 0),
        v3(10 * FX_ONE, 0, 0),
        v3(0, 3 * FX_ONE, 0),
        v3(10 * FX_ONE, 3 * FX_ONE, 0),
    );
    // squared distance of 9 in fixed point, within rounding
    assert!((r.dist_sq - 9 * FX_ONE).abs() < 2000, "dist_sq {}", r.dist_sq);
}

#[test]
fn closest_points_are_symmetric_in_the_segments() {
    let a1 = v3(0, 0, 0);
    let b1 = v3(10 * FX_ONE, FX_ONE, 0);
    let a2 = v3(FX_ONE, 5 * FX_ONE, 2 * FX_ONE);
    let b2 = v3(-3 * FX_ONE, FX_ONE, FX_ONE);
    let fwd = segment_to_segment(a1, b1, a2, b2);
    let bwd = segment_to_segment(a2, b2, a1, b1);
    assert_eq!(fwd.dist_sq, bwd.dist_sq);
}

#[test]
fn segments_sharing_a_start_point_touch() {
    let a = v3(2 * FX_ONE, FX_ONE, 0);
    let r = segment_to_segment(a, v3(9 * FX_ONE, 0, 0), a, v3(0, 4 * FX_ONE, FX_ONE));
    assert_eq!(r.dist_sq, 0);
}

#[test]
fn world_to_screen_centers_the_origin_and_rejects_points_behind() {
    let viewport = Rect {
        min_x: 0,
        min_y: 0,
        max_x: 800 * FX_ONE,
        max_y: 600 * FX_ONE,
    };
    assert_eq!(rect_width(&viewport), 800 * FX_ONE);
    let c = rect_center(&viewport);
    assert_eq!((c.x, c.y), (400 * FX_ONE, 300 * FX_ONE));
    let id = m4_identity();
    let p = world_to_screen(&viewport, &id, v3(0, 0, 0)).expect("in front of the camera");
    assert_eq!((p.x, p.y), (400 * FX_ONE, 300 * FX_ONE));
    // a projective matrix with w = z rejects anything at or behind z = 0
    let mut proj = m4_identity();
    proj.r3.x = 0;
    proj.r3.y = 0;
    proj.r3.z = FX_ONE;
    proj.r3.w = 0;
    assert!(world_to_screen(&viewport, &proj, v3(0, 0, -FX_ONE)).is_none());
}

#[test]
fn screen_to_world_inverts_the_center_projection() {
    let viewport = Rect {
        min_x: 0,
        min_y: 0,
        max_x: 800 * FX_ONE,
        max_y: 600 * FX_ONE,
    };
    let id = m4_identity();
    let p = screen_to_world(
        &viewport,
        &id,
        Vec2Fx {
            x: 400 * FX_ONE,
            y: 300 * FX_ONE,
        },
        0,
    )
    .expect("identity is invertible at depth zero");
    assert_eq!(p, v3(0, 0, 0));
    // a degenerate viewport reports nothing
    let empty = Rect {
        min_x: 0,
        min_y: 0,
        max_x: 0,
        max_y: 0,
    };
    assert!(screen_to_world(&empty, &id, Vec2Fx { x: 0, y: 0 }, 0).is_none());
}
