use transform_gizmo::config::{
    GizmoConfig, GizmoDirection, GizmoMode, GizmoModeSet, GizmoOrientation, PreparedGizmoConfig,
    RgbColor, TargetTransform, DEFAULT_SNAP_ANGLE,
};
use transform_gizmo::math::fx::{FX_ONE, FX_PI};
use transform_gizmo::math::geom::Rect;
use transform_gizmo::math::vec::{q_identity, QuatFx, Vec2Fx, Vec3Fx};
use transform_gizmo::subgizmo::common::{
    draw_arrow, draw_plane, gizmo_color, gizmo_normal, inner_circle_radius, outer_circle_radius,
    pick_arrow, pick_circle, pick_plane, ArrowheadStyle, DrawPrimitive, TransformKind,
};
use transform_gizmo::subgizmo::rotation::{RotationState, RotationSubGizmo};
use transform_gizmo::subgizmo::scale::{ScaleState, ScaleSubGizmo};
use transform_gizmo::{select_active, Ray};

fn v3(x: i64, y: i64, z: i64) -> Vec3Fx {
    Vec3Fx { x, y, z }
}

fn viewport_800_600() -> Rect {
    Rect {
        min_x: 0,
        min_y: 0,
        max_x: 800 * FX_ONE,
        max_y: 600 * FX_ONE,
    }
}

fn base_config(modes: GizmoModeSet) -> GizmoConfig {
    let mut config = GizmoConfig::default();
    config.viewport = viewport_800_600();
    config.modes = modes;
    config
}

fn prepared_with_identity_target(modes: GizmoModeSet) -> PreparedGizmoConfig {
    let mut prepared = PreparedGizmoConfig::from_config(base_config(modes));
    let targets = vec![TargetTransform {
        scale: v3(FX_ONE, FX_ONE, FX_ONE),
        rotation: q_identity(),
        translation: v3(0, 0, 0),
    }];
    prepared.update_for_targets(&targets);
    prepared
}

fn screen_point(x: f64, y: f64) -> Vec2Fx {
    Vec2Fx {
        x: (x * 65536.0) as i64,
        y: (y * 65536.0) as i64,
    }
}

#[test]
fn prepared_config_derives_the_camera_quantities() {
    let prepared = prepared_with_identity_target(GizmoModeSet::only(GizmoMode::Rotate));
    // view_projection[3][3] / projection[0][0] / width * 2 for the identity camera
    assert_eq!(prepared.scale_factor, 162);
    // scale_factor * (stroke / 2 + 5)
    assert_eq!(prepared.focus_distance, 1134);
    assert!(prepared.left_handed);
    assert_eq!(prepared.translation, v3(0, 0, 0));
    assert_eq!(prepared.scale, v3(FX_ONE, FX_ONE, FX_ONE));
    // the camera sits on the near plane straight before the gizmo
    assert_eq!(prepared.eye_to_model_dir, v3(0, 0, -FX_ONE));
}

#[test]
fn scale_factor_does_not_depend_on_the_targets() {
    let config = base_config(GizmoModeSet::only(GizmoMode::Translate));
    let mut near = PreparedGizmoConfig::from_config(config);
    let mut far = PreparedGizmoConfig::from_config(config);
    near.update_for_targets(&vec![TargetTransform {
        scale: v3(FX_ONE, FX_ONE, FX_ONE),
        rotation: q_identity(),
        translation: v3(0, 0, -2 * FX_ONE),
    }]);
    far.update_for_targets(&vec![TargetTransform {
        scale: v3(FX_ONE, FX_ONE, FX_ONE),
        rotation: q_identity(),
        translation: v3(0, 0, -90 * FX_ONE),
    }]);
    assert_eq!(near.scale_factor, far.scale_factor);
    assert_eq!(near.focus_distance, far.focus_distance);
}

#[test]
fn averaging_runs_over_all_targets_but_rotation_takes_the_last() {
    let config = base_config(GizmoModeSet::only(GizmoMode::Rotate));
    let mut prepared = PreparedGizmoConfig::from_config(config);
    let qa = QuatFx {
        x: FX_ONE,
        y: 0,
        z: 0,
        w: 0,
    };
    prepared.update_for_targets(&vec![
        TargetTransform {
            scale: v3(FX_ONE, FX_ONE, FX_ONE),
            rotation: q_identity(),
            translation: v3(2 * FX_ONE, 0, 0),
        },
        TargetTransform {
            scale: v3(3 * FX_ONE, FX_ONE, FX_ONE),
            rotation: qa,
            translation: v3(4 * FX_ONE, 2 * FX_ONE, 0),
        },
    ]);
    assert_eq!(prepared.translation, v3(3 * FX_ONE, FX_ONE, 0));
    assert_eq!(prepared.scale, v3(2 * FX_ONE, FX_ONE, FX_ONE));
    assert_eq!(prepared.rotation, qa);
}

#[test]
fn x_axis_arrow_is_picked_on_axis_and_missed_off_axis() {
    let prepared = prepared_with_identity_target(GizmoModeSet::only(GizmoMode::Scale));
    // a ray fired from far along +x straight at the origin
    let on_axis = Ray {
        origin: v3(100 * FX_ONE, 0, 0),
        direction: v3(-FX_ONE, 0, 0),
    };
    let hit = pick_arrow(&prepared, on_axis, GizmoDirection::X);
    assert!(hit.picked);
    assert!(hit.visibility > 0);
    // the same ray shifted sideways beyond the focus distance
    let off_axis = Ray {
        origin: v3(100 * FX_ONE, 3277, 0),
        direction: v3(-FX_ONE, 0, 0),
    };
    let miss = pick_arrow(&prepared, off_axis, GizmoDirection::X);
    assert!(!miss.picked);
}

#[test]
fn view_circle_pick_distinguishes_disk_and_ring() {
    let prepared = prepared_with_identity_target(GizmoModeSet::only(GizmoMode::Rotate));
    let center_ray = Ray {
        origin: v3(0, 0, 5 * FX_ONE),
        direction: v3(0, 0, -FX_ONE),
    };
    let radius = 2 * FX_ONE;
    let disk = pick_circle(&prepared, center_ray, radius, true);
    assert!(disk.picked);
    let ring = pick_circle(&prepared, center_ray, radius, false);
    assert!(!ring.picked);
}

#[test]
fn rotation_drag_accumulates_ninety_degrees() {
    let prepared = prepared_with_identity_target(GizmoModeSet::only(GizmoMode::Rotate));
    let mut sub = RotationSubGizmo {
        config: prepared,
        direction: GizmoDirection::Z,
        active: false,
        focused: false,
        opacity: FX_ONE,
        state: RotationState {
            start_axis_angle: 0,
            start_rotation_angle: 0,
            last_rotation_angle: 0,
            current_delta: 0,
        },
    };
    let deg10 = 10.0_f64.to_radians();
    let deg100 = 100.0_f64.to_radians();
    let p1 = screen_point(400.0 + 200.0 * deg10.cos(), 300.0 + 200.0 * deg10.sin());
    let p2 = screen_point(400.0 + 200.0 * deg100.cos(), 300.0 + 200.0 * deg100.sin());
    // the pick lands on the z rotation ring and records the start angles
    let pick_ray = Ray {
        origin: v3(0, 0, 5 * FX_ONE),
        direction: v3(0, 0, -FX_ONE),
    };
    sub.pick(pick_ray, Some(p1));
    sub.active = true;
    let res = sub.update(Some(p2)).expect("pointer angle is available");
    assert!(matches!(res.mode, GizmoMode::Rotate));
    // ninety degrees, within the arctangent approximation's tolerance
    let want = FX_PI / 2;
    let got = sub.state.current_delta;
    assert!(
        (got - want).abs() < 2500,
        "accumulated {got}, wanted about {want}"
    );
}

#[test]
fn rotation_drag_without_pointer_changes_nothing() {
    let prepared = prepared_with_identity_target(GizmoModeSet::only(GizmoMode::Rotate));
    let mut sub = RotationSubGizmo {
        config: prepared,
        direction: GizmoDirection::Z,
        active: true,
        focused: true,
        opacity: FX_ONE,
        state: RotationState {
            start_axis_angle: 11,
            start_rotation_angle: 22,
            last_rotation_angle: 33,
            current_delta: 44,
        },
    };
    assert!(sub.update(None).is_none());
    assert_eq!(sub.state.current_delta, 44);
}

#[test]
fn scale_drag_snaps_the_ratio() {
    let mut config = base_config(GizmoModeSet::only(GizmoMode::Scale));
    config.snapping = true;
    config.snap_scale = 6554; // one tenth
    let mut prepared = PreparedGizmoConfig::from_config(config);
    prepared.update_for_targets(&vec![TargetTransform {
        scale: v3(FX_ONE, FX_ONE, FX_ONE),
        rotation: q_identity(),
        translation: v3(0, 0, 0),
    }]);
    let mut sub = ScaleSubGizmo {
        config: prepared,
        direction: GizmoDirection::X,
        transform_kind: TransformKind::Axis,
        active: false,
        focused: false,
        opacity: 0,
        state: ScaleState {
            start_scale: v3(FX_ONE, FX_ONE, FX_ONE),
            start_delta: 0,
        },
    };
    let ray = Ray {
        origin: v3(100 * FX_ONE, 0, 0),
        direction: v3(-FX_ONE, 0, 0),
    };
    // start the drag 100 pixels from the gizmo's screen position
    sub.pick(ray, Some(screen_point(500.0, 300.0)));
    sub.active = true;
    assert_eq!(sub.state.start_delta, 100 * FX_ONE);
    // 123 pixels gives a raw ratio of 1.23, which must snap to 1.2
    let res = sub
        .update(Some(screen_point(523.0, 300.0)))
        .expect("pointer distance is available");
    assert_eq!(res.value.x, 12 * 6554);
    assert_eq!(res.value.y, FX_ONE);
    assert_eq!(res.value.z, FX_ONE);
    assert_eq!(res.scale.x, 12 * 6554);
    assert!(matches!(res.mode, GizmoMode::Scale));
}

#[test]
fn scale_never_collapses_through_the_origin() {
    let prepared = prepared_with_identity_target(GizmoModeSet::only(GizmoMode::Scale));
    let mut sub = ScaleSubGizmo {
        config: prepared,
        direction: GizmoDirection::X,
        transform_kind: TransformKind::Axis,
        active: false,
        focused: false,
        opacity: 0,
        state: ScaleState {
            start_scale: v3(FX_ONE, FX_ONE, FX_ONE),
            start_delta: 0,
        },
    };
    let ray = Ray {
        origin: v3(100 * FX_ONE, 0, 0),
        direction: v3(-FX_ONE, 0, 0),
    };
    sub.pick(ray, Some(screen_point(500.0, 300.0)));
    sub.active = true;
    // dragging all the way into the gizmo center: the raw ratio is zero
    let res = sub
        .update(Some(screen_point(400.0, 300.0)))
        .expect("pointer distance is available");
    assert!(res.value.x > 0);
    assert!(res.scale.x > 0);
    assert!(res.scale.y > 0);
    assert!(res.scale.z > 0);
}

#[test]
fn gizmo_colors_follow_focus_and_highlight() {
    let prepared = prepared_with_identity_target(GizmoModeSet::only(GizmoMode::Rotate));
    let idle = gizmo_color(&prepared, false, GizmoDirection::X);
    assert_eq!(idle.rgb, RgbColor { r: 255, g: 50, b: 0 });
    assert_eq!(idle.alpha, 32768);
    let focused = gizmo_color(&prepared, true, GizmoDirection::X);
    assert_eq!(focused.alpha, 58982);
    let mut with_highlight = prepared;
    with_highlight.config.visuals.highlight_color = Some(RgbColor { r: 1, g: 2, b: 3 });
    let hi = gizmo_color(&with_highlight, true, GizmoDirection::Z);
    assert_eq!(hi.rgb, RgbColor { r: 1, g: 2, b: 3 });
    let not_hi = gizmo_color(&with_highlight, false, GizmoDirection::Z);
    assert_eq!(not_hi.rgb, RgbColor { r: 0, g: 50, b: 255 });
}

#[test]
fn arrows_draw_a_shaft_and_a_head_until_they_fade_out() {
    let prepared = prepared_with_identity_target(GizmoModeSet::only(GizmoMode::Scale));
    let drawn = draw_arrow(&prepared, FX_ONE, false, GizmoDirection::X, ArrowheadStyle::Cone);
    assert_eq!(drawn.primitives.len(), 2);
    assert!(matches!(
        drawn.primitives[0],
        DrawPrimitive::LineSegment { .. }
    ));
    assert!(matches!(drawn.primitives[1], DrawPrimitive::Arrow { .. }));
    let faded = draw_arrow(&prepared, 3, false, GizmoDirection::X, ArrowheadStyle::Cone);
    assert!(faded.primitives.is_empty());
}

#[test]
fn active_rotation_draws_wedge_circle_and_snap_ticks() {
    let mut config = base_config(GizmoModeSet::only(GizmoMode::Rotate));
    config.snapping = true;
    config.snap_angle = DEFAULT_SNAP_ANGLE;
    let mut prepared = PreparedGizmoConfig::from_config(config);
    prepared.update_for_targets(&vec![]);
    let sub = RotationSubGizmo {
        config: prepared,
        direction: GizmoDirection::Z,
        active: true,
        focused: true,
        opacity: FX_ONE,
        state: RotationState {
            start_axis_angle: 0,
            start_rotation_angle: 0,
            last_rotation_angle: 0,
            current_delta: 30000,
        },
    };
    let drawn = sub.draw();
    // a wedge, the full circle, and one tick per snap increment plus one
    let ticks = (2 * FX_PI) / DEFAULT_SNAP_ANGLE + 1;
    assert_eq!(drawn.primitives.len() as i64, 2 + ticks);
    assert!(matches!(
        drawn.primitives[0],
        DrawPrimitive::Polyline3 { .. }
    ));
    assert!(matches!(drawn.primitives[1], DrawPrimitive::Circle { .. }));
    let idle = RotationSubGizmo { active: false, ..sub };
    let arc = idle.draw();
    assert_eq!(arc.primitives.len(), 1);
    assert!(matches!(arc.primitives[0], DrawPrimitive::Arc { .. }));
}

#[test]
fn arbitration_picks_the_nearest_handle_deterministically() {
    let picks: Vec<Option<i64>> = vec![None, Some(30), Some(10), Some(10), None];
    assert_eq!(select_active(&picks), Some(2));
    let no_picks: Vec<Option<i64>> = vec![None, None];
    assert_eq!(select_active(&no_picks), None);
}

#[test]
fn local_space_follows_orientation_or_scale_mode() {
    let mut config = base_config(GizmoModeSet::only(GizmoMode::Rotate));
    assert!(!config.local_space());
    config.orientation = GizmoOrientation::Local;
    assert!(config.local_space());
    config.orientation = GizmoOrientation::Global;
    config.modes = config.modes.with(GizmoMode::Scale);
    assert!(config.local_space());
}

#[test]
fn gizmo_normals_rotate_with_the_local_frame() {
    let mut config = base_config(GizmoModeSet::only(GizmoMode::Rotate));
    config.orientation = GizmoOrientation::Local;
    let mut prepared = PreparedGizmoConfig::from_config(config);
    // a quarter turn about z maps x to y
    let half = std::f64::consts::FRAC_PI_4;
    let q = QuatFx {
        x: 0,
        y: 0,
        z: (half.sin() * 65536.0) as i64,
        w: (half.cos() * 65536.0) as i64,
    };
    prepared.update_for_targets(&vec![TargetTransform {
        scale: v3(FX_ONE, FX_ONE, FX_ONE),
        rotation: q,
        translation: v3(0, 0, 0),
    }]);
    let n = gizmo_normal(&prepared, GizmoDirection::X);
    assert!(n.x.abs() < 800, "x component {}", n.x);
    assert!((n.y - FX_ONE).abs() < 800, "y component {}", n.y);
    assert_eq!(n.z, 0);
}

#[test]
fn circle_radii_scale_with_the_configuration() {
    let prepared = prepared_with_identity_target(GizmoModeSet::only(GizmoMode::Rotate));
    // scale_factor 162 with the stock 75 pixel gizmo and 4 pixel stroke
    assert_eq!(inner_circle_radius(&prepared), 2429);
    assert_eq!(outer_circle_radius(&prepared), 13608);
}

#[test]
fn z_plane_patch_is_picked_inside_and_missed_outside() {
    let prepared = prepared_with_identity_target(GizmoModeSet::only(GizmoMode::Translate));
    // the z plane patch sits diagonally off the origin in the xy plane
    let through_center = Ray {
        origin: v3(6075, 6075, 5 * FX_ONE),
        direction: v3(0, 0, -FX_ONE),
    };
    let hit = pick_plane(&prepared, through_center, GizmoDirection::Z);
    assert!(hit.picked);
    assert!(hit.visibility > 0);
    let outside = Ray {
        origin: v3(6075 + 4000, 6075, 5 * FX_ONE),
        direction: v3(0, 0, -FX_ONE),
    };
    assert!(!pick_plane(&prepared, outside, GizmoDirection::Z).picked);
    // a ray inside the plane itself reports no hit at all
    let parallel = Ray {
        origin: v3(0, 0, 0),
        direction: v3(FX_ONE, 0, 0),
    };
    assert!(!pick_plane(&prepared, parallel, GizmoDirection::Z).picked);
}

#[test]
fn plane_patches_draw_one_quadrilateral() {
    let prepared = prepared_with_identity_target(GizmoModeSet::only(GizmoMode::Translate));
    let drawn = draw_plane(&prepared, FX_ONE, false, GizmoDirection::Z);
    assert_eq!(drawn.primitives.len(), 1);
    assert!(matches!(drawn.primitives[0], DrawPrimitive::Polygon4 { .. }));
    let faded = draw_plane(&prepared, 2, false, GizmoDirection::Z);
    assert!(faded.primitives.is_empty());
}
