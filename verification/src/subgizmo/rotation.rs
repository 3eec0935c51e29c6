use vstd::prelude::*;

verus! {

use crate::math::fx::{Fx, FX_ONE, FX_PI, FX_TAU, FX_HALF_PI, fx_add, fx_sub, fx_neg, fx_mul, fx_div, fx_abs, fx_clamp, fxc, fx_mul_s, fx_div_s, fx_clamp_s, abs_i, round_to_interval, round_to_interval_spec, wrap_angle_delta, wrap_angle_delta_spec};
use crate::math::trig::{fx_atan2, fx_atan2_spec};
use crate::math::vec::{Vec2Fx, Vec3Fx, Mat3Fx, Mat4Fx, v3_add, v3_add_s, v3_sub, v3_sub_s, v3_neg, v3_neg_s, v3_scale, v3_scale_s, v3_dot, v3_dot_s, v3_cross, v3_cross_s, v3_normalize_or_zero, v3_normalize_or_zero_s, v3_zero, v3_zero_s, v2_sub, v2_sub_s, q_mul, q_mul_s, q_from_axis_angle, q_from_axis_angle_s, q_rotate, q_rotate_s, m3_mul, m3_mul_s, m3_from_quat, m3_from_quat_s, m3_from_axis_angle, m3_from_axis_angle_s, m4_from_mat3_translation, m4_from_mat3_translation_s};
use crate::math::geom::{ray_to_plane_origin, ray_to_plane_origin_s, rotation_align, rotation_align_s, world_to_screen, world_to_screen_s};
use crate::config::{PreparedGizmoConfig, GizmoDirection, GizmoMode, local_space_s, view_forward_s};
use crate::subgizmo::common::{gizmo_normal, gizmo_normal_s, gizmo_color, gizmo_color_s, GizmoDrawData, DrawPrimitive};
use crate::{Ray, GizmoResult};

/// Start of the dot-product band over which a rotation arc grows from a
/// semicircle to a full circle (0.990).
pub const ARC_FADE_START: i64 = 64881;

/// Width of that band (0.990 to 0.995).
pub const ARC_FADE_RANGE: i64 = 328;

/// The tolerance under which an arc angle snaps to a half turn.
pub const ARC_PI_TOLERANCE: i64 = 655;

/// The tiny angle added to the active wedge so its two edges never
/// coincide exactly.
pub const WEDGE_END_NUDGE: i64 = 1;

/// The per-drag state of a rotation handle, reset at every successful
/// pick and advanced by every update of the same drag.
#[derive(Debug, Clone, Copy, PartialEq, Eq, Structural, Default)]
pub struct RotationState {
    /// Angle of the pointer on the rotation plane at the drag start.
    pub start_axis_angle: Fx,
    /// Screen-space pointer angle at the drag start.
    pub start_rotation_angle: Fx,
    /// Screen-space pointer angle at the previous frame.
    pub last_rotation_angle: Fx,
    /// Accumulated signed rotation of the whole drag.
    pub current_delta: Fx,
}

/// One rotation handle: the shared working configuration, its axis, its
/// focus bookkeeping and its drag state.
#[derive(Debug, Clone, Copy)]
pub struct RotationSubGizmo {
    pub config: PreparedGizmoConfig,
    pub direction: GizmoDirection,
    pub active: bool,
    pub focused: bool,
    pub opacity: Fx,
    pub state: RotationState,
}

/// Radius of a rotation handle's arc; the view-aligned ring is a little
/// larger than the axis rings.
pub open spec fn arc_radius_s(c: PreparedGizmoConfig, direction: GizmoDirection) -> Fx {
    let base = if direction == GizmoDirection::View {
        fxc(fxc(c.config.visuals.gizmo_size + c.config.visuals.stroke_width) + 5 * FX_ONE) as i64
    } else {
        c.config.visuals.gizmo_size
    };
    fx_mul_s(c.scale_factor as int, base as int)
}

pub fn arc_radius(c: &PreparedGizmoConfig, direction: GizmoDirection) -> (r: Fx)
    ensures
        r == arc_radius_s(*c, direction),
{
    let base: i64 = if matches!(direction, GizmoDirection::View) {
        fx_add(fx_add(c.config.visuals.gizmo_size, c.config.visuals.stroke_width), 5 * FX_ONE)
    } else {
        c.config.visuals.gizmo_size
    };
    fx_mul(c.scale_factor, base)
}

/// The tangent reference vector a rotation handle measures angles from.
pub open spec fn tangent_s(c: PreparedGizmoConfig, direction: GizmoDirection) -> Vec3Fx {
    let t = match direction {
        GizmoDirection::X => Vec3Fx { x: 0, y: 0, z: FX_ONE },
        GizmoDirection::Y => Vec3Fx { x: 0, y: 0, z: FX_ONE },
        GizmoDirection::Z => Vec3Fx { x: 0, y: (-FX_ONE) as i64, z: 0 },
        GizmoDirection::View => v3_neg_s(crate::config::view_right_s(c.config)),
    };
    if local_space_s(c.config) && direction != GizmoDirection::View {
        q_rotate_s(c.rotation, t)
    } else {
        t
    }
}

pub fn tangent(c: &PreparedGizmoConfig, direction: GizmoDirection) -> (r: Vec3Fx)
    ensures
        r == tangent_s(*c, direction),
{
    let t = match direction {
        GizmoDirection::X => Vec3Fx { x: 0, y: 0, z: FX_ONE },
        GizmoDirection::Y => Vec3Fx { x: 0, y: 0, z: FX_ONE },
        GizmoDirection::Z => Vec3Fx { x: 0, y: -FX_ONE, z: 0 },
        GizmoDirection::View => v3_neg(c.config.view_right()),
    };
    if c.config.local_space() && !matches!(direction, GizmoDirection::View) {
        q_rotate(c.rotation, t)
    } else {
        t
    }
}

/// Angular half-width of the visible arc: a semicircle that grows into a
/// full circle as the rotation axis turns parallel to the view direction.
pub open spec fn arc_angle_s(c: PreparedGizmoConfig, direction: GizmoDirection) -> Fx {
    let dot = fxc(abs_i(v3_dot_s(gizmo_normal_s(c, direction), view_forward_s(c.config)) as int))
        as i64;
    let t = fx_clamp_s(fx_div_s(fxc(dot - ARC_FADE_START) as int, ARC_FADE_RANGE as int) as int, 0, FX_ONE as int);
    let angle = fxc(fx_mul_s(t, FX_HALF_PI as int) + FX_HALF_PI) as i64;
    if -(ARC_PI_TOLERANCE as int) < angle - FX_PI && angle - FX_PI < ARC_PI_TOLERANCE as int {
        FX_PI
    } else {
        angle
    }
}

pub fn arc_angle(c: &PreparedGizmoConfig, direction: GizmoDirection) -> (r: Fx)
    ensures
        r == arc_angle_s(*c, direction),
{
    let dot: i64 = fx_abs(v3_dot(gizmo_normal(c, direction), c.config.view_forward()));
    let t: i64 = fx_clamp(fx_div(fx_sub(dot, ARC_FADE_START), ARC_FADE_RANGE), 0, FX_ONE);
    let angle: i64 = fx_add(fx_mul(t, FX_HALF_PI), FX_HALF_PI);
    let diff: i64 = fx_sub(angle, FX_PI);
    if -ARC_PI_TOLERANCE < diff && diff < ARC_PI_TOLERANCE {
        FX_PI
    } else {
        angle
    }
}

/// The screen-space pointer angle about the gizmo's projected origin, as a
/// mathematical function: none without a pointer, a projectable origin and
/// a nonzero pointer offset. The sign flips when the rotation axis faces
/// away from the camera.
pub open spec fn rotation_angle_s(c: PreparedGizmoConfig, direction: GizmoDirection, pointer:
    Option<Vec2Fx>) -> Option<Fx> {
    match pointer {
        Option::None => Option::None,
        Option::Some(cursor) => match world_to_screen_s(c.config.viewport, c.mvp, v3_zero_s()) {
            Option::None => Option::None,
            Option::Some(gizmo_pos) => {
                let delta = v2_sub_s(cursor, gizmo_pos);
                if delta.x == 0 && delta.y == 0 {
                    Option::None
                } else {
                    let angle = fx_atan2_spec(delta.y as int, delta.x as int);
                    if v3_dot_s(view_forward_s(c.config), gizmo_normal_s(c, direction)) < 0 {
                        Option::Some(fxc(-angle) as i64)
                    } else {
                        Option::Some(fxc(angle) as i64)
                    }
                }
            },
        },
    }
}

pub fn rotation_angle(c: &PreparedGizmoConfig, direction: GizmoDirection, pointer: Option<Vec2Fx>)
    -> (r: Option<Fx>)
    ensures
        r == rotation_angle_s(*c, direction, pointer),
        r is Some ==> -(FX_PI as int) <= r->0 <= FX_PI as int,
{
    match pointer {
        Option::None => Option::None,
        Option::Some(cursor) => match world_to_screen(&c.config.viewport, &c.mvp, v3_zero()) {
            Option::None => Option::None,
            Option::Some(gizmo_pos) => {
                let delta = v2_sub(cursor, gizmo_pos);
                if delta.x == 0 && delta.y == 0 {
                    Option::None
                } else {
                    let angle: i64 = fx_atan2(delta.y, delta.x);
                    if v3_dot(c.config.view_forward(), gizmo_normal(c, direction)) < 0 {
                        Option::Some(fx_neg(angle))
                    } else {
                        Option::Some(angle)
                    }
                }
            },
        },
    }
}

/// The drag-start state and hit decision of a rotation pick, as a
/// mathematical function. The pointer angle on the rotation plane is
/// measured against the camera-facing tangent for the view ring and
/// against the axis-projected view forward for axis rings; the handle is
/// hit when the ray meets the arc band within the focus distance and
/// inside the visible arc.
pub open spec fn rotation_pick_s(
    c: PreparedGizmoConfig,
    direction: GizmoDirection,
    ray: Ray,
    pointer: Option<Vec2Fx>,
) -> Option<(RotationState, Option<Fx>)> {
    let radius = arc_radius_s(c, direction);
    let origin = c.translation;
    let normal = gizmo_normal_s(c, direction);
    let tan = tangent_s(c, direction);
    match ray_to_plane_origin_s(normal, origin, ray.origin, ray.direction) {
        Option::None => Option::None,
        Option::Some(hit) => {
            let dist_from_gizmo_edge = fxc(abs_i(hit.dist_from_origin - radius)) as i64;
            let hit_pos = v3_add_s(ray.origin, v3_scale_s(ray.direction, hit.t as int));
            let dir_to_origin = v3_normalize_or_zero_s(v3_sub_s(origin, hit_pos));
            let nearest_circle_pos = v3_add_s(
                hit_pos,
                v3_scale_s(dir_to_origin, fxc(hit.dist_from_origin - radius) as int),
            );
            let offset = v3_normalize_or_zero_s(v3_sub_s(nearest_circle_pos, origin));
            let angle = if direction == GizmoDirection::View {
                fx_atan2_spec(
                    v3_dot_s(v3_cross_s(tan, normal), offset) as int,
                    v3_dot_s(tan, offset) as int,
                )
            } else {
                let fwd = if c.left_handed {
                    v3_neg_s(view_forward_s(c.config))
                } else {
                    view_forward_s(c.config)
                };
                fx_atan2_spec(
                    v3_dot_s(v3_cross_s(offset, fwd), normal) as int,
                    v3_dot_s(offset, fwd) as int,
                )
            };
            let ra = match rotation_angle_s(c, direction, pointer) {
                Option::Some(v) => v,
                Option::None => 0,
            };
            let st = RotationState {
                start_axis_angle: fxc(angle) as i64,
                start_rotation_angle: ra,
                last_rotation_angle: ra,
                current_delta: 0,
            };
            let picked = dist_from_gizmo_edge <= c.focus_distance && fxc(abs_i(angle))
                < arc_angle_s(c, direction);
            Option::Some((st, if picked {
                Option::Some(hit.t)
            } else {
                Option::None
            }))
        },
    }
}

impl RotationSubGizmo {
    /// Evaluates a pick against this rotation handle: resets the drag
    /// state to the current pointer angles and reports the hit parameter
    /// exactly when the ray lands on the visible part of the arc band.
    /// A ray parallel to the rotation plane touches nothing.
    #[verifier::rlimit(100)]
    pub fn pick(&mut self, ray: Ray, pointer: Option<Vec2Fx>) -> (r: Option<Fx>)
        ensures
            final(self).config == old(self).config,
            final(self).direction == old(self).direction,
            final(self).active == old(self).active,
            final(self).focused == old(self).focused,
            final(self).opacity == old(self).opacity,
            match rotation_pick_s(old(self).config, old(self).direction, ray, pointer) {
                Option::None => final(self).state == old(self).state && r is None,
                Option::Some(sr) => final(self).state == sr.0 && r == sr.1,
            },
    {
        let radius: i64 = arc_radius(&self.config, self.direction);
        let origin = self.config.translation;
        let normal = gizmo_normal(&self.config, self.direction);
        let tan = tangent(&self.config, self.direction);
        match ray_to_plane_origin(normal, origin, ray.origin, ray.direction) {
            Option::None => Option::None,
            Option::Some(hit) => {
                let dist_from_gizmo_edge: i64 = fx_abs(fx_sub(hit.dist_from_origin, radius));
                let hit_pos = v3_add(ray.origin, v3_scale(ray.direction, hit.t));
                let dir_to_origin = v3_normalize_or_zero(v3_sub(origin, hit_pos));
                let nearest_circle_pos = v3_add(
                    hit_pos,
                    v3_scale(dir_to_origin, fx_sub(hit.dist_from_origin, radius)),
                );
                let offset = v3_normalize_or_zero(v3_sub(nearest_circle_pos, origin));
                let angle: i64 = if matches!(self.direction, GizmoDirection::View) {
                    fx_atan2(v3_dot(v3_cross(tan, normal), offset), v3_dot(tan, offset))
                } else {
                    let fwd = if self.config.left_handed {
                        v3_neg(self.config.config.view_forward())
                    } else {
                        self.config.config.view_forward()
                    };
                    fx_atan2(v3_dot(v3_cross(offset, fwd), normal), v3_dot(offset, fwd))
                };
                let ra: i64 = match rotation_angle(&self.config, self.direction, pointer) {
                    Option::Some(v) => v,
                    Option::None => 0,
                };
                self.state = RotationState {
                    start_axis_angle: angle,
                    start_rotation_angle: ra,
                    last_rotation_angle: ra,
                    current_delta: 0,
                };
                if dist_from_gizmo_edge <= self.config.focus_distance && fx_abs(angle) < arc_angle(
                    &self.config,
                    self.direction,
                ) {
                    Option::Some(hit.t)
                } else {
                    Option::None
                }
            },
        }
    }
}

/// One frame of an active rotation drag, as a mathematical function: the
/// snapped pointer angle, the short-path wrapped change since the previous
/// frame, the accumulated total, and the rotation that composes the
/// incremental turn about the handle's normal onto the previous rotation.
pub open spec fn rotation_update_s(
    c: PreparedGizmoConfig,
    direction: GizmoDirection,
    st: RotationState,
    pointer: Option<Vec2Fx>,
) -> Option<(RotationState, GizmoResult)> {
    match rotation_angle_s(c, direction, pointer) {
        Option::None => Option::None,
        Option::Some(raw) => {
            let snapped = if c.config.snapping {
                fx_clamp_s(
                    fxc(
                        round_to_interval_spec(
                            fxc(raw - st.start_rotation_angle) as int,
                            c.config.snap_angle as int,
                        ) + st.start_rotation_angle,
                    ) as int,
                    -(FX_TAU as int),
                    FX_TAU as int,
                ) as i64
            } else {
                raw
            };
            let delta = wrap_angle_delta_spec(fxc(snapped - st.last_rotation_angle) as int) as i64;
            let new_state = RotationState {
                start_axis_angle: st.start_axis_angle,
                start_rotation_angle: st.start_rotation_angle,
                last_rotation_angle: snapped,
                current_delta: fxc(st.current_delta + delta) as i64,
            };
            let normal = gizmo_normal_s(c, direction);
            let new_rotation = q_mul_s(
                q_from_axis_angle_s(normal, fxc(-delta) as int),
                c.rotation,
            );
            Option::Some(
                (
                    new_state,
                    GizmoResult {
                        scale: c.scale,
                        rotation: new_rotation,
                        translation: c.translation,
                        mode: GizmoMode::Rotate,
                        value: v3_scale_s(normal, new_state.current_delta as int),
                    },
                ),
            )
        },
    }
}

impl RotationSubGizmo {
    /// Advances an active rotation drag by one frame: reads the pointer's
    /// screen angle, snaps it relative to the drag start when snapping is
    /// on, takes the short-path change since the previous frame,
    /// accumulates it, and emits the rotation turned by the negated
    /// incremental angle about the handle's normal. Without a usable
    /// pointer angle nothing changes and nothing is produced.
    pub fn update(&mut self, pointer: Option<Vec2Fx>) -> (r: Option<GizmoResult>)
        ensures
            final(self).config == old(self).config,
            final(self).direction == old(self).direction,
            final(self).active == old(self).active,
            final(self).focused == old(self).focused,
            final(self).opacity == old(self).opacity,
            match rotation_update_s(old(self).config, old(self).direction, old(self).state, pointer) {
                Option::None => final(self).state == old(self).state && r is None,
                Option::Some(sr) => final(self).state == sr.0 && r == Option::Some(sr.1),
            },
    {
        match rotation_angle(&self.config, self.direction, pointer) {
            Option::None => Option::None,
            Option::Some(raw) => {
                let snapped: i64 = if self.config.config.snapping {
                    fx_clamp(
                        fx_add(
                            round_to_interval(
                                fx_sub(raw, self.state.start_rotation_angle),
                                self.config.config.snap_angle,
                            ),
                            self.state.start_rotation_angle,
                        ),
                        -FX_TAU,
                        FX_TAU,
                    )
                } else {
                    raw
                };
                let delta: i64 = wrap_angle_delta(fx_sub(snapped, self.state.last_rotation_angle));
                self.state = RotationState {
                    start_axis_angle: self.state.start_axis_angle,
                    start_rotation_angle: self.state.start_rotation_angle,
                    last_rotation_angle: snapped,
                    current_delta: fx_add(self.state.current_delta, delta),
                };
                let normal = gizmo_normal(&self.config, self.direction);
                let new_rotation = q_mul(
                    q_from_axis_angle(normal, fx_neg(delta)),
                    self.config.rotation,
                );
                Option::Some(
                    GizmoResult {
                        scale: self.config.scale,
                        rotation: new_rotation,
                        translation: self.config.translation,
                        mode: GizmoMode::Rotate,
                        value: v3_scale(normal, self.state.current_delta),
                    },
                )
            },
        }
    }
}

/// Angle unwrapping inside the drag: whenever an update fires, the newly
/// accumulated total is the old total plus the short-path wrapped step
/// from the previous frame's angle to the new one, and as long as the raw
/// step is less than a full turn that step never exceeds half a turn in
/// magnitude, whichever side of the `+-pi` boundary the drag crossed.
pub proof fn lemma_rotation_update_short_path(
    c: PreparedGizmoConfig,
    direction: GizmoDirection,
    st: RotationState,
    pointer: Option<Vec2Fx>,
)
    requires
        rotation_update_s(c, direction, st, pointer) is Some,
    ensures
        ({
            let (ns, _res) = rotation_update_s(c, direction, st, pointer)->0;
            let step = wrap_angle_delta_spec(fxc(ns.last_rotation_angle - st.last_rotation_angle) as int);
            &&& ns.current_delta == fxc(st.current_delta + step)
            &&& abs_i(fxc(ns.last_rotation_angle - st.last_rotation_angle) as int) < FX_TAU as int
                ==> abs_i(step) <= FX_PI as int
        }),
{
    let (ns, _res) = rotation_update_s(c, direction, st, pointer)->0;
    let raw = fxc(ns.last_rotation_angle - st.last_rotation_angle) as int;
    if abs_i(raw) < FX_TAU as int {
        crate::math::fx::lemma_wrap_short_path(raw);
    }
}

/// The local-to-world transform a rotation handle is drawn under: the
/// camera-facing frame for the view ring, and for axis rings the rotation
/// aligning the y axis onto the handle normal, turned about the normal
/// toward the camera, under the gizmo's orientation and translation.
pub open spec fn rotation_matrix_s(c: PreparedGizmoConfig, direction: GizmoDirection) -> Mat4Fx {
    if direction == GizmoDirection::View {
        crate::subgizmo::common::circle_transform_s(c)
    } else {
        let local_normal = crate::subgizmo::common::gizmo_local_normal_s(c, direction);
        let aligned = rotation_align_s(Vec3Fx { x: 0, y: FX_ONE, z: 0 }, local_normal);
        let oriented = if local_space_s(c.config) {
            m3_mul_s(m3_from_quat_s(c.rotation), aligned)
        } else {
            aligned
        };
        let tan = tangent_s(c, direction);
        let normal = gizmo_normal_s(c, direction);
        let fwd = if c.left_handed {
            v3_neg_s(view_forward_s(c.config))
        } else {
            view_forward_s(c.config)
        };
        let angle = fx_atan2_spec(
            v3_dot_s(v3_cross_s(tan, fwd), normal) as int,
            v3_dot_s(tan, fwd) as int,
        );
        let turned = m3_mul_s(m3_from_axis_angle_s(normal, angle), oriented);
        m4_from_mat3_translation_s(turned, c.translation)
    }
}

pub fn rotation_matrix(c: &PreparedGizmoConfig, direction: GizmoDirection) -> (r: Mat4Fx)
    ensures
        r == rotation_matrix_s(*c, direction),
{
    if matches!(direction, GizmoDirection::View) {
        let fwd = c.config.view_forward();
        let right = c.config.view_right();
        let up = c.config.view_up();
        let rot = Mat3Fx {
            r0: Vec3Fx { x: up.x, y: fx_neg(fwd.x), z: fx_neg(right.x) },
            r1: Vec3Fx { x: up.y, y: fx_neg(fwd.y), z: fx_neg(right.y) },
            r2: Vec3Fx { x: up.z, y: fx_neg(fwd.z), z: fx_neg(right.z) },
        };
        m4_from_mat3_translation(&rot, c.translation)
    } else {
        let local_normal = crate::subgizmo::common::gizmo_local_normal(c, direction);
        let aligned = rotation_align(Vec3Fx { x: 0, y: FX_ONE, z: 0 }, local_normal);
        let oriented = if c.config.local_space() {
            let rotm = m3_from_quat(c.rotation);
            m3_mul(&rotm, &aligned)
        } else {
            aligned
        };
        let tan = tangent(c, direction);
        let normal = gizmo_normal(c, direction);
        let fwd = if c.left_handed {
            v3_neg(c.config.view_forward())
        } else {
            c.config.view_forward()
        };
        let angle: i64 = fx_atan2(v3_dot(v3_cross(tan, fwd), normal), v3_dot(tan, fwd));
        let axis_turn = m3_from_axis_angle(normal, angle);
        let turned = m3_mul(&axis_turn, &oriented);
        m4_from_mat3_translation(&turned, c.translation)
    }
}


/// The angle of the i-th snap tick: the wedge end angle advanced by the
/// snap increment i times.
pub open spec fn tick_angle_s(end: Fx, snap: Fx, i: int) -> Fx
    decreases i,
{
    if i <= 0 {
        end
    } else {
        fxc(tick_angle_s(end, snap, i - 1) + snap) as i64
    }
}

/// One snap tick mark: a short radial segment just outside the arc.
pub open spec fn tick_prim_s(radius: Fx, stroke: Fx, angle: Fx) -> DrawPrimitive {
    let pos = Vec3Fx {
        x: crate::math::trig::fx_cos_spec(angle as int) as i64,
        y: 0,
        z: crate::math::trig::fx_sin_spec(angle as int) as i64,
    };
    DrawPrimitive::LineSegment {
        start: v3_scale_s(pos, fx_mul_s(radius as int, 72090) as int),
        end: v3_scale_s(pos, fx_mul_s(radius as int, 78643) as int),
        width: fx_mul_s(stroke as int, 32768),
    }
}

/// How many snap ticks an active rotation handle draws: one per snap
/// increment around the full turn, plus one, and none when snapping is off
/// or the increment is degenerate.
pub open spec fn tick_count_s(c: PreparedGizmoConfig) -> int {
    if c.config.snapping && c.config.snap_angle > 0 {
        (FX_TAU as int) / (c.config.snap_angle as int) + 1
    } else {
        0
    }
}

/// The idle arc of a rotation handle.
pub open spec fn rotation_idle_prims_s(c: PreparedGizmoConfig, direction: GizmoDirection) -> Seq<
    DrawPrimitive,
> {
    let radius = arc_radius_s(c, direction);
    let angle = arc_angle_s(c, direction);
    seq![
        DrawPrimitive::Arc {
            radius: radius,
            start_angle: fxc(FX_HALF_PI - angle) as i64,
            end_angle: fxc(FX_HALF_PI + angle) as i64,
            width: c.config.visuals.stroke_width,
        },
    ]
}

/// The end angle of the active wedge: the drag's start angle plus the
/// accumulated delta, nudged so the wedge edges never coincide.
pub open spec fn wedge_angles_s(st: RotationState) -> (Fx, Fx) {
    let start_angle = fxc(st.start_axis_angle + FX_HALF_PI) as i64;
    (start_angle, fxc(fxc(start_angle + st.current_delta) + WEDGE_END_NUDGE) as i64)
}

/// The active wedge of a rotation handle: the two edge segments through
/// the center, and the full circle.
pub open spec fn rotation_active_head_s(
    c: PreparedGizmoConfig,
    direction: GizmoDirection,
    st: RotationState,
) -> Seq<DrawPrimitive> {
    let radius = arc_radius_s(c, direction);
    let (start_angle, end_angle) = wedge_angles_s(st);
    let a = Vec3Fx {
        x: fx_mul_s(crate::math::trig::fx_cos_spec(start_angle as int), radius as int),
        y: 0,
        z: fx_mul_s(crate::math::trig::fx_sin_spec(start_angle as int), radius as int),
    };
    let e = Vec3Fx {
        x: fx_mul_s(crate::math::trig::fx_cos_spec(end_angle as int), radius as int),
        y: 0,
        z: fx_mul_s(crate::math::trig::fx_sin_spec(end_angle as int), radius as int),
    };
    seq![
        DrawPrimitive::Polyline3 {
            a: a,
            b: v3_zero_s(),
            c: e,
            width: c.config.visuals.stroke_width,
        },
        DrawPrimitive::Circle { radius: radius, width: c.config.visuals.stroke_width },
    ]
}

/// Appends the snap tick marks to an active rotation handle's primitive
/// list, one per snap increment around the full turn plus one.
#[verifier::rlimit(100)]
fn push_ticks(
    c: &PreparedGizmoConfig,
    primitives: &mut Vec<DrawPrimitive>,
    radius: Fx,
    stroke: Fx,
    end_angle: Fx,
)
    requires
        c.config.snapping,
        c.config.snap_angle > 0,
    ensures
        final(primitives)@.len() == old(primitives)@.len() + tick_count_s(*c),
        final(primitives)@.subrange(0, old(primitives)@.len() as int) =~= old(primitives)@,
        forall|j: int|
            0 <= j < tick_count_s(*c) ==> final(primitives)@[old(primitives)@.len() + j]
                == tick_prim_s(radius, stroke, tick_angle_s(end_angle, c.config.snap_angle, j)),
{
    let snap: i64 = c.config.snap_angle;
    let count: u64 = (FX_TAU as u64) / (snap as u64) + 1;
    let radius_a: i64 = fx_mul(radius, 72090);
    let radius_b: i64 = fx_mul(radius, 78643);
    let half_stroke: i64 = fx_mul(stroke, 32768);
    let base: usize = primitives.len();
    let mut i: u64 = 0;
    let mut tick_angle: i64 = end_angle;
    while i < count
        invariant
            count == (FX_TAU as int) / (snap as int) + 1,
            snap == c.config.snap_angle,
            snap > 0,
            c.config.snapping,
            radius_a == fx_mul_s(radius as int, 72090),
            radius_b == fx_mul_s(radius as int, 78643),
            half_stroke == fx_mul_s(stroke as int, 32768),
            i <= count,
            base == old(primitives)@.len(),
            tick_angle == tick_angle_s(end_angle, snap, i as int),
            primitives@.len() == base + i,
            primitives@.subrange(0, base as int) =~= old(primitives)@,
            forall|j: int|
                0 <= j < i ==> primitives@[base + j] == tick_prim_s(
                    radius,
                    stroke,
                    tick_angle_s(end_angle, snap, j),
                ),
        decreases count - i,
    {
        let pos = Vec3Fx {
            x: crate::math::trig::fx_cos(tick_angle),
            y: 0,
            z: crate::math::trig::fx_sin(tick_angle),
        };
        primitives.push(
            DrawPrimitive::LineSegment {
                start: v3_scale(pos, radius_a),
                end: v3_scale(pos, radius_b),
                width: half_stroke,
            },
        );
        tick_angle = fx_add(tick_angle, snap);
        i = i + 1;
    }
}

impl RotationSubGizmo {
    /// Emits the draw data of this rotation handle: the view-dependent arc
    /// while idle; while active, a wedge from the drag's start angle to
    /// its current angle, the full circle, and one tick mark per snap
    /// increment when snapping is on.
    #[verifier::rlimit(100)]
    pub fn draw(&self) -> (r: GizmoDrawData)
        ensures
            r.transform == rotation_matrix_s(self.config, self.direction),
            r.color == gizmo_color_s(self.config, self.focused, self.direction),
            r.opacity == self.opacity,
            !self.active ==> r.primitives@ =~= rotation_idle_prims_s(self.config, self.direction),
            self.active ==> {
                &&& r.primitives@.len() == 2 + tick_count_s(self.config)
                &&& r.primitives@.subrange(0, 2) =~= rotation_active_head_s(
                    self.config,
                    self.direction,
                    self.state,
                )
                &&& forall|j: int|
                    0 <= j < tick_count_s(self.config) ==> r.primitives@[2 + j] == tick_prim_s(
                        arc_radius_s(self.config, self.direction),
                        self.config.config.visuals.stroke_width,
                        tick_angle_s(
                            wedge_angles_s(self.state).1,
                            self.config.config.snap_angle,
                            j,
                        ),
                    )
            },
    {
        let transform = rotation_matrix(&self.config, self.direction);
        let color = gizmo_color(&self.config, self.focused, self.direction);
        let radius: i64 = arc_radius(&self.config, self.direction);
        let stroke: i64 = self.config.config.visuals.stroke_width;
        let mut primitives: Vec<DrawPrimitive> = Vec::new();
        if !self.active {
            let angle: i64 = arc_angle(&self.config, self.direction);
            primitives.push(
                DrawPrimitive::Arc {
                    radius: radius,
                    start_angle: fx_sub(FX_HALF_PI, angle),
                    end_angle: fx_add(FX_HALF_PI, angle),
                    width: stroke,
                },
            );
        } else {
            let start_angle: i64 = fx_add(self.state.start_axis_angle, FX_HALF_PI);
            let end_angle: i64 = fx_add(
                fx_add(start_angle, self.state.current_delta),
                WEDGE_END_NUDGE,
            );
            let a = Vec3Fx {
                x: fx_mul(crate::math::trig::fx_cos(start_angle), radius),
                y: 0,
                z: fx_mul(crate::math::trig::fx_sin(start_angle), radius),
            };
            let e = Vec3Fx {
                x: fx_mul(crate::math::trig::fx_cos(end_angle), radius),
                y: 0,
                z: fx_mul(crate::math::trig::fx_sin(end_angle), radius),
            };
            primitives.push(
                DrawPrimitive::Polyline3 { a: a, b: v3_zero(), c: e, width: stroke },
            );
            primitives.push(DrawPrimitive::Circle { radius: radius, width: stroke });
            if self.config.config.snapping && self.config.config.snap_angle > 0 {
                push_ticks(&self.config, &mut primitives, radius, stroke, end_angle);
            }
        }
        GizmoDrawData {
            transform: transform,
            color: color,
            opacity: self.opacity,
            primitives: primitives,
        }
    }
}

} // verus!
