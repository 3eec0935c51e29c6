use vstd::prelude::*;

verus! {

use crate::math::fx::{Fx, FX_ONE, fx_add, fx_sub, fx_mul, fx_div, fx_max, fx_clamp, fx_mul_up, fxc, fx_mul_s, fx_div_s, fx_clamp_s, fx_mul_up_s, round_to_interval, round_to_interval_spec, lemma_fx_mul_offset_above_neg_one};
use crate::math::vec::{Vec2Fx, Vec3Fx, v3_add, v3_add_s, v3_normalize_or_zero, v3_normalize_or_zero_s, v3_zero_s, v2_dist, v2_dist_s};
use crate::math::geom::{world_to_screen, world_to_screen_s};
use crate::config::{PreparedGizmoConfig, GizmoDirection, GizmoMode};
use crate::subgizmo::common::{pick_arrow, pick_plane, pick_plane_s, plane_bitangent, plane_bitangent_s, plane_tangent, plane_tangent_s, gizmo_local_normal, gizmo_local_normal_s, draw_arrow, draw_plane, TransformKind, ArrowheadStyle, GizmoDrawData};
use crate::{Ray, GizmoResult};

/// The smallest ratio a scale drag can produce (about 1e-4): keeps a drag
/// through the gizmo origin from collapsing or inverting the scale.
pub const SCALE_RATIO_MIN: i64 = 7;

/// The per-drag state of a scale handle.
#[derive(Debug, Clone, Copy, PartialEq, Eq, Structural)]
pub struct ScaleState {
    /// The targets' scale when the drag started.
    pub start_scale: Vec3Fx,
    /// Screen distance from the gizmo to the pointer when the drag
    /// started.
    pub start_delta: Fx,
}

/// One scale handle: the shared working configuration, its axis or plane,
/// its focus bookkeeping and its drag state.
#[derive(Debug, Clone, Copy)]
pub struct ScaleSubGizmo {
    pub config: PreparedGizmoConfig,
    pub direction: GizmoDirection,
    pub transform_kind: TransformKind,
    pub active: bool,
    pub focused: bool,
    pub opacity: Fx,
    pub state: ScaleState,
}

/// Screen distance between the pointer and the gizmo's projected origin,
/// as a mathematical function: none without a pointer or a projectable
/// origin.
pub open spec fn distance_from_origin_2d_s(c: PreparedGizmoConfig, pointer: Option<Vec2Fx>)
    -> Option<Fx> {
    match pointer {
        Option::None => Option::None,
        Option::Some(cursor) => match world_to_screen_s(c.config.viewport, c.mvp, v3_zero_s()) {
            Option::None => Option::None,
            Option::Some(gizmo_pos) => Option::Some(v2_dist_s(cursor, gizmo_pos)),
        },
    }
}

pub fn distance_from_origin_2d(c: &PreparedGizmoConfig, pointer: Option<Vec2Fx>) -> (r: Option<Fx>)
    ensures
        r == distance_from_origin_2d_s(*c, pointer),
        r is Some ==> r->0 >= 0,
{
    match pointer {
        Option::None => Option::None,
        Option::Some(cursor) => match world_to_screen(
            &c.config.viewport,
            &c.mvp,
            crate::math::vec::v3_zero(),
        ) {
            Option::None => Option::None,
            Option::Some(gizmo_pos) => Option::Some(v2_dist(cursor, gizmo_pos)),
        },
    }
}

/// The drag direction of a scale handle: the handle's own axis, or the
/// normalized sum of the two in-plane tangents for a plane handle, with
/// components clamped into the unit interval so the ratio offset keeps its
/// sign.
pub open spec fn scale_direction_s(
    c: PreparedGizmoConfig,
    direction: GizmoDirection,
    kind: TransformKind,
) -> Vec3Fx {
    let raw = if kind == TransformKind::Plane {
        v3_normalize_or_zero_s(
            v3_add_s(plane_bitangent_s(direction), plane_tangent_s(direction)),
        )
    } else {
        gizmo_local_normal_s(c, direction)
    };
    Vec3Fx {
        x: fx_clamp_s(raw.x as int, 0, FX_ONE as int) as i64,
        y: fx_clamp_s(raw.y as int, 0, FX_ONE as int) as i64,
        z: fx_clamp_s(raw.z as int, 0, FX_ONE as int) as i64,
    }
}

fn scale_direction(c: &PreparedGizmoConfig, direction: GizmoDirection, kind: TransformKind) -> (r:
    Vec3Fx)
    ensures
        r == scale_direction_s(*c, direction, kind),
        0 <= r.x <= FX_ONE,
        0 <= r.y <= FX_ONE,
        0 <= r.z <= FX_ONE,
{
    let raw = if matches!(kind, TransformKind::Plane) {
        v3_normalize_or_zero(v3_add(plane_bitangent(direction), plane_tangent(direction)))
    } else {
        gizmo_local_normal(c, direction)
    };
    Vec3Fx {
        x: fx_clamp(raw.x, 0, FX_ONE),
        y: fx_clamp(raw.y, 0, FX_ONE),
        z: fx_clamp(raw.z, 0, FX_ONE),
    }
}

/// One frame of an active scale drag, as a mathematical function: the
/// pointer's screen distance over the start distance gives the raw ratio,
/// snapped when snapping is on, clamped to the minimum ratio, turned into
/// an offset from one along the drag direction, and multiplied onto the
/// start scale. A vanished pointer or a degenerate start distance produces
/// nothing.
pub open spec fn scale_update_s(
    c: PreparedGizmoConfig,
    direction: GizmoDirection,
    kind: TransformKind,
    st: ScaleState,
    pointer: Option<Vec2Fx>,
) -> Option<GizmoResult> {
    match distance_from_origin_2d_s(c, pointer) {
        Option::None => Option::None,
        Option::Some(d) => {
            if st.start_delta == 0 {
                Option::None
            } else {
                let ratio = fx_div_s(d as int, st.start_delta as int);
                let snapped = if c.config.snapping {
                    round_to_interval_spec(ratio as int, c.config.snap_scale as int)
                } else {
                    ratio as int
                };
                let clamped = if snapped >= SCALE_RATIO_MIN as int {
                    snapped
                } else {
                    SCALE_RATIO_MIN as int
                };
                let delta = fxc(clamped - FX_ONE) as i64;
                let dir = scale_direction_s(c, direction, kind);
                let offset = Vec3Fx {
                    x: fxc(FX_ONE + fx_mul_s(dir.x as int, delta as int)) as i64,
                    y: fxc(FX_ONE + fx_mul_s(dir.y as int, delta as int)) as i64,
                    z: fxc(FX_ONE + fx_mul_s(dir.z as int, delta as int)) as i64,
                };
                Option::Some(
                    GizmoResult {
                        scale: Vec3Fx {
                            x: fx_mul_up_s(st.start_scale.x as int, offset.x as int),
                            y: fx_mul_up_s(st.start_scale.y as int, offset.y as int),
                            z: fx_mul_up_s(st.start_scale.z as int, offset.z as int),
                        },
                        rotation: c.rotation,
                        translation: c.translation,
                        mode: GizmoMode::Scale,
                        value: offset,
                    },
                )
            }
        },
    }
}

impl ScaleSubGizmo {
    /// Evaluates a pick against this scale handle: an axis handle is hit
    /// like an arrow, a plane handle like a plane patch. On any usable
    /// pointer the drag state records the current scale and screen
    /// distance, and the handle's opacity takes the pick's visibility.
    pub fn pick(&mut self, ray: Ray, pointer: Option<Vec2Fx>) -> (r: Option<Fx>)
        ensures
            final(self).config == old(self).config,
            final(self).direction == old(self).direction,
            final(self).transform_kind == old(self).transform_kind,
            final(self).active == old(self).active,
            final(self).focused == old(self).focused,
            distance_from_origin_2d_s(old(self).config, pointer) is None ==> *final(self) == *old(
                self,
            ) && r is None,
            distance_from_origin_2d_s(old(self).config, pointer) matches Option::Some(d) ==> {
                &&& final(self).state == (ScaleState {
                    start_scale: old(self).config.scale,
                    start_delta: d,
                })
                &&& old(self).transform_kind == TransformKind::Plane ==> {
                    let pr = pick_plane_s(old(self).config, ray, old(self).direction);
                    final(self).opacity == pr.visibility && r == (if pr.picked {
                        Option::Some(pr.t)
                    } else {
                        Option::<Fx>::None
                    })
                }
                &&& old(self).transform_kind == TransformKind::Axis ==> {
                    let vis = crate::subgizmo::common::arrow_visibility_s(
                        old(self).config,
                        crate::subgizmo::common::gizmo_normal_s(old(self).config, old(self).direction),
                    );
                    final(self).opacity == vis && (r is Some <==> (vis > 0
                        && crate::math::fx::sqrt_floor(
                        crate::math::geom::seg_min_d2_s(
                            crate::subgizmo::common::arrow_frame_s(
                                old(self).config,
                                ray,
                                old(self).direction,
                            ),
                        ) * (FX_ONE as int),
                    ) <= old(self).config.focus_distance))
                }
            },
    {
        let pick_result = if matches!(self.transform_kind, TransformKind::Axis) {
            pick_arrow(&self.config, ray, self.direction)
        } else {
            pick_plane(&self.config, ray, self.direction)
        };
        match distance_from_origin_2d(&self.config, pointer) {
            Option::None => Option::None,
            Option::Some(start_delta) => {
                self.opacity = pick_result.visibility;
                self.state = ScaleState {
                    start_scale: self.config.scale,
                    start_delta: start_delta,
                };
                if pick_result.picked {
                    Option::Some(pick_result.t)
                } else {
                    Option::None
                }
            },
        }
    }

    /// Advances an active scale drag by one frame. The emitted scale can
    /// never drop to or below zero on an axis whose starting scale was
    /// positive: the ratio is clamped to a positive minimum and the
    /// composition rounds away from zero.
    pub fn update(&mut self, pointer: Option<Vec2Fx>) -> (r: Option<GizmoResult>)
        ensures
            *final(self) == *old(self),
            r == scale_update_s(
                old(self).config,
                old(self).direction,
                old(self).transform_kind,
                old(self).state,
                pointer,
            ),
            r matches Option::Some(res) ==> {
                &&& res.value.x > 0 && res.value.y > 0 && res.value.z > 0
                &&& old(self).state.start_scale.x > 0 ==> res.scale.x > 0
                &&& old(self).state.start_scale.y > 0 ==> res.scale.y > 0
                &&& old(self).state.start_scale.z > 0 ==> res.scale.z > 0
            },
    {
        match distance_from_origin_2d(&self.config, pointer) {
            Option::None => Option::None,
            Option::Some(d) => {
                if self.state.start_delta == 0 {
                    Option::None
                } else {
                    let ratio: i64 = fx_div(d, self.state.start_delta);
                    let snapped: i64 = if self.config.config.snapping {
                        round_to_interval(ratio, self.config.config.snap_scale)
                    } else {
                        ratio
                    };
                    let clamped: i64 = fx_max(snapped, SCALE_RATIO_MIN);
                    let delta: i64 = fx_sub(clamped, FX_ONE);
                    let dir = scale_direction(&self.config, self.direction, self.transform_kind);
                    proof {
                        lemma_fx_mul_offset_above_neg_one(dir.x as int, delta as int);
                        lemma_fx_mul_offset_above_neg_one(dir.y as int, delta as int);
                        lemma_fx_mul_offset_above_neg_one(dir.z as int, delta as int);
                    }
                    let offset = Vec3Fx {
                        x: fx_add(FX_ONE, fx_mul(dir.x, delta)),
                        y: fx_add(FX_ONE, fx_mul(dir.y, delta)),
                        z: fx_add(FX_ONE, fx_mul(dir.z, delta)),
                    };
                    Option::Some(
                        GizmoResult {
                            scale: Vec3Fx {
                                x: fx_mul_up(self.state.start_scale.x, offset.x),
                                y: fx_mul_up(self.state.start_scale.y, offset.y),
                                z: fx_mul_up(self.state.start_scale.z, offset.z),
                            },
                            rotation: self.config.rotation,
                            translation: self.config.translation,
                            mode: GizmoMode::Scale,
                            value: offset,
                        },
                    )
                }
            },
        }
    }

    /// Emits the draw data of this scale handle: an arrow with a squared
    /// head for an axis, a plane patch for a plane.
    pub fn draw(&self) -> (r: GizmoDrawData)
        ensures
            self.transform_kind == TransformKind::Axis ==> r.transform
                == crate::subgizmo::common::handle_transform_s(self.config) && r.color
                == crate::subgizmo::common::gizmo_color_s(self.config, self.focused, self.direction)
                && r.opacity == self.opacity,
            self.transform_kind == TransformKind::Plane ==> r.transform
                == crate::subgizmo::common::handle_transform_s(self.config) && r.color
                == crate::subgizmo::common::gizmo_color_s(self.config, self.focused, self.direction)
                && r.opacity == self.opacity,
    {
        if matches!(self.transform_kind, TransformKind::Axis) {
            draw_arrow(
                &self.config,
                self.opacity,
                self.focused,
                self.direction,
                ArrowheadStyle::Square,
            )
        } else {
            draw_plane(&self.config, self.opacity, self.focused, self.direction)
        }
    }
}

} // verus!
