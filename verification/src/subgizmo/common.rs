use vstd::prelude::*;

verus! {

use crate::math::fx::{Fx, FX_ONE, fx_add, fx_sub, fx_neg, fx_mul, fx_div, fx_abs, fx_min, fx_sqrt, fxc, fx_mul_s, fx_div_s, abs_i, sqrt_floor};
use crate::math::vec::{Vec3Fx, Mat4Fx, v3_add, v3_add_s, v3_sub, v3_sub_s, v3_neg, v3_neg_s, v3_scale, v3_scale_s, v3_dot, v3_dot_s, v3_zero, v3_zero_s, v3_normalize_or_zero, q_rotate, q_rotate_s, m4_from_rotation_translation, m4_from_rotation_translation_s, m4_from_translation, m4_from_translation_s, m4_from_mat3_translation_s, Mat3Fx};
use crate::math::geom::{segment_to_segment, seg_frame_s, seg_min_d2_s, ray_to_plane_origin, ray_to_plane_origin_s};
use crate::config::{PreparedGizmoConfig, GizmoDirection, RgbColor, local_space_s, view_forward_s};
use crate::Ray;

/// How far the pointer ray is extended when it is treated as a segment for
/// the closest-point test: far enough to cross any reasonable scene while
/// staying well inside the fixed-point range.
pub const RAY_EXTENT: i64 = 0x4000_0000;

/// Start of the arrow fade band: axis handles begin to fade where the
/// view-to-axis dot product passes 0.95.
pub const ARROW_FADE_START: i64 = 62259;

/// Width of the arrow fade band (dot products 0.95 to 0.99).
pub const ARROW_FADE_RANGE: i64 = 2622;

/// Start of the complementary plane fade band (0.70).
pub const PLANE_FADE_START: i64 = 45875;

/// Width of the plane fade band (0.70 to 0.86).
pub const PLANE_FADE_RANGE: i64 = 10486;

/// Opacity under which a handle is not drawn at all (about 1e-4).
pub const DRAW_OPACITY_EPS: i64 = 7;

/// Whether a handle constrains motion to a single axis or to a plane.
#[derive(Debug, Clone, Copy, PartialEq, Eq, Structural, Hash)]
pub enum TransformKind {
    Axis,
    Plane,
}

/// What a picking primitive reports: the point on the handle nearest the
/// ray, a visibility fade factor, whether the handle counts as hit, and
/// the ray parameter of the hit.
#[derive(Debug, Clone, Copy, PartialEq, Eq, Structural)]
pub struct PickResult {
    pub subgizmo_point: Vec3Fx,
    pub visibility: Fx,
    pub picked: bool,
    pub t: Fx,
}

/// The stroke style capping an arrow handle.
#[derive(Debug, Clone, Copy, PartialEq, Eq, Structural)]
pub enum ArrowheadStyle {
    Cone,
    Square,
}

/// A color with a linear alpha factor; the host rasterizer applies the
/// alpha and the separate draw opacity to the channels.
#[derive(Debug, Clone, Copy, PartialEq, Eq, Structural)]
pub struct GizmoColor {
    pub rgb: RgbColor,
    pub alpha: Fx,
}

/// One already-positioned draw primitive, in the local space of its draw
/// data's transform.
#[derive(Debug, Clone, Copy, PartialEq, Eq, Structural)]
pub enum DrawPrimitive {
    LineSegment { start: Vec3Fx, end: Vec3Fx, width: Fx },
    Arrow { start: Vec3Fx, end: Vec3Fx, width: Fx },
    Arc { radius: Fx, start_angle: Fx, end_angle: Fx, width: Fx },
    Circle { radius: Fx, width: Fx },
    FilledCircle { radius: Fx },
    Polyline3 { a: Vec3Fx, b: Vec3Fx, c: Vec3Fx, width: Fx },
    Polygon4 { a: Vec3Fx, b: Vec3Fx, c: Vec3Fx, d: Vec3Fx },
}

/// What one handle asks the rasterizer to draw: primitives in a common
/// local space, a transform into world space, and a color with the
/// handle's current opacity.
#[derive(Debug, Clone)]
pub struct GizmoDrawData {
    pub transform: Mat4Fx,
    pub color: GizmoColor,
    pub opacity: Fx,
    pub primitives: Vec<DrawPrimitive>,
}

pub open spec fn plane_bitangent_s(direction: GizmoDirection) -> Vec3Fx {
    match direction {
        GizmoDirection::X => Vec3Fx { x: 0, y: FX_ONE, z: 0 },
        GizmoDirection::Y => Vec3Fx { x: 0, y: 0, z: FX_ONE },
        GizmoDirection::Z => Vec3Fx { x: FX_ONE, y: 0, z: 0 },
        GizmoDirection::View => v3_zero_s(),
    }
}

/// The first in-plane axis of a plane handle.
pub fn plane_bitangent(direction: GizmoDirection) -> (r: Vec3Fx)
    ensures
        r == plane_bitangent_s(direction),
{
    match direction {
        GizmoDirection::X => Vec3Fx { x: 0, y: FX_ONE, z: 0 },
        GizmoDirection::Y => Vec3Fx { x: 0, y: 0, z: FX_ONE },
        GizmoDirection::Z => Vec3Fx { x: FX_ONE, y: 0, z: 0 },
        GizmoDirection::View => v3_zero(),
    }
}

pub open spec fn plane_tangent_s(direction: GizmoDirection) -> Vec3Fx {
    match direction {
        GizmoDirection::X => Vec3Fx { x: 0, y: 0, z: FX_ONE },
        GizmoDirection::Y => Vec3Fx { x: FX_ONE, y: 0, z: 0 },
        GizmoDirection::Z => Vec3Fx { x: 0, y: FX_ONE, z: 0 },
        GizmoDirection::View => v3_zero_s(),
    }
}

/// The second in-plane axis of a plane handle.
pub fn plane_tangent(direction: GizmoDirection) -> (r: Vec3Fx)
    ensures
        r == plane_tangent_s(direction),
{
    match direction {
        GizmoDirection::X => Vec3Fx { x: 0, y: 0, z: FX_ONE },
        GizmoDirection::Y => Vec3Fx { x: FX_ONE, y: 0, z: 0 },
        GizmoDirection::Z => Vec3Fx { x: 0, y: FX_ONE, z: 0 },
        GizmoDirection::View => v3_zero(),
    }
}

pub open spec fn plane_size_s(c: PreparedGizmoConfig) -> Fx {
    fx_mul_s(
        c.scale_factor as int,
        fxc(
            fx_mul_s(c.config.visuals.gizmo_size as int, 6554) + fx_mul_s(
                c.config.visuals.stroke_width as int,
                2 * FX_ONE,
            ),
        ) as int,
    )
}

/// Half-extent of a plane handle's quadrilateral.
pub fn plane_size(c: &PreparedGizmoConfig) -> (r: Fx)
    ensures
        r == plane_size_s(*c),
{
    fx_mul(
        c.scale_factor,
        fx_add(
            fx_mul(c.config.visuals.gizmo_size, 6554),
            fx_mul(c.config.visuals.stroke_width, 2 * FX_ONE),
        ),
    )
}

pub open spec fn plane_local_origin_s(c: PreparedGizmoConfig, direction: GizmoDirection) -> Vec3Fx {
    let offset = fx_mul_s(
        fx_mul_s(c.scale_factor as int, c.config.visuals.gizmo_size as int) as int,
        32768,
    );
    v3_scale_s(v3_add_s(plane_bitangent_s(direction), plane_tangent_s(direction)), offset as int)
}

/// Center of a plane handle in gizmo-local space.
pub fn plane_local_origin(c: &PreparedGizmoConfig, direction: GizmoDirection) -> (r: Vec3Fx)
    ensures
        r == plane_local_origin_s(*c, direction),
{
    let offset: i64 = fx_mul(fx_mul(c.scale_factor, c.config.visuals.gizmo_size), 32768);
    v3_scale(v3_add(plane_bitangent(direction), plane_tangent(direction)), offset)
}

pub open spec fn plane_global_origin_s(c: PreparedGizmoConfig, direction: GizmoDirection) -> Vec3Fx {
    let local = plane_local_origin_s(c, direction);
    let oriented = if local_space_s(c.config) {
        q_rotate_s(c.rotation, local)
    } else {
        local
    };
    v3_add_s(oriented, c.translation)
}

/// Center of a plane handle in world space.
pub fn plane_global_origin(c: &PreparedGizmoConfig, direction: GizmoDirection) -> (r: Vec3Fx)
    ensures
        r == plane_global_origin_s(*c, direction),
{
    let local = plane_local_origin(c, direction);
    let oriented = if c.config.local_space() {
        q_rotate(c.rotation, local)
    } else {
        local
    };
    v3_add(oriented, c.translation)
}

pub open spec fn inner_circle_radius_s(c: PreparedGizmoConfig) -> Fx {
    fx_mul_s(fx_mul_s(c.scale_factor as int, c.config.visuals.gizmo_size as int) as int, 13107)
}

/// Radius of the inner circle subgizmo.
pub fn inner_circle_radius(c: &PreparedGizmoConfig) -> (r: Fx)
    ensures
        r == inner_circle_radius_s(*c),
{
    fx_mul(fx_mul(c.scale_factor, c.config.visuals.gizmo_size), 13107)
}

pub open spec fn outer_circle_radius_s(c: PreparedGizmoConfig) -> Fx {
    fx_mul_s(
        c.scale_factor as int,
        fxc(fxc(c.config.visuals.gizmo_size + c.config.visuals.stroke_width) + 5 * FX_ONE) as int,
    )
}

/// Radius of the outer circle subgizmo.
pub fn outer_circle_radius(c: &PreparedGizmoConfig) -> (r: Fx)
    ensures
        r == outer_circle_radius_s(*c),
{
    fx_mul(
        c.scale_factor,
        fx_add(fx_add(c.config.visuals.gizmo_size, c.config.visuals.stroke_width), 5 * FX_ONE),
    )
}

pub open spec fn gizmo_local_normal_s(c: PreparedGizmoConfig, direction: GizmoDirection) -> Vec3Fx {
    match direction {
        GizmoDirection::X => Vec3Fx { x: FX_ONE, y: 0, z: 0 },
        GizmoDirection::Y => Vec3Fx { x: 0, y: FX_ONE, z: 0 },
        GizmoDirection::Z => Vec3Fx { x: 0, y: 0, z: FX_ONE },
        GizmoDirection::View => v3_neg_s(view_forward_s(c.config)),
    }
}

/// Normal of a handle in gizmo-local space.
pub fn gizmo_local_normal(c: &PreparedGizmoConfig, direction: GizmoDirection) -> (r: Vec3Fx)
    ensures
        r == gizmo_local_normal_s(*c, direction),
{
    match direction {
        GizmoDirection::X => Vec3Fx { x: FX_ONE, y: 0, z: 0 },
        GizmoDirection::Y => Vec3Fx { x: 0, y: FX_ONE, z: 0 },
        GizmoDirection::Z => Vec3Fx { x: 0, y: 0, z: FX_ONE },
        GizmoDirection::View => v3_neg(c.config.view_forward()),
    }
}

pub open spec fn gizmo_normal_s(c: PreparedGizmoConfig, direction: GizmoDirection) -> Vec3Fx {
    let normal = gizmo_local_normal_s(c, direction);
    if local_space_s(c.config) && direction != GizmoDirection::View {
        q_rotate_s(c.rotation, normal)
    } else {
        normal
    }
}

/// Normal of a handle in world space, following the gizmo's rotation in
/// local orientation.
pub fn gizmo_normal(c: &PreparedGizmoConfig, direction: GizmoDirection) -> (r: Vec3Fx)
    ensures
        r == gizmo_normal_s(*c, direction),
{
    let normal = gizmo_local_normal(c, direction);
    if c.config.local_space() && !matches!(direction, GizmoDirection::View) {
        q_rotate(c.rotation, normal)
    } else {
        normal
    }
}

pub open spec fn gizmo_color_s(
    c: PreparedGizmoConfig,
    focused: bool,
    direction: GizmoDirection,
) -> GizmoColor {
    let base = match direction {
        GizmoDirection::X => c.config.visuals.x_color,
        GizmoDirection::Y => c.config.visuals.y_color,
        GizmoDirection::Z => c.config.visuals.z_color,
        GizmoDirection::View => c.config.visuals.s_color,
    };
    let rgb = if focused {
        match c.config.visuals.highlight_color {
            Option::Some(hc) => hc,
            Option::None => base,
        }
    } else {
        base
    };
    let alpha = if focused {
        c.config.visuals.highlight_alpha
    } else {
        c.config.visuals.inactive_alpha
    };
    GizmoColor { rgb: rgb, alpha: alpha }
}

/// Color of a handle: its axis color, overridden by the highlight color
/// when focused, with the matching alpha.
pub fn gizmo_color(c: &PreparedGizmoConfig, focused: bool, direction: GizmoDirection) -> (r:
    GizmoColor)
    ensures
        r == gizmo_color_s(*c, focused, direction),
{
    let base = match direction {
        GizmoDirection::X => c.config.visuals.x_color,
        GizmoDirection::Y => c.config.visuals.y_color,
        GizmoDirection::Z => c.config.visuals.z_color,
        GizmoDirection::View => c.config.visuals.s_color,
    };
    let rgb = if focused {
        match c.config.visuals.highlight_color {
            Option::Some(hc) => hc,
            Option::None => base,
        }
    } else {
        base
    };
    let alpha = if focused {
        c.config.visuals.highlight_alpha
    } else {
        c.config.visuals.inactive_alpha
    };
    GizmoColor { rgb: rgb, alpha: alpha }
}

/// Visibility of an arrow handle: fades out over the band where the axis
/// turns parallel to the view direction.
pub open spec fn arrow_visibility_s(c: PreparedGizmoConfig, dir: Vec3Fx) -> Fx {
    let dot = fxc(abs_i(v3_dot_s(c.eye_to_model_dir, dir) as int)) as i64;
    let faded = fxc(FX_ONE - fx_div_s(fxc(dot - ARROW_FADE_START) as int, ARROW_FADE_RANGE as int))
        as i64;
    if faded >= FX_ONE {
        FX_ONE
    } else {
        faded
    }
}

/// Visibility of a plane handle: most visible viewed obliquely, fading
/// over the complementary dot-product band.
pub open spec fn plane_visibility_s(c: PreparedGizmoConfig, normal: Vec3Fx) -> Fx {
    let dot = fxc(abs_i(v3_dot_s(c.eye_to_model_dir, normal) as int)) as i64;
    let faded = fxc(
        FX_ONE - fx_div_s(fxc(fxc(FX_ONE - dot) - PLANE_FADE_START) as int, PLANE_FADE_RANGE as int),
    ) as i64;
    if faded >= FX_ONE {
        FX_ONE
    } else {
        faded
    }
}

pub open spec fn arrow_start_offset_s(c: PreparedGizmoConfig) -> Fx {
    fxc(
        fx_mul_s(fx_mul_s(c.scale_factor as int, c.config.visuals.stroke_width as int) as int, 32768)
            + inner_circle_radius_s(c),
    ) as i64
}

/// The world-space segment an arrow handle occupies: from just outside the
/// inner circle to the handle length, along the handle's normal.
pub open spec fn arrow_segment_s(c: PreparedGizmoConfig, direction: GizmoDirection) -> (Vec3Fx,
    Vec3Fx) {
    let dir = gizmo_normal_s(c, direction);
    let start = v3_add_s(c.translation, v3_scale_s(dir, arrow_start_offset_s(c) as int));
    let length = fx_mul_s(c.scale_factor as int, c.config.visuals.gizmo_size as int);
    (start, v3_add_s(start, v3_scale_s(dir, length as int)))
}

/// The closest-point frame between the extended pointer ray and an arrow
/// handle's segment.
pub open spec fn arrow_frame_s(c: PreparedGizmoConfig, ray: Ray, direction: GizmoDirection)
    -> crate::math::geom::SegFrame {
    let (start, seg_end) = arrow_segment_s(c, direction);
    let ray_end = v3_add_s(ray.origin, v3_scale_s(ray.direction, RAY_EXTENT as int));
    seg_frame_s(ray.origin, ray_end, start, seg_end)
}

/// Tests the pointer ray against an arrow handle. The handle is hit
/// exactly when it has not faded out and the smallest distance between the
/// extended ray and the handle segment is within the focus distance; the
/// reported point and ray parameter come from the minimizing pair.
pub fn pick_arrow(c: &PreparedGizmoConfig, ray: Ray, direction: GizmoDirection) -> (r: PickResult)
    ensures
        r.visibility == arrow_visibility_s(*c, gizmo_normal_s(*c, direction)),
        r.picked == (r.visibility > 0 && sqrt_floor(
            seg_min_d2_s(arrow_frame_s(*c, ray, direction)) * (FX_ONE as int),
        ) <= c.focus_distance),
        0 <= r.t <= arrow_frame_s(*c, ray, direction).l1,
        exists|t2: Fx|
            {
                &&& 0 <= t2 <= arrow_frame_s(*c, ray, direction).l2
                &&& r.subgizmo_point == v3_add_s(
                    arrow_segment_s(*c, direction).0,
                    v3_scale_s(arrow_frame_s(*c, ray, direction).u2, t2 as int),
                )
                &&& crate::math::geom::seg_d2_s(
                    arrow_frame_s(*c, ray, direction),
                    r.t as int,
                    t2 as int,
                ) == seg_min_d2_s(arrow_frame_s(*c, ray, direction))
            },
{
    let dir = gizmo_normal(c, direction);
    let start = v3_add(c.translation, v3_scale(dir, arrow_start_offset(c)));
    let length: i64 = fx_mul(c.scale_factor, c.config.visuals.gizmo_size);
    let ray_end = v3_add(ray.origin, v3_scale(ray.direction, RAY_EXTENT));
    let seg_end = v3_add(start, v3_scale(dir, length));
    let seg = segment_to_segment(ray.origin, ray_end, start, seg_end);
    let u2 = v3_normalize_or_zero(v3_sub(seg_end, start));
    let subgizmo_point = v3_add(start, v3_scale(u2, seg.t));
    let dist: i64 = fx_sqrt(seg.dist_sq);
    let dot: i64 = fx_abs(v3_dot(c.eye_to_model_dir, dir));
    let visibility: i64 = fx_min(
        FX_ONE,
        fx_sub(FX_ONE, fx_div(fx_sub(dot, ARROW_FADE_START), ARROW_FADE_RANGE)),
    );
    let picked: bool = visibility > 0 && dist <= c.focus_distance;
    proof {
        let fr = arrow_frame_s(*c, ray, direction);
        assert(0 <= seg.t <= fr.l2 && subgizmo_point == v3_add_s(
            arrow_segment_s(*c, direction).0,
            v3_scale_s(fr.u2, seg.t as int),
        ) && crate::math::geom::seg_d2_s(fr, seg.s as int, seg.t as int) == seg_min_d2_s(fr));
    }
    PickResult { subgizmo_point: subgizmo_point, visibility: visibility, picked: picked, t: seg.s }
}

fn arrow_start_offset(c: &PreparedGizmoConfig) -> (r: Fx)
    ensures
        r == arrow_start_offset_s(*c),
{
    fx_add(fx_mul(fx_mul(c.scale_factor, c.config.visuals.stroke_width), 32768), inner_circle_radius(c))
}

/// The plane-handle pick, as a mathematical function: a ray parallel to
/// the plane is no hit at all.
pub open spec fn pick_plane_s(c: PreparedGizmoConfig, ray: Ray, direction: GizmoDirection)
    -> PickResult {
    let origin = plane_global_origin_s(c, direction);
    let normal = gizmo_normal_s(c, direction);
    match ray_to_plane_origin_s(normal, origin, ray.origin, ray.direction) {
        Option::Some(hit) => {
            let ray_point = v3_add_s(ray.origin, v3_scale_s(ray.direction, hit.t as int));
            let visibility = plane_visibility_s(c, normal);
            PickResult {
                subgizmo_point: ray_point,
                visibility: visibility,
                picked: visibility > 0 && hit.dist_from_origin <= plane_size_s(c),
                t: hit.t,
            }
        },
        Option::None => PickResult { subgizmo_point: v3_zero_s(), visibility: 0, picked: false, t: 0 },
    }
}

/// Tests the pointer ray against a plane handle: hit exactly when the ray
/// meets the handle's plane within the patch half-size and the handle has
/// not faded out.
pub fn pick_plane(c: &PreparedGizmoConfig, ray: Ray, direction: GizmoDirection) -> (r: PickResult)
    ensures
        r == pick_plane_s(*c, ray, direction),
{
    let origin = plane_global_origin(c, direction);
    let normal = gizmo_normal(c, direction);
    match ray_to_plane_origin(normal, origin, ray.origin, ray.direction) {
        Option::Some(hit) => {
            let ray_point = v3_add(ray.origin, v3_scale(ray.direction, hit.t));
            let dot: i64 = fx_abs(v3_dot(c.eye_to_model_dir, normal));
            let visibility: i64 = fx_min(
                FX_ONE,
                fx_sub(
                    FX_ONE,
                    fx_div(fx_sub(fx_sub(FX_ONE, dot), PLANE_FADE_START), PLANE_FADE_RANGE),
                ),
            );
            let picked: bool = visibility > 0 && hit.dist_from_origin <= plane_size(c);
            PickResult { subgizmo_point: ray_point, visibility: visibility, picked: picked, t: hit.t }
        },
        Option::None => PickResult { subgizmo_point: v3_zero(), visibility: 0, picked: false, t: 0 },
    }
}

/// The circle-handle pick, as a mathematical function: the ray is cut with
/// the camera-facing plane through the gizmo origin, and a filled disk
/// accepts anything inside the radius plus the focus distance, while a
/// ring accepts only a band around the radius.
pub open spec fn pick_circle_s(c: PreparedGizmoConfig, ray: Ray, radius: int, filled: bool)
    -> PickResult {
    let origin = c.translation;
    let normal = v3_neg_s(view_forward_s(c.config));
    match ray_to_plane_origin_s(normal, origin, ray.origin, ray.direction) {
        Option::Some(hit) => {
            let hit_pos = v3_add_s(ray.origin, v3_scale_s(ray.direction, hit.t as int));
            let picked = if filled {
                hit.dist_from_origin <= fxc(radius + c.focus_distance)
            } else {
                fxc(abs_i(hit.dist_from_origin - radius)) <= c.focus_distance as int
            };
            PickResult { subgizmo_point: hit_pos, visibility: FX_ONE, picked: picked, t: hit.t }
        },
        Option::None => PickResult { subgizmo_point: v3_zero_s(), visibility: 0, picked: false, t: 0 },
    }
}

/// Tests the pointer ray against a filled disk or a ring facing the
/// camera.
pub fn pick_circle(c: &PreparedGizmoConfig, ray: Ray, radius: Fx, filled: bool) -> (r: PickResult)
    ensures
        r == pick_circle_s(*c, ray, radius as int, filled),
{
    let origin = c.translation;
    let normal = v3_neg(c.config.view_forward());
    match ray_to_plane_origin(normal, origin, ray.origin, ray.direction) {
        Option::Some(hit) => {
            let hit_pos = v3_add(ray.origin, v3_scale(ray.direction, hit.t));
            let picked: bool = if filled {
                hit.dist_from_origin <= fx_add(radius, c.focus_distance)
            } else {
                fx_abs(fx_sub(hit.dist_from_origin, radius)) <= c.focus_distance
            };
            PickResult { subgizmo_point: hit_pos, visibility: FX_ONE, picked: picked, t: hit.t }
        },
        Option::None => PickResult { subgizmo_point: v3_zero(), visibility: 0, picked: false, t: 0 },
    }
}

/// The transform all arrow and plane primitives are drawn under: the
/// gizmo's translation, with its rotation in local orientation.
pub open spec fn handle_transform_s(c: PreparedGizmoConfig) -> Mat4Fx {
    if local_space_s(c.config) {
        m4_from_rotation_translation_s(c.rotation, c.translation)
    } else {
        m4_from_translation_s(c.translation)
    }
}

fn handle_transform(c: &PreparedGizmoConfig) -> (r: Mat4Fx)
    ensures
        r == handle_transform_s(*c),
{
    if c.config.local_space() {
        m4_from_rotation_translation(c.rotation, c.translation)
    } else {
        m4_from_translation(c.translation)
    }
}

/// The primitives of an arrow handle: its shaft, and either a cone arrow
/// or a wider square stroke as the head.
pub open spec fn draw_arrow_prims_s(
    c: PreparedGizmoConfig,
    direction: GizmoDirection,
    style: ArrowheadStyle,
) -> Seq<DrawPrimitive> {
    let dl = gizmo_local_normal_s(c, direction);
    let width = fx_mul_s(c.scale_factor as int, c.config.visuals.stroke_width as int);
    let length = fx_mul_s(c.scale_factor as int, c.config.visuals.gizmo_size as int);
    let start = v3_scale_s(dl, arrow_start_offset_s(c) as int);
    let end = v3_scale_s(dl, length as int);
    let shaft = DrawPrimitive::LineSegment {
        start: start,
        end: end,
        width: c.config.visuals.stroke_width,
    };
    match style {
        ArrowheadStyle::Square => {
            let end_stroke_width = fx_mul_s(c.config.visuals.stroke_width as int, 163840);
            let end_length = fx_mul_s(c.scale_factor as int, end_stroke_width as int);
            seq![
                shaft,
                DrawPrimitive::LineSegment {
                    start: end,
                    end: v3_add_s(end, v3_scale_s(dl, end_length as int)),
                    width: end_stroke_width,
                },
            ]
        },
        ArrowheadStyle::Cone => {
            let arrow_length = fx_mul_s(width as int, 157286);
            seq![
                shaft,
                DrawPrimitive::Arrow {
                    start: end,
                    end: v3_add_s(end, v3_scale_s(dl, arrow_length as int)),
                    width: fx_mul_s(c.config.visuals.stroke_width as int, 78643),
                },
            ]
        },
    }
}

/// Emits the draw data of an arrow handle; nothing is drawn below the
/// opacity threshold.
pub fn draw_arrow(
    c: &PreparedGizmoConfig,
    opacity: Fx,
    focused: bool,
    direction: GizmoDirection,
    style: ArrowheadStyle,
) -> (r: GizmoDrawData)
    ensures
        r.transform == handle_transform_s(*c),
        r.color == gizmo_color_s(*c, focused, direction),
        r.opacity == opacity,
        opacity <= DRAW_OPACITY_EPS ==> r.primitives@ =~= Seq::<DrawPrimitive>::empty(),
        opacity > DRAW_OPACITY_EPS ==> r.primitives@ =~= draw_arrow_prims_s(*c, direction, style),
{
    let transform = handle_transform(c);
    let color = gizmo_color(c, focused, direction);
    let mut primitives: Vec<DrawPrimitive> = Vec::new();
    if opacity > DRAW_OPACITY_EPS {
        let dl = gizmo_local_normal(c, direction);
        let width: i64 = fx_mul(c.scale_factor, c.config.visuals.stroke_width);
        let length: i64 = fx_mul(c.scale_factor, c.config.visuals.gizmo_size);
        let start = v3_scale(dl, arrow_start_offset(c));
        let end = v3_scale(dl, length);
        primitives.push(
            DrawPrimitive::LineSegment {
                start: start,
                end: end,
                width: c.config.visuals.stroke_width,
            },
        );
        match style {
            ArrowheadStyle::Square => {
                let end_stroke_width: i64 = fx_mul(c.config.visuals.stroke_width, 163840);
                let end_length: i64 = fx_mul(c.scale_factor, end_stroke_width);
                primitives.push(
                    DrawPrimitive::LineSegment {
                        start: end,
                        end: v3_add(end, v3_scale(dl, end_length)),
                        width: end_stroke_width,
                    },
                );
            },
            ArrowheadStyle::Cone => {
                let arrow_length: i64 = fx_mul(width, 157286);
                primitives.push(
                    DrawPrimitive::Arrow {
                        start: end,
                        end: v3_add(end, v3_scale(dl, arrow_length)),
                        width: fx_mul(c.config.visuals.stroke_width, 78643),
                    },
                );
            },
        }
    }
    GizmoDrawData { transform: transform, color: color, opacity: opacity, primitives: primitives }
}

/// The single quadrilateral of a plane handle.
pub open spec fn draw_plane_prims_s(c: PreparedGizmoConfig, direction: GizmoDirection) -> Seq<
    DrawPrimitive,
> {
    let scale = fx_mul_s(plane_size_s(c) as int, 32768);
    let a = v3_scale_s(plane_bitangent_s(direction), scale as int);
    let b = v3_scale_s(plane_tangent_s(direction), scale as int);
    let origin = plane_local_origin_s(c, direction);
    seq![
        DrawPrimitive::Polygon4 {
            a: v3_sub_s(v3_sub_s(origin, b), a),
            b: v3_sub_s(v3_add_s(origin, b), a),
            c: v3_add_s(v3_add_s(origin, b), a),
            d: v3_add_s(v3_sub_s(origin, b), a),
        },
    ]
}

/// Emits the draw data of a plane handle; nothing is drawn below the
/// opacity threshold.
pub fn draw_plane(c: &PreparedGizmoConfig, opacity: Fx, focused: bool, direction: GizmoDirection)
    -> (r: GizmoDrawData)
    ensures
        r.transform == handle_transform_s(*c),
        r.color == gizmo_color_s(*c, focused, direction),
        r.opacity == opacity,
        opacity <= DRAW_OPACITY_EPS ==> r.primitives@ =~= Seq::<DrawPrimitive>::empty(),
        opacity > DRAW_OPACITY_EPS ==> r.primitives@ =~= draw_plane_prims_s(*c, direction),
{
    let transform = handle_transform(c);
    let color = gizmo_color(c, focused, direction);
    let mut primitives: Vec<DrawPrimitive> = Vec::new();
    if opacity > DRAW_OPACITY_EPS {
        let scale: i64 = fx_mul(plane_size(c), 32768);
        let a = v3_scale(plane_bitangent(direction), scale);
        let b = v3_scale(plane_tangent(direction), scale);
        let origin = plane_local_origin(c, direction);
        primitives.push(
            DrawPrimitive::Polygon4 {
                a: v3_sub(v3_sub(origin, b), a),
                b: v3_sub(v3_add(origin, b), a),
                c: v3_add(v3_add(origin, b), a),
                d: v3_add(v3_sub(origin, b), a),
            },
        );
    }
    GizmoDrawData { transform: transform, color: color, opacity: opacity, primitives: primitives }
}

/// The camera-facing frame circles are drawn in: the view's up vector, the
/// negated forward and the negated right vector as the rotation columns,
/// over the gizmo's translation.
pub open spec fn circle_transform_s(c: PreparedGizmoConfig) -> Mat4Fx {
    let fwd = view_forward_s(c.config);
    let right = view_right_col_s(c);
    let up = view_up_col_s(c);
    m4_from_mat3_translation_s(
        Mat3Fx {
            r0: Vec3Fx { x: up.x, y: fxc(-fwd.x) as i64, z: fxc(-right.x) as i64 },
            r1: Vec3Fx { x: up.y, y: fxc(-fwd.y) as i64, z: fxc(-right.y) as i64 },
            r2: Vec3Fx { x: up.z, y: fxc(-fwd.z) as i64, z: fxc(-right.z) as i64 },
        },
        c.translation,
    )
}

pub open spec fn view_right_col_s(c: PreparedGizmoConfig) -> Vec3Fx {
    crate::config::view_right_s(c.config)
}

pub open spec fn view_up_col_s(c: PreparedGizmoConfig) -> Vec3Fx {
    crate::config::view_up_s(c.config)
}

/// Emits the draw data of a camera-facing circle; a fully transparent
/// color draws nothing.
pub fn draw_circle(c: &PreparedGizmoConfig, color: GizmoColor, radius: Fx, filled: bool) -> (r:
    GizmoDrawData)
    ensures
        r.transform == circle_transform_s(*c),
        r.color == color,
        r.opacity == FX_ONE,
        color.alpha == 0 ==> r.primitives@ =~= Seq::<DrawPrimitive>::empty(),
        color.alpha != 0 && filled ==> r.primitives@ =~= seq![
            DrawPrimitive::FilledCircle { radius: radius },
        ],
        color.alpha != 0 && !filled ==> r.primitives@ =~= seq![
            DrawPrimitive::Circle { radius: radius, width: c.config.visuals.stroke_width },
        ],
{
    let fwd = c.config.view_forward();
    let right = c.config.view_right();
    let up = c.config.view_up();
    let rot = Mat3Fx {
        r0: Vec3Fx { x: up.x, y: fx_neg(fwd.x), z: fx_neg(right.x) },
        r1: Vec3Fx { x: up.y, y: fx_neg(fwd.y), z: fx_neg(right.y) },
        r2: Vec3Fx { x: up.z, y: fx_neg(fwd.z), z: fx_neg(right.z) },
    };
    let transform = crate::math::vec::m4_from_mat3_translation(&rot, c.translation);
    let mut primitives: Vec<DrawPrimitive> = Vec::new();
    if color.alpha != 0 {
        if filled {
            primitives.push(DrawPrimitive::FilledCircle { radius: radius });
        } else {
            primitives.push(
                DrawPrimitive::Circle { radius: radius, width: c.config.visuals.stroke_width },
            );
        }
    }
    GizmoDrawData { transform: transform, color: color, opacity: FX_ONE, primitives: primitives }
}

} // verus!
