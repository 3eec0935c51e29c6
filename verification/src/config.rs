use vstd::prelude::*;

verus! {

use crate::math::fx::{Fx, FX_ONE, fx_add, fx_mul, fx_div, fx_mul_s, fx_div_s, fxc};
use crate::math::vec::{
    Vec2Fx, Vec3Fx, QuatFx, Mat4Fx, v3_add, v3_add_s, v3_zero, v3_zero_s, v3_sub, v3_sub_s,
    v3_normalize_or_zero, v3_normalize_or_zero_s, q_identity, q_identity_s, m4_mul, m4_mul_s,
    m4_identity, m4_identity_s, m4_inverse, m4_inverse_s, m4_from_scale_rotation_translation,
    m4_from_scale_rotation_translation_s,
};
use crate::math::geom::{
    Rect, rect_width, rect_width_s, world_to_screen, world_to_screen_s, screen_to_world,
    screen_to_world_s,
};

/// The default snapping increment for rotation: pi / 32 radians.
pub const DEFAULT_SNAP_ANGLE: i64 = 6434;

/// The default snapping increment for translation: a tenth of a unit.
pub const DEFAULT_SNAP_DISTANCE: i64 = 6554;

/// The default snapping increment for scaling: a tenth of the ratio.
pub const DEFAULT_SNAP_SCALE: i64 = 6554;

/// One of the gizmo's operation modes.
#[derive(Debug, Clone, Copy, PartialEq, Eq, Structural, Hash)]
pub enum GizmoMode {
    /// Only rotation
    Rotate,
    /// Only translation
    Translate,
    /// Only scale
    Scale,
}

/// Whether handle axes follow the world frame or the targets' own frame.
#[derive(Debug, Clone, Copy, PartialEq, Eq, Structural)]
pub enum GizmoOrientation {
    /// Transformation axes are aligned to world space. Rotation of the
    /// gizmo does not change.
    Global,
    /// Transformation axes are aligned to local space. Rotation of the
    /// gizmo matches the rotation represented by the model matrix.
    Local,
}

/// The axis or plane a handle is bound to.
#[derive(Debug, Clone, Copy, PartialEq, Eq, Structural, Hash)]
pub enum GizmoDirection {
    /// Gizmo points in the X-direction
    X,
    /// Gizmo points in the Y-direction
    Y,
    /// Gizmo points in the Z-direction
    Z,
    /// Gizmo points in the view direction
    View,
}

/// A fixed-size set over the closed mode enum.
#[derive(Debug, Clone, Copy, PartialEq, Eq, Structural)]
pub struct GizmoModeSet {
    pub rotate: bool,
    pub translate: bool,
    pub scale: bool,
}

pub open spec fn mode_set_contains_s(ms: GizmoModeSet, m: GizmoMode) -> bool {
    match m {
        GizmoMode::Rotate => ms.rotate,
        GizmoMode::Translate => ms.translate,
        GizmoMode::Scale => ms.scale,
    }
}

impl GizmoModeSet {
    /// The empty set of modes.
    pub fn empty() -> (r: GizmoModeSet)
        ensures
            forall|m: GizmoMode| !mode_set_contains_s(r, m),
    {
        GizmoModeSet { rotate: false, translate: false, scale: false }
    }

    /// The set holding exactly one mode.
    pub fn only(m: GizmoMode) -> (r: GizmoModeSet)
        ensures
            forall|n: GizmoMode| mode_set_contains_s(r, n) <==> n == m,
    {
        GizmoModeSet {
            rotate: matches!(m, GizmoMode::Rotate),
            translate: matches!(m, GizmoMode::Translate),
            scale: matches!(m, GizmoMode::Scale),
        }
    }

    /// Membership test.
    pub fn contains(&self, m: GizmoMode) -> (r: bool)
        ensures
            r == mode_set_contains_s(*self, m),
    {
        match m {
            GizmoMode::Rotate => self.rotate,
            GizmoMode::Translate => self.translate,
            GizmoMode::Scale => self.scale,
        }
    }

    /// The same set with one more mode.
    pub fn with(&self, m: GizmoMode) -> (r: GizmoModeSet)
        ensures
            forall|n: GizmoMode| mode_set_contains_s(r, n) <==> (mode_set_contains_s(*self, n) || n == m),
    {
        GizmoModeSet {
            rotate: self.rotate || matches!(m, GizmoMode::Rotate),
            translate: self.translate || matches!(m, GizmoMode::Translate),
            scale: self.scale || matches!(m, GizmoMode::Scale),
        }
    }
}

/// A color channel triple; alpha handling stays with the host rasterizer.
#[derive(Debug, Clone, Copy, PartialEq, Eq, Structural)]
pub struct RgbColor {
    pub r: u8,
    pub g: u8,
    pub b: u8,
}

/// Controls the visual style of the gizmo. Alpha values, stroke widths and
/// sizes are fixed-point scalars.
#[derive(Debug, Clone, Copy, PartialEq, Eq, Structural)]
pub struct GizmoVisuals {
    /// Color of the x axis
    pub x_color: RgbColor,
    /// Color of the y axis
    pub y_color: RgbColor,
    /// Color of the z axis
    pub z_color: RgbColor,
    /// Color of the view axis
    pub s_color: RgbColor,
    /// Alpha of the gizmo color when inactive
    pub inactive_alpha: Fx,
    /// Alpha of the gizmo color when highlighted or active
    pub highlight_alpha: Fx,
    /// Color to use for highlighted and active axes; the axis color with
    /// `highlight_alpha` when absent
    pub highlight_color: Option<RgbColor>,
    /// Width (thickness) of the gizmo strokes, in pixels
    pub stroke_width: Fx,
    /// Gizmo size in pixels
    pub gizmo_size: Fx,
}

/// The stock visual style, as a value.
pub open spec fn default_visuals_s() -> GizmoVisuals {
    GizmoVisuals {
        x_color: RgbColor { r: 255, g: 50, b: 0 },
        y_color: RgbColor { r: 50, g: 255, b: 0 },
        z_color: RgbColor { r: 0, g: 50, b: 255 },
        s_color: RgbColor { r: 255, g: 255, b: 255 },
        inactive_alpha: 32768,
        highlight_alpha: 58982,
        highlight_color: Option::None,
        stroke_width: (4 * FX_ONE) as i64,
        gizmo_size: (75 * FX_ONE) as i64,
    }
}

impl Default for GizmoVisuals {
    /// The stock look: saturated axis colors, half transparency at rest, a
    /// four pixel stroke and a 75 pixel gizmo.
    fn default() -> (r: GizmoVisuals)
        ensures
            r == default_visuals_s(),
    {
        GizmoVisuals {
            x_color: RgbColor { r: 255, g: 50, b: 0 },
            y_color: RgbColor { r: 50, g: 255, b: 0 },
            z_color: RgbColor { r: 0, g: 50, b: 255 },
            s_color: RgbColor { r: 255, g: 255, b: 255 },
            inactive_alpha: 32768,
            highlight_alpha: 58982,
            highlight_color: Option::None,
            stroke_width: 4 * FX_ONE,
            gizmo_size: 75 * FX_ONE,
        }
    }
}

/// The raw per-frame configuration the host supplies: camera matrices,
/// viewport, enabled modes, orientation, snapping and visuals.
#[derive(Debug, Clone, Copy, PartialEq, Eq, Structural)]
pub struct GizmoConfig {
    /// View matrix for the gizmo, aligning it with the camera's viewpoint.
    pub view_matrix: Mat4Fx,
    /// Projection matrix for the gizmo, determining how it is projected
    /// onto the screen.
    pub projection_matrix: Mat4Fx,
    /// Screen area where the gizmo is displayed.
    pub viewport: Rect,
    /// The gizmo's operation modes.
    pub modes: GizmoModeSet,
    /// Determines the gizmo's orientation relative to global or local axes.
    pub orientation: GizmoOrientation,
    /// Toggles snapping to predefined increments during transformations.
    pub snapping: bool,
    /// Angle increment for snapping rotations, in radians.
    pub snap_angle: Fx,
    /// Distance increment for snapping translations.
    pub snap_distance: Fx,
    /// Scale increment for snapping scalings.
    pub snap_scale: Fx,
    /// Visual settings for the gizmo.
    pub visuals: GizmoVisuals,
    /// Ratio of the window's physical size to its logical size.
    pub pixels_per_point: Fx,
}

impl Default for GizmoConfig {
    /// Identity camera, an empty viewport, rotation mode only, global
    /// orientation, snapping off with the stock increments.
    fn default() -> (r: GizmoConfig)
        ensures
            r.view_matrix == m4_identity_s(),
            r.projection_matrix == m4_identity_s(),
            r.viewport == (Rect { min_x: 0, min_y: 0, max_x: 0, max_y: 0 }),
            mode_set_contains_s(r.modes, GizmoMode::Rotate),
            !mode_set_contains_s(r.modes, GizmoMode::Translate),
            !mode_set_contains_s(r.modes, GizmoMode::Scale),
            r.orientation == GizmoOrientation::Global,
            !r.snapping,
            r.snap_angle == DEFAULT_SNAP_ANGLE,
            r.snap_distance == DEFAULT_SNAP_DISTANCE,
            r.snap_scale == DEFAULT_SNAP_SCALE,
            r.visuals == default_visuals_s(),
            r.pixels_per_point == FX_ONE,
    {
        GizmoConfig {
            view_matrix: m4_identity(),
            projection_matrix: m4_identity(),
            viewport: Rect { min_x: 0, min_y: 0, max_x: 0, max_y: 0 },
            modes: GizmoModeSet::only(GizmoMode::Rotate),
            orientation: GizmoOrientation::Global,
            snapping: false,
            snap_angle: DEFAULT_SNAP_ANGLE,
            snap_distance: DEFAULT_SNAP_DISTANCE,
            snap_scale: DEFAULT_SNAP_SCALE,
            visuals: GizmoVisuals::default(),
            pixels_per_point: FX_ONE,
        }
    }
}

pub open spec fn view_forward_s(c: GizmoConfig) -> Vec3Fx {
    Vec3Fx { x: c.view_matrix.r2.x, y: c.view_matrix.r2.y, z: c.view_matrix.r2.z }
}

pub open spec fn view_up_s(c: GizmoConfig) -> Vec3Fx {
    Vec3Fx { x: c.view_matrix.r1.x, y: c.view_matrix.r1.y, z: c.view_matrix.r1.z }
}

pub open spec fn view_right_s(c: GizmoConfig) -> Vec3Fx {
    Vec3Fx { x: c.view_matrix.r0.x, y: c.view_matrix.r0.y, z: c.view_matrix.r0.z }
}

pub open spec fn local_space_s(c: GizmoConfig) -> bool {
    c.orientation == GizmoOrientation::Local || mode_set_contains_s(c.modes, GizmoMode::Scale)
}

impl GizmoConfig {
    /// Forward vector of the view camera.
    pub fn view_forward(&self) -> (r: Vec3Fx)
        ensures
            r == view_forward_s(*self),
    {
        Vec3Fx { x: self.view_matrix.r2.x, y: self.view_matrix.r2.y, z: self.view_matrix.r2.z }
    }

    /// Up vector of the view camera.
    pub fn view_up(&self) -> (r: Vec3Fx)
        ensures
            r == view_up_s(*self),
    {
        Vec3Fx { x: self.view_matrix.r1.x, y: self.view_matrix.r1.y, z: self.view_matrix.r1.z }
    }

    /// Right vector of the view camera.
    pub fn view_right(&self) -> (r: Vec3Fx)
        ensures
            r == view_right_s(*self),
    {
        Vec3Fx { x: self.view_matrix.r0.x, y: self.view_matrix.r0.y, z: self.view_matrix.r0.z }
    }

    /// Whether local orientation is used: either because the host asked
    /// for it, or because scale mode is active, which only works in local
    /// space.
    pub fn local_space(&self) -> (r: bool)
        ensures
            r == local_space_s(*self),
    {
        matches!(self.orientation, GizmoOrientation::Local) || self.modes.contains(GizmoMode::Scale)
    }
}

/// One target's transform, decomposed into scale, rotation and
/// translation.
#[derive(Debug, Clone, Copy, PartialEq, Eq, Structural)]
pub struct TargetTransform {
    pub scale: Vec3Fx,
    pub rotation: QuatFx,
    pub translation: Vec3Fx,
}

/// The working configuration derived each frame from the raw
/// configuration and the targets. It is recomputed, never patched.
#[derive(Debug, Clone, Copy, PartialEq, Eq, Structural)]
pub struct PreparedGizmoConfig {
    /// The raw configuration this was derived from.
    pub config: GizmoConfig,
    /// Rotation of the gizmo
    pub rotation: QuatFx,
    /// Translation of the gizmo
    pub translation: Vec3Fx,
    /// Scale of the gizmo
    pub scale: Vec3Fx,
    /// Combined view-projection matrix
    pub view_projection: Mat4Fx,
    /// Combined model-view-projection matrix
    pub mvp: Mat4Fx,
    /// Scale factor for the gizmo rendering, keeping its apparent pixel
    /// size constant
    pub scale_factor: Fx,
    /// How close the pointer needs to be to a subgizmo before it is
    /// focused
    pub focus_distance: Fx,
    /// Whether a left-handed projection is in use
    pub left_handed: bool,
    /// Direction from the camera to the gizmo in world space
    pub eye_to_model_dir: Vec3Fx,
}

/// Scale factor of a configuration: the bottom-right view-projection entry
/// over the first projection entry, normalized by the viewport width and
/// doubled. Zero for a degenerate projection or viewport.
pub open spec fn scale_factor_s(c: GizmoConfig) -> Fx {
    let vp = m4_mul_s(c.projection_matrix, c.view_matrix);
    let w = rect_width_s(c.viewport);
    if c.projection_matrix.r0.x == 0 || w == 0 {
        0
    } else {
        fx_mul_s(
            fx_div_s(fx_div_s(vp.r3.w as int, c.projection_matrix.r0.x as int) as int, w as int)
                as int,
            2 * FX_ONE,
        )
    }
}

/// Focus distance of a configuration: the hit-test tolerance scales with
/// the stroke width plus a five pixel margin.
pub open spec fn focus_distance_s(c: GizmoConfig) -> Fx {
    fx_mul_s(
        scale_factor_s(c) as int,
        fxc(fx_mul_s(c.visuals.stroke_width as int, 32768) + 5 * FX_ONE) as int,
    )
}

/// Handedness of a projection matrix: decided by the sign of the
/// lower-right depth entries.
pub open spec fn left_handed_s(c: GizmoConfig) -> bool {
    if c.projection_matrix.r3.z == 0 {
        c.projection_matrix.r2.z > 0
    } else {
        c.projection_matrix.r3.z > 0
    }
}

pub open spec fn from_config_s(c: GizmoConfig) -> PreparedGizmoConfig {
    let vp = m4_mul_s(c.projection_matrix, c.view_matrix);
    PreparedGizmoConfig {
        config: c,
        rotation: q_identity_s(),
        translation: v3_zero_s(),
        scale: Vec3Fx { x: FX_ONE, y: FX_ONE, z: FX_ONE },
        view_projection: vp,
        mvp: vp,
        scale_factor: scale_factor_s(c),
        focus_distance: focus_distance_s(c),
        left_handed: left_handed_s(c),
        eye_to_model_dir: v3_zero_s(),
    }
}

/// Sum of the targets' scale vectors.
pub open spec fn targets_scale_sum_s(ts: Seq<TargetTransform>) -> Vec3Fx
    decreases ts.len(),
{
    if ts.len() == 0 {
        v3_zero_s()
    } else {
        v3_add_s(targets_scale_sum_s(ts.drop_last()), ts.last().scale)
    }
}

/// Sum of the targets' translation vectors.
pub open spec fn targets_translation_sum_s(ts: Seq<TargetTransform>) -> Vec3Fx
    decreases ts.len(),
{
    if ts.len() == 0 {
        v3_zero_s()
    } else {
        v3_add_s(targets_translation_sum_s(ts.drop_last()), ts.last().translation)
    }
}

/// The rotation the gizmo adopts: the last target's, the identity with no
/// targets. Deliberately not an average: with several targets the gizmo
/// pivots in the frame of the most recently listed one.
pub open spec fn targets_rotation_s(ts: Seq<TargetTransform>) -> QuatFx {
    if ts.len() == 0 {
        q_identity_s()
    } else {
        ts.last().rotation
    }
}

/// The averaged gizmo scale over the targets; one with no targets.
pub open spec fn targets_scale_s(ts: Seq<TargetTransform>) -> Vec3Fx {
    if ts.len() == 0 {
        Vec3Fx { x: FX_ONE, y: FX_ONE, z: FX_ONE }
    } else {
        let sum = targets_scale_sum_s(ts);
        let d = ts.len() as int * (FX_ONE as int);
        Vec3Fx {
            x: fx_div_s(sum.x as int, d),
            y: fx_div_s(sum.y as int, d),
            z: fx_div_s(sum.z as int, d),
        }
    }
}

/// The averaged gizmo translation over the targets; zero with no targets.
pub open spec fn targets_translation_s(ts: Seq<TargetTransform>) -> Vec3Fx {
    if ts.len() == 0 {
        v3_zero_s()
    } else {
        let sum = targets_translation_sum_s(ts);
        let d = ts.len() as int * (FX_ONE as int);
        Vec3Fx {
            x: fx_div_s(sum.x as int, d),
            y: fx_div_s(sum.y as int, d),
            z: fx_div_s(sum.z as int, d),
        }
    }
}

/// The whole per-frame derivation from targets: averaged translation and
/// scale, chosen rotation, the model-view-projection product, and the
/// camera-to-gizmo direction, which degenerates to zero whenever the
/// unprojection does.
pub open spec fn update_for_targets_s(
    p: PreparedGizmoConfig,
    ts: Seq<TargetTransform>,
) -> PreparedGizmoConfig {
    let scale = targets_scale_s(ts);
    let translation = targets_translation_s(ts);
    let rotation = targets_rotation_s(ts);
    let model = m4_from_scale_rotation_translation_s(scale, rotation, translation);
    let mvp = m4_mul_s(p.view_projection, model);
    let screen_pos = match world_to_screen_s(p.config.viewport, mvp, translation) {
        Option::Some(sp) => sp,
        Option::None => Vec2Fx { x: 0, y: 0 },
    };
    let eye = match m4_inverse_s(p.view_projection) {
        Option::Some(inv) => match screen_to_world_s(
            p.config.viewport,
            inv,
            screen_pos,
            -(FX_ONE as int),
        ) {
            Option::Some(near) => v3_normalize_or_zero_s(v3_sub_s(near, translation)),
            Option::None => v3_zero_s(),
        },
        Option::None => v3_zero_s(),
    };
    PreparedGizmoConfig {
        rotation: rotation,
        translation: translation,
        scale: scale,
        mvp: mvp,
        eye_to_model_dir: eye,
        ..p
    }
}

impl PreparedGizmoConfig {
    /// Derives the target-independent working configuration from a raw
    /// configuration: the view-projection product, the scale factor that
    /// keeps handles at a constant apparent size, the focus distance, and
    /// the projection's handedness.
    pub fn from_config(config: GizmoConfig) -> (r: PreparedGizmoConfig)
        ensures
            r == from_config_s(config),
    {
        let vp = m4_mul(&config.projection_matrix, &config.view_matrix);
        let w: i64 = rect_width(&config.viewport);
        let scale_factor: i64 = if config.projection_matrix.r0.x == 0 || w == 0 {
            0
        } else {
            fx_mul(fx_div(fx_div(vp.r3.w, config.projection_matrix.r0.x), w), 2 * FX_ONE)
        };
        let focus_distance: i64 = fx_mul(
            scale_factor,
            fx_add(fx_mul(config.visuals.stroke_width, 32768), 5 * FX_ONE),
        );
        let left_handed: bool = if config.projection_matrix.r3.z == 0 {
            config.projection_matrix.r2.z > 0
        } else {
            config.projection_matrix.r3.z > 0
        };
        PreparedGizmoConfig {
            config: config,
            rotation: q_identity(),
            translation: v3_zero(),
            scale: Vec3Fx { x: FX_ONE, y: FX_ONE, z: FX_ONE },
            view_projection: vp,
            mvp: vp,
            scale_factor: scale_factor,
            focus_distance: focus_distance,
            left_handed: left_handed,
            eye_to_model_dir: v3_zero(),
        }
    }

    /// Re-derives the per-frame state from the current targets. The camera
    /// part of the working configuration, the scale factor and the focus
    /// distance among it, never depends on the targets.
    #[verifier::rlimit(100)]
    pub fn update_for_targets(&mut self, targets: &Vec<TargetTransform>) -> (nothing: ())
        requires
            targets@.len() < 0x1000000,
        ensures
            *final(self) == update_for_targets_s(*old(self), targets@),
            final(self).scale_factor == old(self).scale_factor,
            final(self).focus_distance == old(self).focus_distance,
            final(self).left_handed == old(self).left_handed,
            final(self).config == old(self).config,
            final(self).view_projection == old(self).view_projection,
    {
        let mut scale_sum = v3_zero();
        let mut translation_sum = v3_zero();
        let mut rotation = q_identity();
        let mut i: usize = 0;
        while i < targets.len()
            invariant
                i <= targets@.len(),
                targets@.len() < 0x1000000,
                scale_sum == targets_scale_sum_s(targets@.subrange(0, i as int)),
                translation_sum == targets_translation_sum_s(targets@.subrange(0, i as int)),
                rotation == targets_rotation_s(targets@.subrange(0, i as int)),
            decreases targets@.len() - i,
        {
            proof {
                assert(targets@.subrange(0, i + 1 as int).drop_last() =~= targets@.subrange(
                    0,
                    i as int,
                ));
                assert(targets@.subrange(0, i + 1 as int).last() == targets@[i as int]);
            }
            scale_sum = v3_add(scale_sum, targets[i].scale);
            translation_sum = v3_add(translation_sum, targets[i].translation);
            rotation = targets[i].rotation;
            i = i + 1;
        }
        proof {
            assert(targets@.subrange(0, targets@.len() as int) =~= targets@);
        }
        let n: usize = targets.len();
        let scale: Vec3Fx;
        let translation: Vec3Fx;
        if n == 0 {
            scale = Vec3Fx { x: FX_ONE, y: FX_ONE, z: FX_ONE };
            translation = v3_zero();
        } else {
            let d: i64 = (n as i64) * FX_ONE;
            scale = Vec3Fx {
                x: fx_div(scale_sum.x, d),
                y: fx_div(scale_sum.y, d),
                z: fx_div(scale_sum.z, d),
            };
            translation = Vec3Fx {
                x: fx_div(translation_sum.x, d),
                y: fx_div(translation_sum.y, d),
                z: fx_div(translation_sum.z, d),
            };
        }
        let model = m4_from_scale_rotation_translation(scale, rotation, translation);
        let mvp = m4_mul(&self.view_projection, &model);
        let screen_pos: Vec2Fx = match world_to_screen(&self.config.viewport, &mvp, translation) {
            Option::Some(sp) => sp,
            Option::None => Vec2Fx { x: 0, y: 0 },
        };
        let eye: Vec3Fx = match m4_inverse(&self.view_projection) {
            Option::Some(inv) => match screen_to_world(
                &self.config.viewport,
                &inv,
                screen_pos,
                -FX_ONE,
            ) {
                Option::Some(near) => v3_normalize_or_zero(v3_sub(near, translation)),
                Option::None => v3_zero(),
            },
            Option::None => v3_zero(),
        };
        self.rotation = rotation;
        self.translation = translation;
        self.scale = scale;
        self.mvp = mvp;
        self.eye_to_model_dir = eye;
    }
}

/// The apparent-size law: the scale factor and focus distance of a working
/// configuration are functions of the camera and viewport alone, so moving
/// the targets (in particular translating the gizmo along the view axis
/// under a perspective camera) never changes the gizmo's apparent size.
pub proof fn lemma_scale_factor_ignores_targets(
    p: PreparedGizmoConfig,
    t1: Seq<TargetTransform>,
    t2: Seq<TargetTransform>,
)
    ensures
        update_for_targets_s(p, t1).scale_factor == update_for_targets_s(p, t2).scale_factor,
        update_for_targets_s(p, t1).focus_distance == update_for_targets_s(p, t2).focus_distance,
{
}

/// However the targets move between frames, the scale factor of the
/// working configuration stays the one derived from the camera.
pub proof fn lemma_apparent_size_constant(c: GizmoConfig, ts: Seq<TargetTransform>)
    ensures
        update_for_targets_s(from_config_s(c), ts).scale_factor == scale_factor_s(c),
        update_for_targets_s(from_config_s(c), ts).focus_distance == focus_distance_s(c),
{
}

} // verus!
