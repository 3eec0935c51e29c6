//! Interaction core of an in-viewport 3D transform gizmo.
//!
//! Given a camera view and projection, a set of target transforms and a
//! per-frame pointer ray, the library decides which manipulation handle the
//! pointer is hovering or dragging and computes the incremental transform to
//! apply to the targets. All scalars are saturating fixed-point numbers, so
//! every function here is total and verified; the host application converts
//! to and from its own floating-point types at the boundary.

pub mod math;
pub mod config;
pub mod subgizmo;

use vstd::prelude::*;

verus! {

use crate::math::fx::Fx;
use crate::math::vec::{Vec3Fx, QuatFx};
use crate::config::GizmoMode;

/// A pointer ray in world space: an origin and a direction, normalized by
/// the host before it is handed in.
#[derive(Debug, Clone, Copy, PartialEq, Eq, Structural)]
pub struct Ray {
    pub origin: Vec3Fx,
    pub direction: Vec3Fx,
}

/// What a successful update of an active handle produces: the absolute
/// transform to apply to the targets, the mode that produced it, and the
/// raw per-axis delta for consumers that want the unprocessed magnitude.
#[derive(Debug, Clone, Copy, PartialEq, Eq, Structural)]
pub struct GizmoResult {
    pub scale: Vec3Fx,
    pub rotation: QuatFx,
    pub translation: Vec3Fx,
    pub mode: GizmoMode,
    pub value: Vec3Fx,
}

/// Chooses the active handle among the per-handle pick results: the winner
/// is the handle with the smallest hit ray parameter, the earliest one on a
/// tie, so arbitration is deterministic.
pub fn select_active(picks: &Vec<Option<Fx>>) -> (r: Option<usize>)
    ensures
        match r {
            Some(w) => {
                &&& w < picks@.len()
                &&& picks@[w as int] is Some
                &&& forall|j: int|
                    0 <= j < picks@.len() && picks@[j] is Some ==> picks@[w as int]->0
                        <= picks@[j]->0
                &&& forall|j: int|
                    0 <= j < w && picks@[j] is Some ==> picks@[w as int]->0 < picks@[j]->0
            },
            None => forall|j: int| 0 <= j < picks@.len() ==> picks@[j] is None,
        },
{
    let mut best: Option<usize> = None;
    let mut i: usize = 0;
    while i < picks.len()
        invariant
            i <= picks@.len(),
            match best {
                Some(w) => {
                    &&& w < i
                    &&& picks@[w as int] is Some
                    &&& forall|j: int|
                        0 <= j < i && picks@[j] is Some ==> picks@[w as int]->0 <= picks@[j]->0
                    &&& forall|j: int|
                        0 <= j < w && picks@[j] is Some ==> picks@[w as int]->0 < picks@[j]->0
                },
                None => forall|j: int| 0 <= j < i ==> picks@[j] is None,
            },
        decreases picks@.len() - i,
    {
        match picks[i] {
            Some(t) => {
                match best {
                    Some(w) => {
                        if t < picks[w].unwrap() {
                            best = Some(i);
                        }
                    },
                    None => {
                        best = Some(i);
                    },
                }
            },
            None => {},
        }
        i = i + 1;
    }
    best
}

} // verus!
