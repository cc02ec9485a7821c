use vstd::prelude::*;

use crate::gpu::Queue;
use crate::math::{spec_mul_fp, spec_sat_add, spec_vec3_add, mul_fp, sat_add, Vec3};

verus! {

/// How a positional value is applied to a current position.
///
/// - `Overwrite` replaces the position outright; nothing is offset.
/// - `Offset` adds the vector to the current position.
/// - `OffsetViewAligned` first rotates the vector into the current view basis
///   (forward follows where the camera looks), then offsets. Only meaningful
///   when the view orientation is known; with an unknown orientation it
///   behaves exactly as `Offset` — a documented degradation, not an error.
#[derive(Clone, Copy, Debug, PartialEq, Eq, Structural)]
pub enum Mode<T> {
    Overwrite(T),
    Offset(T),
    OffsetViewAligned(T),
}

/// A pending change of position: the vector together with its [`Mode`].
pub type PositionChange = Mode<Vec3>;

/// A known view orientation: the camera's right/up/forward basis, each axis a
/// fixed-point unit-length vector.
#[derive(Clone, Copy, Debug, PartialEq, Eq, Structural)]
pub struct Orientation {
    pub right: Vec3,
    pub up: Vec3,
    pub forward: Vec3,
}

/// `v` rotated into the basis `o`: the linear combination of the basis axes
/// weighted by the components of `v`, on clamped fixed-point operands.
pub open spec fn spec_rotate(o: Orientation, v: Vec3) -> Vec3 {
    Vec3 {
        x: spec_sat_add(
            spec_sat_add(spec_mul_fp(o.right.x as int, v.x as int), spec_mul_fp(o.up.x as int, v.y as int)),
            spec_mul_fp(o.forward.x as int, v.z as int),
        ) as i64,
        y: spec_sat_add(
            spec_sat_add(spec_mul_fp(o.right.y as int, v.x as int), spec_mul_fp(o.up.y as int, v.y as int)),
            spec_mul_fp(o.forward.y as int, v.z as int),
        ) as i64,
        z: spec_sat_add(
            spec_sat_add(spec_mul_fp(o.right.z as int, v.x as int), spec_mul_fp(o.up.z as int, v.y as int)),
            spec_mul_fp(o.forward.z as int, v.z as int),
        ) as i64,
    }
}

/// The new position produced by applying `change` to `current` under a
/// possibly unknown `orientation` (see [`Mode`] for the three behaviours).
pub open spec fn spec_resolve_position(
    current: Vec3,
    orientation: Option<Orientation>,
    change: Mode<Vec3>,
) -> Vec3 {
    match change {
        Mode::Overwrite(v) => v,
        Mode::Offset(v) => spec_vec3_add(current, v),
        Mode::OffsetViewAligned(v) => match orientation {
            Option::Some(o) => spec_vec3_add(current, spec_rotate(o, v)),
            Option::None => spec_vec3_add(current, v),
        },
    }
}

/// Rotates `v` into the basis `o` (clamped fixed-point arithmetic).
pub fn rotate(o: &Orientation, v: Vec3) -> (r: Vec3)
    ensures
        r == spec_rotate(*o, v),
{
    Vec3 {
        x: sat_add(sat_add(mul_fp(o.right.x, v.x), mul_fp(o.up.x, v.y)), mul_fp(o.forward.x, v.z)),
        y: sat_add(sat_add(mul_fp(o.right.y, v.x), mul_fp(o.up.y, v.y)), mul_fp(o.forward.y, v.z)),
        z: sat_add(sat_add(mul_fp(o.right.z, v.x), mul_fp(o.up.z, v.y)), mul_fp(o.forward.z, v.z)),
    }
}

/// State-free position-mode resolution: applies one [`PositionChange`] to a
/// current position under a possibly unknown orientation.
pub fn resolve_position(current: Vec3, orientation: &Option<Orientation>, change: &PositionChange)
    -> (r: Vec3)
    ensures
        r == spec_resolve_position(current, *orientation, *change),
{
    match change {
        Mode::Overwrite(v) => *v,
        Mode::Offset(v) => current.add_sat(*v),
        Mode::OffsetViewAligned(v) => match orientation {
            Option::Some(o) => current.add_sat(rotate(o, *v)),
            Option::None => current.add_sat(*v),
        },
    }
}

/// A view-aligned offset with an unknown orientation produces the identical
/// result to a plain offset of the same vector.
pub proof fn lemma_view_aligned_degrades_to_offset(current: Vec3, v: Vec3)
    ensures
        spec_resolve_position(current, Option::None, Mode::OffsetViewAligned(v))
            == spec_resolve_position(current, Option::None, Mode::Offset(v)),
{
}

/// Static description of a camera: its identifier and starting position.
pub struct CameraDescriptor {
    pub identifier: String,
    pub position: Vec3,
}

/// A pending camera update addressed to the camera named `target`.
pub struct CameraChange {
    pub target: String,
    pub position: Option<PositionChange>,
}

impl CameraChange {
    /// Whether applying this change would alter anything.
    pub fn does_change_something(&self) -> (r: bool)
        ensures
            r == self.position is Some,
    {
        self.position.is_some()
    }
}

/// The camera collaborator: receives [`CameraChange`] values and exposes its
/// current orientation for view-aligned resolution.
pub struct Camera {
    pub identifier: String,
    pub position: Vec3,
    pub orientation: Option<Orientation>,
}

/// The camera state after one change: the position is resolved when the
/// change addresses this camera and carries a position change; anything else
/// leaves the camera untouched.
pub open spec fn spec_apply_camera_change(c: Camera, change: CameraChange) -> Camera {
    if change.target@ == c.identifier@ {
        match change.position {
            Option::Some(pc) => Camera {
                position: spec_resolve_position(c.position, c.orientation, pc),
                ..c
            },
            Option::None => c,
        }
    } else {
        c
    }
}

impl Camera {
    /// A camera at the descriptor's starting position, orientation unknown.
    pub fn from_descriptor(descriptor: CameraDescriptor) -> (c: Camera)
        ensures
            c.identifier == descriptor.identifier,
            c.position == descriptor.position,
            c.orientation is None,
    {
        Camera {
            identifier: descriptor.identifier,
            position: descriptor.position,
            orientation: Option::None,
        }
    }

    /// Applies one pending change; the queue capability stands for the upload
    /// of the updated camera state to the GPU.
    pub fn apply_camera_change(&mut self, _queue: &Queue, change: CameraChange)
        ensures
            *final(self) == spec_apply_camera_change(*old(self), change),
    {
        if self.identifier == change.target {
            match change.position {
                Option::Some(pc) => {
                    self.position = resolve_position(self.position, &self.orientation, &pc);
                },
                Option::None => {},
            }
        }
    }
}

} // verus!
