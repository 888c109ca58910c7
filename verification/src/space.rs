//! World-space and screen-space coordinates, and the projection between
//! them.
//!
//! World space is the scrolling coordinate system gameplay logic operates
//! in, expressed in fixed-point. Screen space is the fixed-size integer
//! pixel grid of the viewport. `world_to_screen` is the single seam
//! between the two.

use vstd::prelude::*;
use crate::fixed::FixedScalar;
use crate::fixed::spec_trunc;

verus! {

/// Width of the viewport in pixels.
pub const VIEWPORT_WIDTH: i32 = 240;

/// Height of the viewport in pixels.
pub const VIEWPORT_HEIGHT: i32 = 160;

/// A position or displacement in the scrolling world.
#[derive(Clone, Copy, PartialEq, Eq, Structural, Debug)]
pub struct WorldVector {
    pub x: FixedScalar,
    pub y: FixedScalar,
}

/// A position on the viewport's integer pixel grid. Derived from world
/// positions only through `world_to_screen`; never mutated directly.
#[derive(Clone, Copy, PartialEq, Eq, Structural, Debug)]
pub struct ScreenVector {
    pub x: i32,
    pub y: i32,
}

impl WorldVector {
    /// The world origin.
    pub fn origin() -> (v: WorldVector)
        ensures
            v.x.raw == 0,
            v.y.raw == 0,
    {
        WorldVector { x: FixedScalar::from_raw(0), y: FixedScalar::from_raw(0) }
    }

    /// Componentwise exact addition.
    pub fn add(self, other: WorldVector) -> (v: WorldVector)
        requires
            i32::MIN <= self.x.raw + other.x.raw <= i32::MAX,
            i32::MIN <= self.y.raw + other.y.raw <= i32::MAX,
        ensures
            v.x.raw == self.x.raw + other.x.raw,
            v.y.raw == self.y.raw + other.y.raw,
    {
        WorldVector { x: self.x.add(other.x), y: self.y.add(other.y) }
    }

    /// Componentwise exact subtraction.
    pub fn sub(self, other: WorldVector) -> (v: WorldVector)
        requires
            i32::MIN <= self.x.raw - other.x.raw <= i32::MAX,
            i32::MIN <= self.y.raw - other.y.raw <= i32::MAX,
        ensures
            v.x.raw == self.x.raw - other.x.raw,
            v.y.raw == self.y.raw - other.y.raw,
    {
        WorldVector { x: self.x.sub(other.x), y: self.y.sub(other.y) }
    }

    /// Componentwise exact multiplication by an integer scalar.
    pub fn scale(self, k: i32) -> (v: WorldVector)
        requires
            i32::MIN <= self.x.raw * k <= i32::MAX,
            i32::MIN <= self.y.raw * k <= i32::MAX,
        ensures
            v.x.raw == self.x.raw * k,
            v.y.raw == self.y.raw * k,
    {
        WorldVector { x: self.x.scale(k), y: self.y.scale(k) }
    }
}

/// Whether the displacement from `camera` to `position` is representable,
/// the precondition of projecting `position` under `camera`.
pub open spec fn projectable(position: WorldVector, camera: WorldVector) -> bool {
    &&& i32::MIN <= position.x.raw - camera.x.raw <= i32::MAX
    &&& i32::MIN <= position.y.raw - camera.y.raw <= i32::MAX
}

/// Screen x-coordinate of a world position under a camera: the truncated
/// x-displacement from the camera, shifted to the viewport's horizontal
/// center.
pub open spec fn spec_project_x(position: WorldVector, camera: WorldVector) -> int {
    spec_trunc(position.x.raw - camera.x.raw) + VIEWPORT_WIDTH / 2
}

/// Screen y-coordinate of a world position under a camera.
pub open spec fn spec_project_y(position: WorldVector, camera: WorldVector) -> int {
    spec_trunc(position.y.raw - camera.y.raw) + VIEWPORT_HEIGHT / 2
}

/// Given a world position and the camera position in the world, returns
/// the position on the screen: the camera's world position maps to the
/// center of the viewport, and fractional pixels are truncated toward
/// zero.
pub fn world_to_screen(position: WorldVector, camera: WorldVector) -> (screen: ScreenVector)
    requires
        projectable(position, camera),
    ensures
        screen.x == spec_project_x(position, camera),
        screen.y == spec_project_y(position, camera),
{
    let delta = position.sub(camera);
    ScreenVector {
        x: delta.x.trunc() + VIEWPORT_WIDTH / 2,
        y: delta.y.trunc() + VIEWPORT_HEIGHT / 2,
    }
}

/// Translation invariance of the projection: moving the world position
/// and the camera by one and the same displacement leaves the screen
/// position unchanged. `moved_position` and `moved_camera` are `position`
/// and `camera` translated by the common displacement `shift`.
pub proof fn lemma_projection_translation_invariance(
    position: WorldVector,
    camera: WorldVector,
    shift: WorldVector,
    moved_position: WorldVector,
    moved_camera: WorldVector,
)
    requires
        moved_position.x.raw == position.x.raw + shift.x.raw,
        moved_position.y.raw == position.y.raw + shift.y.raw,
        moved_camera.x.raw == camera.x.raw + shift.x.raw,
        moved_camera.y.raw == camera.y.raw + shift.y.raw,
    ensures
        spec_project_x(moved_position, moved_camera) == spec_project_x(position, camera),
        spec_project_y(moved_position, moved_camera) == spec_project_y(position, camera),
{
}

/// Centering: a world position that coincides with the camera projects
/// exactly to the center of the viewport.
pub proof fn lemma_projection_centering(camera: WorldVector)
    ensures
        spec_project_x(camera, camera) == VIEWPORT_WIDTH / 2,
        spec_project_y(camera, camera) == VIEWPORT_HEIGHT / 2,
{
}

} // verus!
