//! The per-frame step of the game loop.
//!
//! The platform layer runs the actual loop: it reads the buttons, calls
//! `GameState::step` with the two axis readings, then waits for vertical
//! blank, commits the sprite states to the display and refreshes the
//! input device. Everything the loop decides — where sprites go and
//! which frame they show — happens here, on plain values.

use vstd::prelude::*;
use crate::animation::AnimationTag;
use crate::animation::FrameCounter;
use crate::animation::FRAMES_PER_STEP;
use crate::animation::WALK_PERIOD;
use crate::animation::spec_frame_index;
use crate::entity::Entity;
use crate::entity::SpriteState;
use crate::space::ScreenVector;
use crate::space::WorldVector;
use crate::space::projectable;
use crate::space::spec_project_x;
use crate::space::spec_project_y;

verus! {

/// One axis of directional input: a debounced tri-state reading.
#[derive(Clone, Copy, PartialEq, Eq, Structural, Debug)]
pub enum AxisTri {
    /// The negative direction is held.
    Minus,
    /// Neither direction is held.
    Zero,
    /// The positive direction is held.
    Plus,
}

impl AxisTri {
    /// The displacement this reading stands for: -1, 0 or +1.
    pub open spec fn spec_delta(self) -> int {
        match self {
            AxisTri::Minus => -1,
            AxisTri::Zero => 0,
            AxisTri::Plus => 1,
        }
    }

    /// The displacement this reading stands for, as an integer.
    pub fn delta(self) -> (d: i32)
        ensures
            d == self.spec_delta(),
    {
        match self {
            AxisTri::Minus => -1,
            AxisTri::Zero => 0,
            AxisTri::Plus => 1,
        }
    }
}

/// The whole mutable state the frame loop owns: the player's sprite, the
/// shared frame counter, the camera and the one placeholder projectile.
pub struct GameState {
    /// The player's sprite slot. The player is moved directly in screen
    /// space by input, one pixel per axis per frame.
    pub player: SpriteState,
    /// Frame counter driving the player's walking animation.
    pub counter: FrameCounter,
    /// World point mapped to the center of the viewport.
    pub camera: WorldVector,
    /// Inert projectile placeholder, positioned in world space.
    pub bullet: Entity,
}

impl GameState {
    /// Whether the state is well formed: the animation counter is.
    pub open spec fn wf(self) -> bool {
        self.counter.wf()
    }

    /// The state at game start: player sprite visible at the screen
    /// origin showing the first walking frame, counter at zero with the
    /// walking period, camera at the world origin, and the projectile
    /// visible at the world origin.
    pub fn new(walking: &AnimationTag, bullet_frame: u32) -> (state: GameState)
        requires
            walking.wf(),
        ensures
            state.wf(),
            state.player.visible,
            state.player.screen_x == 0,
            state.player.screen_y == 0,
            state.player.frame == walking.frames[0],
            state.counter.value == 0,
            state.counter.period == WALK_PERIOD,
            state.camera.x.raw == 0,
            state.camera.y.raw == 0,
            state.bullet.sprite.visible,
            state.bullet.sprite.frame == bullet_frame,
            state.bullet.position.x.raw == 0,
            state.bullet.position.y.raw == 0,
    {
        let mut player = SpriteState::new(walking.frame_at(0, FRAMES_PER_STEP));
        player.show();
        GameState {
            player,
            counter: FrameCounter::new(WALK_PERIOD),
            camera: WorldVector::origin(),
            bullet: Entity::new(bullet_frame),
        }
    }

    /// Whether one step from this state with the given input stays
    /// within machine limits: the player's screen position can absorb
    /// the input displacement, and the projectile's camera-relative
    /// position is representable.
    pub open spec fn step_fits(self, input_x: AxisTri, input_y: AxisTri) -> bool {
        &&& i32::MIN <= self.player.screen_x + input_x.spec_delta() <= i32::MAX
        &&& i32::MIN <= self.player.screen_y + input_y.spec_delta() <= i32::MAX
        &&& projectable(self.bullet.position, self.camera)
    }

    /// One iteration of the frame loop's decisions, between the input
    /// read and the commit: displace the player's sprite by the input
    /// tri-states, advance the frame counter by one tick (wrapping at
    /// its period), select the walking frame the counter now calls for,
    /// and recompute the projectile's screen position from its world
    /// position and the camera. The camera and all world positions are
    /// unchanged.
    pub fn step(&mut self, walking: &AnimationTag, input_x: AxisTri, input_y: AxisTri)
        requires
            old(self).wf(),
            walking.wf(),
            old(self).step_fits(input_x, input_y),
        ensures
            final(self).wf(),
            final(self).player.screen_x == old(self).player.screen_x + input_x.spec_delta(),
            final(self).player.screen_y == old(self).player.screen_y + input_y.spec_delta(),
            final(self).player.visible == old(self).player.visible,
            final(self).counter.period == old(self).counter.period,
            final(self).counter.value == (old(self).counter.value + 1) % (
            old(self).counter.period as int),
            final(self).player.frame == walking.frames[spec_frame_index(
                final(self).counter.value as int,
                FRAMES_PER_STEP as int,
                walking.frames.len() as int,
            )],
            final(self).camera == old(self).camera,
            final(self).bullet.position == old(self).bullet.position,
            final(self).bullet.sprite.visible == old(self).bullet.sprite.visible,
            final(self).bullet.sprite.frame == old(self).bullet.sprite.frame,
            final(self).bullet.sprite.screen_x == spec_project_x(
                old(self).bullet.position,
                old(self).camera,
            ),
            final(self).bullet.sprite.screen_y == spec_project_y(
                old(self).bullet.position,
                old(self).camera,
            ),
    {
        let moved = ScreenVector {
            x: self.player.screen_x + input_x.delta(),
            y: self.player.screen_y + input_y.delta(),
        };
        self.player.set_position(moved);
        self.counter.advance();
        let frame = walking.frame_at(self.counter.value, FRAMES_PER_STEP);
        self.player.set_frame(frame);
        self.bullet.render(self.camera);
    }
}

} // verus!
