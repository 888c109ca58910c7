//! Renderable game objects and the sprite state they own.
//!
//! A `SpriteState` mirrors the per-sprite state that the hardware
//! compositor holds for one sprite slot: visibility, screen position and
//! the displayed frame. The platform layer copies it to the real slot
//! once per frame at commit time. An `Entity` owns one sprite state and
//! a world position; rendering recomputes the sprite's screen position
//! from the world position and the camera.

use vstd::prelude::*;
use crate::space::WorldVector;
use crate::space::ScreenVector;
use crate::space::projectable;
use crate::space::spec_project_x;
use crate::space::spec_project_y;
use crate::space::world_to_screen;

verus! {

/// The state of one sprite slot: what the compositor will display for it
/// after the next commit.
#[derive(Clone, Copy, PartialEq, Eq, Structural, Debug)]
pub struct SpriteState {
    /// Whether the sprite is displayed at all.
    pub visible: bool,
    /// Screen position of the sprite, in pixels.
    pub screen_x: i32,
    /// Screen position of the sprite, in pixels.
    pub screen_y: i32,
    /// Sprite-frame descriptor currently displayed.
    pub frame: u32,
}

impl SpriteState {
    /// A hidden sprite showing the given frame at the screen origin.
    pub fn new(frame: u32) -> (s: SpriteState)
        ensures
            !s.visible,
            s.screen_x == 0,
            s.screen_y == 0,
            s.frame == frame,
    {
        SpriteState { visible: false, screen_x: 0, screen_y: 0, frame }
    }

    /// Marks the sprite visible.
    pub fn show(&mut self)
        ensures
            final(self).visible,
            final(self).screen_x == old(self).screen_x,
            final(self).screen_y == old(self).screen_y,
            final(self).frame == old(self).frame,
    {
        self.visible = true;
    }

    /// Moves the sprite to the given screen position.
    pub fn set_position(&mut self, position: ScreenVector)
        ensures
            final(self).screen_x == position.x,
            final(self).screen_y == position.y,
            final(self).visible == old(self).visible,
            final(self).frame == old(self).frame,
    {
        self.screen_x = position.x;
        self.screen_y = position.y;
    }

    /// Changes the displayed sprite frame.
    pub fn set_frame(&mut self, frame: u32)
        ensures
            final(self).frame == frame,
            final(self).visible == old(self).visible,
            final(self).screen_x == old(self).screen_x,
            final(self).screen_y == old(self).screen_y,
    {
        self.frame = frame;
    }
}

/// A renderable game object: a sprite state it owns exclusively, and a
/// world position.
#[derive(Clone, Copy, PartialEq, Eq, Structural, Debug)]
pub struct Entity {
    /// The sprite slot state owned by this entity.
    pub sprite: SpriteState,
    /// Position in world space; never rendered directly, only projected.
    pub position: WorldVector,
}

impl Entity {
    /// A new entity showing the given sprite frame at the world origin.
    /// Its sprite is marked visible from the start, before any render.
    pub fn new(frame: u32) -> (e: Entity)
        ensures
            e.sprite.visible,
            e.sprite.frame == frame,
            e.position.x.raw == 0,
            e.position.y.raw == 0,
    {
        let mut entity = Entity {
            sprite: SpriteState::new(frame),
            position: WorldVector::origin(),
        };
        entity.sprite.show();
        entity
    }

    /// Recomputes this entity's screen position from its world position
    /// and the camera, and writes it to the sprite state. Nothing else
    /// about the entity changes.
    pub fn render(&mut self, camera: WorldVector)
        requires
            projectable(old(self).position, camera),
        ensures
            final(self).position == old(self).position,
            final(self).sprite.screen_x == spec_project_x(old(self).position, camera),
            final(self).sprite.screen_y == spec_project_y(old(self).position, camera),
            final(self).sprite.visible == old(self).sprite.visible,
            final(self).sprite.frame == old(self).sprite.frame,
    {
        let screen = world_to_screen(self.position, camera);
        self.sprite.set_position(screen);
    }
}

} // verus!
