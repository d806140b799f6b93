//! Drawable, updatable world objects.
//!
//! An entity is a position in world space, a texture shared with every
//! entity using the same sprite sheet, and local animation state: the
//! current frame index and a hold counter. When the counter runs out
//! the frame index advances by a wrapping increment modulo the frame
//! count and the counter resets to the hold duration; the animation
//! cycles indefinitely.

use vstd::prelude::*;

use crate::texture::Texture;
use crate::types::{fits_i32, Rect, Vec2};

verus! {

/// How many update passes each animation frame is held for.
pub const HOLD_DURATION: usize = 20;

/// The fixed display size of a sprite entity's world rectangle.
pub const DISPLAY_SIZE: i32 = 200;

/// What an entity asks the renderer to draw for it this frame.
pub struct EntityDrawInfo {
    /// The rectangle the entity occupies in world space.
    pub world_rect: Rect,
    /// The atlas to draw from.
    pub texture: Texture,
    /// The frame of the atlas to draw.
    pub texture_idx: usize,
}

/// A walking character: the one concrete entity kind of the engine.
pub struct CharacterEntity {
    /// The sprite-sheet atlas the entity animates through.
    pub texture: Texture,
    /// Center of the entity in world space.
    pub position: Vec2,
    /// Current animation frame; always below the atlas frame count.
    pub anim_idx: usize,
    /// Update passes left until the next frame advance.
    pub anim_delay: usize,
}

impl CharacterEntity {
    /// The entity invariant: a valid frame index into a non-empty,
    /// well-formed atlas, and a live hold counter.
    pub open spec fn wf(self) -> bool {
        &&& self.texture.wf()
        &&& self.anim_idx < self.texture.frames@.len()
        &&& 1 <= self.anim_delay <= HOLD_DURATION
    }

    /// A fresh entity at `pos`, showing the first frame.
    pub fn new(texture: Texture, pos: Vec2) -> (e: Self)
        requires
            texture.wf(),
            texture.frames@.len() > 0,
        ensures
            e.texture == texture,
            e.position == pos,
            e.anim_idx == 0,
            e.anim_delay == HOLD_DURATION,
            e.wf(),
    {
        CharacterEntity { texture, position: pos, anim_idx: 0, anim_delay: HOLD_DURATION }
    }

    /// Current world-space position.
    pub fn pos(&self) -> (p: Vec2)
        ensures
            p == self.position,
    {
        self.position
    }

    /// Move the entity; animation state is untouched.
    pub fn set_pos(&mut self, new_pos: Vec2)
        ensures
            final(self).position == new_pos,
            final(self).texture == old(self).texture,
            final(self).anim_idx == old(self).anim_idx,
            final(self).anim_delay == old(self).anim_delay,
    {
        self.position = new_pos;
    }

    /// How one update pass changes an entity: the position and texture
    /// stay, the hold counter counts down, and on expiry the frame
    /// index advances modulo the frame count while the counter resets.
    pub open spec fn spec_updated(pre: Self, post: Self) -> bool {
        &&& post.position == pre.position
        &&& post.texture == pre.texture
        &&& (pre.anim_delay > 1 ==> post.anim_idx == pre.anim_idx && post.anim_delay
            == pre.anim_delay - 1)
        &&& (pre.anim_delay == 1 ==> post.anim_idx == (pre.anim_idx + 1) % (
        pre.texture.frames@.len() as int) && post.anim_delay == HOLD_DURATION)
    }

    /// Advance the local animation state by one pass.
    pub fn update(&mut self)
        requires
            old(self).wf(),
        ensures
            final(self).wf(),
            Self::spec_updated(*old(self), *final(self)),
    {
        self.anim_delay = self.anim_delay - 1;
        if self.anim_delay == 0 {
            // next frame
            self.anim_delay = HOLD_DURATION;
            let frame_count = self.texture.len();
            self.anim_idx = (self.anim_idx + 1) % frame_count;
        }
    }

    /// The draw rectangle, atlas and frame for the current state: a
    /// rectangle of the fixed display size centered at the position.
    pub fn get_draw_info(&self) -> (info: EntityDrawInfo)
        requires
            fits_i32(self.position.x - DISPLAY_SIZE / 2),
            fits_i32(self.position.y - DISPLAY_SIZE / 2),
        ensures
            info.world_rect.x == self.position.x - DISPLAY_SIZE / 2,
            info.world_rect.y == self.position.y - DISPLAY_SIZE / 2,
            info.world_rect.w == DISPLAY_SIZE,
            info.world_rect.h == DISPLAY_SIZE,
            info.texture.image == self.texture.image,
            info.texture.frames@ == self.texture.frames@,
            info.texture_idx == self.anim_idx,
    {
        EntityDrawInfo {
            world_rect: Rect::from_center_size(
                self.position,
                Vec2 { x: DISPLAY_SIZE, y: DISPLAY_SIZE },
            ),
            texture: self.texture.clone(),
            texture_idx: self.anim_idx,
        }
    }
}

} // verus!
