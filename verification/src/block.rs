//! The interactive block: one monotonic Idle-to-Collected bit plus a small
//! decorative idle animation. Blocks are static obstacles; only the player's
//! collision pass flips the bit.

use vstd::prelude::*;
use crate::geom::{Rect, Vec2, wf_rect};
use crate::tuning::TILE_SIZE;
use crate::entity::SpriteUser;

verus! {

/// Animation identifier of a block; maps 1:1 to its collected bit.
#[derive(PartialEq, Eq, Structural, Clone, Copy, Debug)]
pub enum BlockAnim {
    Normal,
    Collected,
}

/// Frames between two steps of the idle animation.
pub const BLOCK_ANIM_PERIOD: u32 = 15;

/// Frame count of the idle animation cycle.
pub const BLOCK_ANIM_FRAMES: u32 = 3;

#[derive(PartialEq, Eq, Structural, Clone, Copy, Debug)]
pub struct MysteryBlocks {
    pub shape: Rect,
    pub collected: bool,
    /// Frames since the idle animation last advanced.
    pub sprite_update: u32,
    /// Logical frame index within the current animation.
    pub frame_index: u32,
    /// Presented frame index, last pushed out by a sprite reload.
    pub shown_frame: u32,
}

/// Counters inside their cycling ranges and a well-formed box.
pub open spec fn wf_block(b: MysteryBlocks) -> bool {
    &&& wf_rect(b.shape)
    &&& b.sprite_update <= BLOCK_ANIM_PERIOD + 1
    &&& b.frame_index < BLOCK_ANIM_FRAMES
    &&& b.shown_frame < BLOCK_ANIM_FRAMES
}

/// One frame of the decorative idle animation; a collected block holds still.
pub open spec fn spec_block_anim(b: MysteryBlocks) -> MysteryBlocks {
    if !b.collected {
        if b.sprite_update > BLOCK_ANIM_PERIOD {
            let f = (((b.frame_index + 1) as int % (BLOCK_ANIM_FRAMES as int)) as u32);
            MysteryBlocks { sprite_update: 0, frame_index: f, shown_frame: f, ..b }
        } else {
            MysteryBlocks { sprite_update: (b.sprite_update + 1) as u32, ..b }
        }
    } else {
        b
    }
}

/// Collection is one-shot: a collected block never changes again.
pub open spec fn spec_block_collect(b: MysteryBlocks) -> MysteryBlocks {
    if !b.collected {
        MysteryBlocks { collected: true, frame_index: 0, shown_frame: 0, ..b }
    } else {
        b
    }
}

/// Back to the spawn snapshot: not collected, idle animation restarted.
pub open spec fn spec_block_reset(b: MysteryBlocks) -> MysteryBlocks {
    if b.collected {
        MysteryBlocks { collected: false, frame_index: 0, shown_frame: 0, ..b }
    } else {
        b
    }
}

impl MysteryBlocks {
    /// A fresh, uncollected block of one tile at the given corner.
    pub fn new(x: i64, y: i64) -> (b: MysteryBlocks)
        ensures
            b == (MysteryBlocks {
                shape: Rect { pos: Vec2 { x, y }, w: TILE_SIZE, h: TILE_SIZE },
                collected: false,
                sprite_update: 0,
                frame_index: 0,
                shown_frame: 0,
            }),
    {
        MysteryBlocks {
            shape: Rect { pos: Vec2 { x, y }, w: TILE_SIZE, h: TILE_SIZE },
            collected: false,
            sprite_update: 0,
            frame_index: 0,
            shown_frame: 0,
        }
    }

    /// Advances the decorative idle animation one frame.
    pub fn update(&mut self)
        requires
            wf_block(*old(self)),
        ensures
            *final(self) == spec_block_anim(*old(self)),
            wf_block(*final(self)),
    {
        if !self.collected {
            if self.sprite_update > BLOCK_ANIM_PERIOD {
                self.frame_index = (self.frame_index + 1) % BLOCK_ANIM_FRAMES;
                self.shown_frame = self.frame_index;
                self.sprite_update = 0;
            } else {
                self.sprite_update = self.sprite_update + 1;
            }
        }
    }

    /// Restores the spawn snapshot; a second reset in a row changes nothing.
    pub fn reset(&mut self)
        ensures
            *final(self) == spec_block_reset(*old(self)),
            !final(self).collected,
    {
        if self.collected {
            self.collected = false;
            self.frame_index = 0;
            self.shown_frame = 0;
        }
    }

    pub fn get_rect(&self) -> (r: &Rect)
        ensures
            r == self.shape,
    {
        &self.shape
    }

    pub fn is_collected(&self) -> (r: bool)
        ensures
            r == self.collected,
    {
        self.collected
    }

    /// Marks the block collected; on an already collected block this is a
    /// no-op, so the side effect fires at most once between resets.
    pub fn collect(&mut self)
        ensures
            *final(self) == spec_block_collect(*old(self)),
            final(self).collected,
            old(self).collected ==> *final(self) == *old(self),
            final(self).shape == old(self).shape,
    {
        if !self.collected {
            self.collected = true;
            self.frame_index = 0;
            self.shown_frame = 0;
        }
    }

    /// The animation the block shows: its state, 1:1.
    pub fn current_animation(&self) -> (r: BlockAnim)
        ensures
            r == spec_block_animation(*self),
    {
        if self.collected {
            BlockAnim::Collected
        } else {
            BlockAnim::Normal
        }
    }
}

/// Animation identifier of a block state.
pub open spec fn spec_block_animation(b: MysteryBlocks) -> BlockAnim {
    if b.collected {
        BlockAnim::Collected
    } else {
        BlockAnim::Normal
    }
}

impl SpriteUser for MysteryBlocks {
    /// Pushes the logical frame out to the presented one.
    fn reload_sprite(&mut self)
        ensures
            *final(self) == (MysteryBlocks { shown_frame: old(self).frame_index, ..*old(self) }),
    {
        self.shown_frame = self.frame_index;
    }
}

} // verus!
