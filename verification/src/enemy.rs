//! The patrol hazard: walks at constant speed in its facing direction,
//! falls under ramped gravity, bounces back off walls and the world's left
//! edge, and dies either from a stomp or from falling out of the world.

use vstd::prelude::*;
use crate::geom::{
    Rect, Vec2, wf_rect, wf_vel, bounded_rect, vel_in_wide, spec_v_contact, spec_h_contact,
    rect_vs_rect_vertically, rect_vs_rect_horizontally,
};
use crate::ramp::{RampTimer, spec_ticked, spec_pull};
use crate::tile::{Tile, TileMap, wf_tiles};
use crate::tuning::{Direction, TILE_SIZE, ENEMY_SPEED, ENEMY_GRAVITY, ENEMY_DEATH_FRAMES};
use crate::entity::SpriteUser;

verus! {

/// Animation identifier of an enemy.
#[derive(PartialEq, Eq, Structural, Clone, Copy, Debug)]
pub enum GoombaAnim {
    Walk,
    Dead,
}

/// Frames between two steps of the walk animation.
pub const GOOMBA_ANIM_PERIOD: u32 = 10;

/// Frame count of the walk animation cycle.
pub const GOOMBA_ANIM_FRAMES: u32 = 2;

#[derive(PartialEq, Eq, Structural, Clone, Copy, Debug)]
pub struct Goomba {
    /// Spawn snapshot: position, facing and frozen flag at construction.
    pub spos: Vec2,
    pub sdirection: Direction,
    pub sfreeze: bool,
    pub shape: Rect,
    pub velocity: Vec2,
    pub direction: Direction,
    pub walk_frame_cnt: u32,
    pub die_frame_cnt: u32,
    /// Dying: immune to physics, shows the death pose.
    pub dead: bool,
    /// Removed: excluded from update and draw.
    pub disappear: bool,
    /// Velocity and AI suppressed until an external trigger clears this.
    pub freeze: bool,
    pub fall_timer: RampTimer,
    pub frame_index: u32,
    pub shown_frame: u32,
}

/// Bounds every constructor establishes and every frame keeps, given the
/// result stays in the world range; an enemy never moves upward.
pub open spec fn wf_goomba(g: Goomba) -> bool {
    &&& wf_rect(g.shape)
    &&& crate::geom::in_world(g.spos.x)
    &&& crate::geom::in_world(g.spos.y)
    &&& wf_vel(g.velocity)
    &&& g.velocity.y <= 0
    &&& g.walk_frame_cnt <= GOOMBA_ANIM_PERIOD + 1
    &&& g.die_frame_cnt <= ENEMY_DEATH_FRAMES + 1
    &&& g.frame_index < GOOMBA_ANIM_FRAMES
    &&& g.shown_frame < GOOMBA_ANIM_FRAMES
}

/// Walk phase: constant speed in the facing direction.
pub open spec fn spec_goomba_walk_vel(g: Goomba) -> Goomba {
    match g.direction {
        Direction::Left => Goomba { velocity: Vec2 { x: (-ENEMY_SPEED) as i64, ..g.velocity }, ..g },
        Direction::Right => Goomba { velocity: Vec2 { x: ENEMY_SPEED, ..g.velocity }, ..g },
        _ => g,
    }
}

/// Gravity phase: one more airborne frame, capped ramped pull added.
pub open spec fn spec_goomba_gravity(g: Goomba) -> Goomba {
    let t = spec_ticked(g.fall_timer);
    Goomba {
        fall_timer: t,
        velocity: Vec2 { y: (g.velocity.y - spec_pull(t, ENEMY_GRAVITY)) as i64, ..g.velocity },
        ..g
    }
}

/// Contact with one cell: vertical first (snap on top, stop falling, ground
/// the ramp timer), then horizontal (reverse the patrol).
pub open spec fn spec_goomba_tile_step(g: Goomba, t: Tile) -> Goomba {
    let g1 = if t.wall && spec_v_contact(g.shape, t.rect, g.velocity.y) {
        Goomba {
            velocity: Vec2 { y: 0, ..g.velocity },
            shape: Rect {
                pos: Vec2 { y: (t.rect.pos.y + TILE_SIZE) as i64, ..g.shape.pos },
                ..g.shape
            },
            fall_timer: RampTimer { count: 0 },
            ..g
        }
    } else {
        g
    };
    if t.wall && spec_h_contact(g1.shape, t.rect, g1.velocity.x) {
        if g1.velocity.x > 0 {
            Goomba {
                direction: Direction::Left,
                velocity: Vec2 { x: (-ENEMY_SPEED) as i64, ..g1.velocity },
                ..g1
            }
        } else {
            Goomba {
                direction: Direction::Right,
                velocity: Vec2 { x: ENEMY_SPEED, ..g1.velocity },
                ..g1
            }
        }
    } else {
        g1
    }
}

/// All cells of the surface, in order; later cells see earlier corrections.
pub open spec fn spec_goomba_tiles(g: Goomba, tiles: Seq<Tile>) -> Goomba
    decreases tiles.len(),
{
    if tiles.len() == 0 {
        g
    } else {
        spec_goomba_tiles(spec_goomba_tile_step(g, tiles[0]), tiles.drop_first())
    }
}

/// World-edge clamp: leftward motion that would cross x = 0 is zeroed and
/// the facing reversed; the patrol walks right again from the next frame,
/// when the walk phase rebuilds the velocity from the facing.
pub open spec fn spec_goomba_edge(g: Goomba) -> Goomba {
    if g.direction == Direction::Left && g.shape.pos.x + g.velocity.x <= 0 {
        Goomba { direction: Direction::Right, velocity: Vec2 { x: 0, ..g.velocity }, ..g }
    } else {
        g
    }
}

/// The one place position changes: the resolved velocity is applied.
pub open spec fn spec_goomba_move(g: Goomba) -> Goomba {
    Goomba {
        shape: Rect {
            pos: Vec2 {
                x: (g.shape.pos.x + g.velocity.x) as i64,
                y: (g.shape.pos.y + g.velocity.y) as i64,
            },
            ..g.shape
        },
        ..g
    }
}

/// Falling out of the world removes the enemy without a death pose.
pub open spec fn spec_goomba_fall_out(g: Goomba) -> Goomba {
    if g.shape.pos.y <= 0 {
        Goomba { dead: true, disappear: true, ..g }
    } else {
        g
    }
}

/// Animation phase: the death pose counts down to removal; otherwise the
/// walk cycle advances every few frames.
pub open spec fn spec_goomba_anim(g: Goomba) -> Goomba {
    if g.dead {
        if g.die_frame_cnt > ENEMY_DEATH_FRAMES {
            Goomba { disappear: true, ..g }
        } else {
            Goomba { die_frame_cnt: (g.die_frame_cnt + 1) as u32, ..g }
        }
    } else if g.walk_frame_cnt > GOOMBA_ANIM_PERIOD {
        let f = (((g.frame_index + 1) as int % (GOOMBA_ANIM_FRAMES as int)) as u32);
        Goomba { frame_index: f, shown_frame: f, walk_frame_cnt: 0, ..g }
    } else {
        Goomba { walk_frame_cnt: (g.walk_frame_cnt + 1) as u32, ..g }
    }
}

/// One full frame: physics only while neither dying nor frozen, then the
/// animation phase either way.
#[verifier::opaque]
pub open spec fn spec_goomba_step(g: Goomba, tiles: Seq<Tile>) -> Goomba {
    if !g.dead && !g.freeze {
        spec_goomba_anim(
            spec_goomba_fall_out(
                spec_goomba_move(
                    spec_goomba_edge(
                        spec_goomba_tiles(spec_goomba_gravity(spec_goomba_walk_vel(g)), tiles),
                    ),
                ),
            ),
        )
    } else {
        spec_goomba_anim(g)
    }
}

/// The enemy dying triggers: the death pose starts, once.
pub open spec fn spec_goomba_die(g: Goomba) -> Goomba {
    if !g.dead {
        Goomba { dead: true, frame_index: 0, shown_frame: 0, ..g }
    } else {
        g
    }
}

/// Back to the spawn snapshot: position, facing, frozen flag, alive, walk
/// animation restarted, at rest.
pub open spec fn spec_goomba_reset(g: Goomba) -> Goomba {
    Goomba {
        shape: Rect { pos: g.spos, ..g.shape },
        velocity: Vec2 { x: 0, y: 0 },
        direction: g.sdirection,
        freeze: g.sfreeze,
        disappear: false,
        dead: false,
        die_frame_cnt: 0,
        fall_timer: RampTimer { count: 0 },
        frame_index: 0,
        shown_frame: 0,
        ..g
    }
}

impl Goomba {
    /// A fresh patrol hazard, one tile big, at rest at its spawn point.
    pub fn new(sx: i64, sy: i64, direction: Direction, freeze: bool) -> (g: Goomba)
        ensures
            g == spec_goomba_new(sx, sy, direction, freeze),
    {
        Goomba {
            spos: Vec2 { x: sx, y: sy },
            sdirection: direction,
            sfreeze: freeze,
            shape: Rect { pos: Vec2 { x: sx, y: sy }, w: TILE_SIZE, h: TILE_SIZE },
            velocity: Vec2 { x: 0, y: 0 },
            direction,
            walk_frame_cnt: 0,
            die_frame_cnt: 0,
            dead: false,
            disappear: false,
            freeze,
            fall_timer: RampTimer { count: 0 },
            frame_index: 0,
            shown_frame: 0,
        }
    }

    pub fn is_dying(&self) -> (r: bool)
        ensures
            r == self.dead,
    {
        self.dead
    }

    pub fn is_disappear(&self) -> (r: bool)
        ensures
            r == self.disappear,
    {
        self.disappear
    }

    /// The level script's unfreeze trigger.
    pub fn defreeze(&mut self)
        ensures
            *final(self) == (Goomba { freeze: false, ..*old(self) }),
    {
        self.freeze = false;
    }

    /// Starts the death pose; a second trigger changes nothing.
    pub fn die(&mut self)
        ensures
            *final(self) == spec_goomba_die(*old(self)),
            final(self).dead,
            old(self).dead ==> *final(self) == *old(self),
    {
        if !self.dead {
            self.dead = true;
            self.frame_index = 0;
            self.shown_frame = 0;
        }
    }

    /// Restores the spawn snapshot; a second reset in a row changes nothing.
    pub fn reset(&mut self)
        ensures
            *final(self) == spec_goomba_reset(*old(self)),
    {
        self.shape.pos = self.spos;
        self.velocity = Vec2 { x: 0, y: 0 };
        self.direction = self.sdirection;
        self.freeze = self.sfreeze;
        self.disappear = false;
        self.dead = false;
        self.die_frame_cnt = 0;
        self.fall_timer.reset();
        self.frame_index = 0;
        self.shown_frame = 0;
    }

    /// One simulation frame against the static surface.
    pub fn update(&mut self, tiles: &TileMap)
        requires
            wf_goomba(*old(self)),
            wf_tiles(tiles@),
        ensures
            *final(self) == spec_goomba_step(*old(self), tiles@),
    {
        proof {
            reveal(spec_goomba_step);
        }
        let ghost g0 = *self;
        if !self.dead && !self.freeze {
            match self.direction {
                Direction::Left => {
                    self.velocity.x = -ENEMY_SPEED;
                },
                Direction::Right => {
                    self.velocity.x = ENEMY_SPEED;
                },
                _ => {},
            }
            self.fall_timer.tick();
            let pull = self.fall_timer.pull(ENEMY_GRAVITY);
            self.velocity.y = self.velocity.y - pull;
            let ghost gstart = *self;
            assert(gstart == spec_goomba_gravity(spec_goomba_walk_vel(g0)));
            assert(tiles@.skip(0) =~= tiles@);
            let mut i: usize = 0;
            while i < tiles.len()
                invariant
                    0 <= i <= tiles@.len(),
                    wf_tiles(tiles@),
                    spec_goomba_tiles(gstart, tiles@) == spec_goomba_tiles(
                        *self,
                        tiles@.skip(i as int),
                    ),
                    bounded_rect(self.shape),
                    self.shape.w == gstart.shape.w,
                    self.shape.h == gstart.shape.h,
                    vel_in_wide(self.velocity.x),
                    vel_in_wide(self.velocity.y),
                    spec_unchanged_outside_tiles(*self, gstart),
                decreases tiles@.len() - i,
            {
                let t = &tiles[i];
                assert(tiles@.skip(i as int)[0] == tiles@[i as int]);
                assert(tiles@.skip(i as int).drop_first() =~= tiles@.skip(i as int + 1));
                let ghost gpre = *self;
                if t.is_a_wall() && rect_vs_rect_vertically(&self.shape, &t.rect, self.velocity.y) {
                    self.velocity.y = 0;
                    self.shape.pos.y = t.rect.pos.y + TILE_SIZE;
                    self.fall_timer.reset();
                }
                if t.is_a_wall() && rect_vs_rect_horizontally(&self.shape, &t.rect, self.velocity.x)
                {
                    if self.velocity.x > 0 {
                        self.direction = Direction::Left;
                        self.velocity.x = -ENEMY_SPEED;
                    } else {
                        self.direction = Direction::Right;
                        self.velocity.x = ENEMY_SPEED;
                    }
                }
                assert(*self == spec_goomba_tile_step(gpre, tiles@[i as int]));
                i = i + 1;
            }
            assert(tiles@.skip(i as int) =~= Seq::<Tile>::empty());
            assert(*self == spec_goomba_tiles(gstart, tiles@));
            if self.direction == Direction::Left && self.shape.pos.x + self.velocity.x <= 0 {
                self.direction = Direction::Right;
                self.velocity.x = 0;
            }
            self.shape.pos.x = self.shape.pos.x + self.velocity.x;
            self.shape.pos.y = self.shape.pos.y + self.velocity.y;
            if self.shape.pos.y <= 0 {
                self.dead = true;
                self.disappear = true;
            }
        }
        self.update_sprite();
    }

    fn update_sprite(&mut self)
        requires
            old(self).die_frame_cnt <= ENEMY_DEATH_FRAMES + 1,
            old(self).walk_frame_cnt <= GOOMBA_ANIM_PERIOD + 1,
            old(self).frame_index < GOOMBA_ANIM_FRAMES,
        ensures
            *final(self) == spec_goomba_anim(*old(self)),
    {
        if self.dead {
            if self.die_frame_cnt > ENEMY_DEATH_FRAMES {
                self.disappear = true;
            } else {
                self.die_frame_cnt = self.die_frame_cnt + 1;
            }
        } else if self.walk_frame_cnt > GOOMBA_ANIM_PERIOD {
            self.frame_index = (self.frame_index + 1) % GOOMBA_ANIM_FRAMES;
            self.shown_frame = self.frame_index;
            self.walk_frame_cnt = 0;
        } else {
            self.walk_frame_cnt = self.walk_frame_cnt + 1;
        }
    }

    pub fn get_rect(&self) -> (r: &Rect)
        ensures
            r == self.shape,
    {
        &self.shape
    }

    /// The animation the enemy shows: walking or the death pose.
    pub fn current_animation(&self) -> (r: GoombaAnim)
        ensures
            r == spec_goomba_animation(*self),
    {
        if self.dead {
            GoombaAnim::Dead
        } else {
            GoombaAnim::Walk
        }
    }
}

/// The enemy `Goomba::new` builds.
pub open spec fn spec_goomba_new(sx: i64, sy: i64, direction: Direction, freeze: bool) -> Goomba {
    Goomba {
        spos: Vec2 { x: sx, y: sy },
        sdirection: direction,
        sfreeze: freeze,
        shape: Rect { pos: Vec2 { x: sx, y: sy }, w: TILE_SIZE, h: TILE_SIZE },
        velocity: Vec2 { x: 0, y: 0 },
        direction,
        walk_frame_cnt: 0,
        die_frame_cnt: 0,
        dead: false,
        disappear: false,
        freeze,
        fall_timer: RampTimer { count: 0 },
        frame_index: 0,
        shown_frame: 0,
    }
}

/// Animation identifier of an enemy state.
pub open spec fn spec_goomba_animation(g: Goomba) -> GoombaAnim {
    if g.dead {
        GoombaAnim::Dead
    } else {
        GoombaAnim::Walk
    }
}

/// Fields the tile fold never touches.
pub open spec fn spec_unchanged_outside_tiles(g: Goomba, g0: Goomba) -> bool {
    &&& g.spos == g0.spos
    &&& g.sdirection == g0.sdirection
    &&& g.sfreeze == g0.sfreeze
    &&& g.walk_frame_cnt == g0.walk_frame_cnt
    &&& g.die_frame_cnt == g0.die_frame_cnt
    &&& g.dead == g0.dead
    &&& g.disappear == g0.disappear
    &&& g.freeze == g0.freeze
    &&& g.frame_index == g0.frame_index
    &&& g.shown_frame == g0.shown_frame
    &&& g.shape.pos.x == g0.shape.pos.x
}

impl SpriteUser for Goomba {
    /// Pushes the logical frame out to the presented one.
    fn reload_sprite(&mut self)
        ensures
            *final(self) == (Goomba { shown_frame: old(self).frame_index, ..*old(self) }),
    {
        self.shown_frame = self.frame_index;
    }
}

} // verus!
