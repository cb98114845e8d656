//! The player: jump impulse window, ramped gravity, axis-separated collision
//! against the static surface, interactive blocks and enemies, and the
//! Idle/Walk/Jump/Dead behavior state machine driving the animation.

use vstd::prelude::*;
use vstd::pervasive::VecAdditionalExecFns;
use crate::geom::{
    Rect, Vec2, wf_rect, wf_vel, mid_rect, bounded_rect, calc_rect, vel_in_wide, spec_overlaps, spec_translated,
    spec_v_contact, spec_h_contact, rect_vs_rect, rect_vs_rect_vertically,
    rect_vs_rect_horizontally, translated,
};
use crate::ramp::{RampTimer, spec_ticked, spec_pull};
use crate::tile::{Tile, TileMap, wf_tiles};
use crate::block::{MysteryBlocks, wf_block, spec_block_collect};
use crate::enemy::{Goomba, wf_goomba, spec_goomba_die};
use crate::tuning::{
    TILE_SIZE, PLAYER_GRAVITY, JUMP_WINDOW, JUMP_STEP, DEATH_POP, DEATH_DECAY, DEATH_FLOOR,
    DEATH_SINK,
};

verus! {

/// Behavior state of the player; maps 1:1 to its animation identifier.
#[derive(PartialEq, Eq, Structural, Clone, Copy, Debug)]
pub enum PStatus {
    Walk,
    Idle,
    Jump,
    Dead,
}

/// Frames between two steps of the walk animation.
pub const PLAYER_ANIM_PERIOD: i64 = 3;

/// Frame count of the walk animation cycle.
pub const PLAYER_ANIM_FRAMES: u32 = 3;

#[derive(PartialEq, Eq, Structural, Clone, Copy, Debug)]
pub struct Player {
    /// Spawn snapshot captured at construction.
    pub spos: Vec2,
    pub shape: Rect,
    pub velocity: Vec2,
    /// Armed only by a frame that ends with zero vertical velocity.
    pub can_jump: bool,
    /// An impulse window is in flight.
    pub jumping: bool,
    /// Remaining impulse frames; counts down from `JUMP_WINDOW`.
    pub jump_ctn: i64,
    pub fall_timer: RampTimer,
    pub walk_frame_ctn: i64,
    pub status: PStatus,
    /// Velocity of the one-shot death-drop effect.
    pub dead_velocity: i64,
    pub frame_index: u32,
    pub shown_frame: u32,
    /// Logical facing: drawn mirrored when true.
    pub flip: bool,
    /// Presented facing, last pushed out by a sprite reload.
    pub shown_flip: bool,
}

/// Bounds every constructor establishes and every frame keeps while the
/// player stays in the world range.
pub open spec fn wf_player(p: Player) -> bool {
    &&& wf_rect(p.shape)
    &&& crate::geom::in_world(p.spos.x)
    &&& crate::geom::in_world(p.spos.y)
    &&& wf_vel(p.velocity)
    &&& -JUMP_WINDOW - 1 <= p.jump_ctn <= JUMP_WINDOW
    &&& 0 <= p.walk_frame_ctn <= PLAYER_ANIM_PERIOD + 1
    &&& p.frame_index < PLAYER_ANIM_FRAMES
    &&& p.shown_frame < PLAYER_ANIM_FRAMES
    &&& DEATH_FLOOR - DEATH_DECAY <= p.dead_velocity <= DEATH_POP
}

/// All blocks of a level are well formed.
pub open spec fn wf_blocks(s: Seq<MysteryBlocks>) -> bool {
    forall|i: int| 0 <= i < s.len() ==> wf_block(#[trigger] s[i])
}

/// All enemies of a level are well formed.
pub open spec fn wf_goombas(s: Seq<Goomba>) -> bool {
    forall|i: int| 0 <= i < s.len() ==> wf_goomba(#[trigger] s[i])
}

/// Switching the behavior state switches the animation and restarts it;
/// re-entering the current state leaves the animation untouched.
pub open spec fn spec_change_status(p: Player, s: PStatus) -> Player {
    if p.status != s {
        Player { status: s, frame_index: 0, shown_frame: 0, shown_flip: p.flip, ..p }
    } else {
        p
    }
}

/// The edge-triggered jump request: honoured only while armed.
pub open spec fn spec_player_jump_trigger(p: Player) -> Player {
    if p.can_jump {
        Player { jumping: true, can_jump: false, ..p }
    } else {
        p
    }
}

/// The death trigger: velocity cleared, Dead entered, death drop armed.
pub open spec fn spec_player_die(p: Player) -> Player {
    let q = spec_change_status(
        Player { velocity: Vec2 { x: 0, y: 0 }, ..p },
        PStatus::Dead,
    );
    Player { dead_velocity: DEATH_POP, ..q }
}

/// Jump phase: while an impulse window is in flight, each frame adds a
/// decaying upward impulse until the counter runs out.
pub open spec fn spec_player_jump_phase(p: Player) -> Player {
    if p.jumping {
        if p.jump_ctn >= -JUMP_WINDOW {
            Player {
                velocity: Vec2 {
                    y: (p.velocity.y + (p.jump_ctn + JUMP_WINDOW) * JUMP_STEP) as i64,
                    ..p.velocity
                },
                jump_ctn: (p.jump_ctn - 1) as i64,
                ..p
            }
        } else {
            Player { jumping: false, jump_ctn: 0, ..p }
        }
    } else {
        p
    }
}

/// Gravity phase: one more airborne frame, capped ramped pull added.
pub open spec fn spec_player_gravity(p: Player) -> Player {
    let t = spec_ticked(p.fall_timer);
    Player {
        fall_timer: t,
        velocity: Vec2 { y: (p.velocity.y - spec_pull(t, PLAYER_GRAVITY)) as i64, ..p.velocity },
        ..p
    }
}

/// World-edge clamp: leftward motion past x = 0 is halted.
pub open spec fn spec_player_edge(p: Player) -> Player {
    if p.velocity.x + p.shape.pos.x < 0 {
        Player { velocity: Vec2 { x: 0, ..p.velocity }, ..p }
    } else {
        p
    }
}

/// A landing contact: stop falling, ground the ramp timer, cancel any
/// in-flight impulse window and reload it, stand on top of the obstacle.
pub open spec fn spec_player_land(p: Player, top: int) -> Player {
    Player {
        fall_timer: RampTimer { count: 0 },
        jumping: false,
        jump_ctn: JUMP_WINDOW,
        shape: Rect { pos: Vec2 { y: (top + p.shape.h) as i64, ..p.shape.pos }, ..p.shape },
        velocity: Vec2 { y: 0, ..p.velocity },
        ..p
    }
}

/// A ceiling contact: snap below the obstacle, stop the rise, cancel an
/// in-flight impulse window. The fall timer counts airborne frames and only
/// a contact that stops downward motion grounds it, so it keeps running.
pub open spec fn spec_player_bump(p: Player, bottom: int) -> Player {
    Player {
        shape: Rect { pos: Vec2 { y: (bottom - TILE_SIZE) as i64, ..p.shape.pos }, ..p.shape },
        velocity: Vec2 { y: 0, ..p.velocity },
        jumping: false,
        ..p
    }
}

/// A horizontal solid stop against an obstacle box.
pub open spec fn spec_player_h_stop(p: Player, b: Rect) -> Player {
    if p.velocity.x > 0 {
        Player {
            shape: Rect { pos: Vec2 { x: (b.pos.x - p.shape.w) as i64, ..p.shape.pos }, ..p.shape },
            velocity: Vec2 { x: 0, ..p.velocity },
            ..p
        }
    } else {
        Player {
            shape: Rect { pos: Vec2 { x: (b.pos.x + b.w) as i64, ..p.shape.pos }, ..p.shape },
            velocity: Vec2 { x: 0, ..p.velocity },
            ..p
        }
    }
}

/// Contact with one interactive block: solid stops on both axes; landing on
/// it from above additionally collects it, once.
pub open spec fn spec_player_block_step(p: Player, b: MysteryBlocks, tmp: Rect) -> (
    Player,
    MysteryBlocks,
) {
    if spec_overlaps(tmp, b.shape) {
        let p1 = if spec_h_contact(p.shape, b.shape, p.velocity.x) {
            spec_player_h_stop(p, b.shape)
        } else {
            p
        };
        if spec_v_contact(p1.shape, b.shape, p1.velocity.y) {
            if p1.velocity.y < 0 {
                (spec_player_land(p1, b.shape.pos.y as int), spec_block_collect(b))
            } else {
                (spec_player_bump(p1, b.shape.pos.y as int), b)
            }
        } else {
            (p1, b)
        }
    } else {
        (p, b)
    }
}

/// The block pass: every block in order, the overlap gate fixed at the
/// pass's entry velocity.
pub open spec fn spec_player_blocks(p: Player, blocks: Seq<MysteryBlocks>, tmp: Rect) -> (
    Player,
    Seq<MysteryBlocks>,
)
    decreases blocks.len(),
{
    if blocks.len() == 0 {
        (p, Seq::empty())
    } else {
        let head = spec_player_block_step(p, blocks[0], tmp);
        let rest = spec_player_blocks(head.0, blocks.drop_first(), tmp);
        (rest.0, seq![head.1] + rest.1)
    }
}

/// Contact with one wall cell: a horizontal stop, then a vertical landing
/// or ceiling bump.
pub open spec fn spec_player_tile_step(p: Player, t: Tile, tmp: Rect) -> Player {
    if t.wall && spec_overlaps(tmp, t.rect) {
        let p1 = if spec_h_contact(p.shape, t.rect, p.velocity.x) {
            spec_player_h_stop(p, t.rect)
        } else {
            p
        };
        if spec_v_contact(p1.shape, t.rect, p1.velocity.y) {
            if p1.velocity.y < 0 {
                spec_player_land(p1, t.rect.pos.y as int)
            } else {
                spec_player_bump(p1, t.rect.pos.y as int)
            }
        } else {
            p1
        }
    } else {
        p
    }
}

/// The static pass: every cell in order, gate fixed at the pass's entry.
pub open spec fn spec_player_tiles(p: Player, tiles: Seq<Tile>, tmp: Rect) -> Player
    decreases tiles.len(),
{
    if tiles.len() == 0 {
        p
    } else {
        spec_player_tiles(spec_player_tile_step(p, tiles[0], tmp), tiles.drop_first(), tmp)
    }
}

/// Contact with one live enemy. Falling onto it stomps it: the enemy dies
/// and the player bounces by a normal landing resolution. Any other contact
/// kills the player and ends the pass.
pub open spec fn spec_player_goomba_step(p: Player, g: Goomba, done: bool) -> (
    Player,
    Goomba,
    bool,
) {
    if done {
        (p, g, true)
    } else {
        let tmp = spec_translated(p.shape, p.velocity);
        if !g.dead && spec_overlaps(tmp, g.shape) {
            if spec_v_contact(p.shape, g.shape, p.velocity.y) {
                if p.velocity.y < 0 {
                    (spec_player_land(p, g.shape.pos.y as int), spec_goomba_die(g), false)
                } else {
                    (spec_player_die(p), g, true)
                }
            } else {
                (spec_player_die(p), g, true)
            }
        } else {
            (p, g, false)
        }
    }
}

/// The enemy pass: every live enemy in order until a lethal contact.
pub open spec fn spec_player_goombas(p: Player, gs: Seq<Goomba>, done: bool) -> (
    Player,
    Seq<Goomba>,
    bool,
)
    decreases gs.len(),
{
    if gs.len() == 0 {
        (p, Seq::empty(), done)
    } else {
        let head = spec_player_goomba_step(p, gs[0], done);
        let rest = spec_player_goombas(head.0, gs.drop_first(), head.2);
        (rest.0, seq![head.1] + rest.1, rest.2)
    }
}

/// Jump re-arm rule: a frame ending at rest vertically re-arms the jump;
/// one ending in downward motion disarms it.
pub open spec fn spec_player_canjump(p: Player) -> Player {
    if p.velocity.y == 0 {
        Player { can_jump: true, ..p }
    } else if p.velocity.y < 0 {
        Player { can_jump: false, ..p }
    } else {
        p
    }
}

/// The one place position changes: the resolved velocity is applied.
pub open spec fn spec_player_move(p: Player) -> Player {
    Player {
        shape: Rect {
            pos: Vec2 {
                x: (p.shape.pos.x + p.velocity.x) as i64,
                y: (p.shape.pos.y + p.velocity.y) as i64,
            },
            ..p.shape
        },
        ..p
    }
}

/// Behavior selection from the resolved motion: at rest is Idle, moving
/// only horizontally is Walk, any vertical motion is Jump.
pub open spec fn spec_player_status_select(p: Player) -> Player {
    if p.velocity.x == 0 && p.velocity.y == 0 {
        spec_change_status(p, PStatus::Idle)
    } else if p.velocity.x != 0 && p.velocity.y == 0 {
        spec_change_status(p, PStatus::Walk)
    } else {
        spec_change_status(p, PStatus::Jump)
    }
}

/// Animation phase: Idle and Jump re-sync the presented frame, Walk cycles
/// every few frames, Dead plays the one-shot death drop then sinks.
pub open spec fn spec_player_anim(p: Player) -> Player {
    match p.status {
        PStatus::Idle => Player { shown_frame: p.frame_index, ..p },
        PStatus::Walk => if p.walk_frame_ctn > PLAYER_ANIM_PERIOD {
            let f = (((p.frame_index + 1) as int % (PLAYER_ANIM_FRAMES as int)) as u32);
            Player {
                frame_index: f,
                shown_frame: f,
                shown_flip: p.flip,
                walk_frame_ctn: 0,
                ..p
            }
        } else {
            Player { walk_frame_ctn: (p.walk_frame_ctn + 1) as i64, ..p }
        },
        PStatus::Jump => Player { shown_frame: p.frame_index, shown_flip: p.flip, ..p },
        PStatus::Dead => if p.dead_velocity > DEATH_FLOOR {
            Player {
                shape: Rect {
                    pos: Vec2 { y: (p.shape.pos.y + p.dead_velocity) as i64, ..p.shape.pos },
                    ..p.shape
                },
                dead_velocity: (p.dead_velocity - DEATH_DECAY) as i64,
                ..p
            }
        } else {
            Player {
                shape: Rect {
                    pos: Vec2 { y: (p.shape.pos.y - DEATH_SINK) as i64, ..p.shape.pos },
                    ..p.shape
                },
                ..p
            }
        },
    }
}

/// One full frame of the player against the world. Returns the player and
/// the block and enemy collections after its interaction side effects.
#[verifier::opaque]
pub open spec fn spec_player_step(
    p: Player,
    tiles: Seq<Tile>,
    blocks: Seq<MysteryBlocks>,
    goombas: Seq<Goomba>,
) -> (Player, Seq<MysteryBlocks>, Seq<Goomba>) {
    if p.status != PStatus::Dead {
        let p1 = spec_player_jump_phase(p);
        let p2 = spec_player_gravity(p1);
        let p3 = spec_player_edge(p2);
        let bpass = spec_player_blocks(p3, blocks, spec_translated(p3.shape, p3.velocity));
        let p4 = bpass.0;
        let p5 = spec_player_tiles(p4, tiles, spec_translated(p4.shape, p4.velocity));
        let gpass = spec_player_goombas(p5, goombas, false);
        let p6 = spec_player_canjump(gpass.0);
        let p7 = spec_player_move(p6);
        let p8 = if p7.status != PStatus::Dead {
            spec_player_status_select(p7)
        } else {
            p7
        };
        (spec_player_anim(p8), bpass.1, gpass.1)
    } else {
        (spec_player_anim(p), blocks, goombas)
    }
}

/// The player `Player::new` builds.
pub open spec fn spec_player_new(start_pos: Vec2) -> Player {
    Player {
        spos: start_pos,
        shape: Rect { pos: start_pos, w: TILE_SIZE, h: TILE_SIZE },
        velocity: Vec2 { x: 0, y: 0 },
        can_jump: true,
        jumping: false,
        jump_ctn: JUMP_WINDOW,
        fall_timer: RampTimer { count: 0 },
        walk_frame_ctn: 0,
        status: PStatus::Walk,
        dead_velocity: 0,
        frame_index: 0,
        shown_frame: 0,
        flip: false,
        shown_flip: false,
    }
}

/// Back to the spawn snapshot: at rest at the spawn point, jump re-armed,
/// Walk state (re-entering Walk leaves the animation untouched).
pub open spec fn spec_player_reset(p: Player) -> Player {
    spec_change_status(
        Player {
            velocity: Vec2 { x: 0, y: 0 },
            shape: Rect { pos: p.spos, ..p.shape },
            can_jump: true,
            jumping: false,
            jump_ctn: JUMP_WINDOW,
            fall_timer: RampTimer { count: 0 },
            dead_velocity: 0,
            ..p
        },
        PStatus::Walk,
    )
}

impl Player {
    /// A fresh player, one tile big, at rest at its spawn point.
    pub fn new(start_pos: Vec2) -> (p: Player)
        ensures
            p == spec_player_new(start_pos),
    {
        Player {
            spos: start_pos,
            shape: Rect { pos: start_pos, w: TILE_SIZE, h: TILE_SIZE },
            velocity: Vec2 { x: 0, y: 0 },
            can_jump: true,
            jumping: false,
            jump_ctn: JUMP_WINDOW,
            fall_timer: RampTimer { count: 0 },
            walk_frame_ctn: 0,
            status: PStatus::Walk,
            dead_velocity: 0,
            frame_index: 0,
            shown_frame: 0,
            flip: false,
            shown_flip: false,
        }
    }

    /// Restores the spawn snapshot; a second reset in a row changes nothing.
    pub fn reset(&mut self)
        ensures
            *final(self) == spec_player_reset(*old(self)),
    {
        self.clear_velocity();
        self.shape.pos = self.spos;
        self.can_jump = true;
        self.jumping = false;
        self.jump_ctn = JUMP_WINDOW;
        self.fall_timer.reset();
        self.dead_velocity = 0;
        self.change_sprite_status(PStatus::Walk);
    }

    /// Edge-triggered jump request, honoured only while armed; starting the
    /// impulse window disarms it.
    pub fn jump(&mut self)
        ensures
            *final(self) == spec_player_jump_trigger(*old(self)),
            old(self).can_jump ==> final(self).jumping && !final(self).can_jump,
            !old(self).can_jump ==> *final(self) == *old(self),
    {
        if self.can_jump {
            self.jumping = true;
            self.can_jump = false;
        }
    }

    /// Sets the logical facing; the presented one follows at the next sync.
    pub fn flip_spritesheet(&mut self, y: bool)
        ensures
            *final(self) == (Player { flip: y, ..*old(self) }),
    {
        if self.flip && !y || !self.flip && y {
            self.flip = !self.flip;
        }
    }

    pub fn get_x(&self) -> (r: i64)
        ensures
            r == self.shape.pos.x,
    {
        self.shape.pos.x
    }

    pub fn get_y(&self) -> (r: i64)
        ensures
            r == self.shape.pos.y,
    {
        self.shape.pos.y
    }

    pub fn get_rect(&self) -> (r: &Rect)
        ensures
            r == self.shape,
    {
        &self.shape
    }

    pub fn get_xvelocity(&self) -> (r: i64)
        ensures
            r == self.velocity.x,
    {
        self.velocity.x
    }

    pub fn get_yvelocity(&self) -> (r: i64)
        ensures
            r == self.velocity.y,
    {
        self.velocity.y
    }

    pub fn get_height(&self) -> (r: i64)
        ensures
            r == self.shape.h,
    {
        self.shape.h
    }

    /// Adds to the horizontal velocity (input intents accumulate).
    pub fn set_xvelocity(&mut self, x: i64)
        requires
            wf_vel(old(self).velocity),
            -1_000_000 <= x <= 1_000_000,
        ensures
            *final(self) == (Player {
                velocity: Vec2 { x: (old(self).velocity.x + x) as i64, ..old(self).velocity },
                ..*old(self)
            }),
    {
        self.velocity.x = self.velocity.x + x;
    }

    pub fn is_dying(&self) -> (r: bool)
        ensures
            r == (self.status == PStatus::Dead),
    {
        self.status == PStatus::Dead
    }

    pub fn clear_velocity(&mut self)
        ensures
            *final(self) == (Player { velocity: Vec2 { x: 0, y: 0 }, ..*old(self) }),
    {
        self.velocity.x = 0;
        self.velocity.y = 0;
    }

    fn change_sprite_status(&mut self, status: PStatus)
        ensures
            *final(self) == spec_change_status(*old(self), status),
    {
        if self.status != status {
            self.status = status;
            self.frame_index = 0;
            self.shown_frame = 0;
            self.shown_flip = self.flip;
        }
    }

    fn die(&mut self)
        ensures
            *final(self) == spec_player_die(*old(self)),
    {
        self.clear_velocity();
        self.change_sprite_status(PStatus::Dead);
        self.dead_velocity = DEATH_POP;
    }

    /// Advances the animation for the current behavior state; in Dead this
    /// is the one-shot death-drop position effect.
    pub fn update_sprite(&mut self)
        requires
            bounded_rect(old(self).shape),
            old(self).frame_index < PLAYER_ANIM_FRAMES,
            0 <= old(self).walk_frame_ctn <= PLAYER_ANIM_PERIOD + 1,
            DEATH_FLOOR - DEATH_DECAY <= old(self).dead_velocity <= DEATH_POP,
        ensures
            *final(self) == spec_player_anim(*old(self)),
    {
        match self.status {
            PStatus::Idle => {
                self.shown_frame = self.frame_index;
            },
            PStatus::Walk => {
                if self.walk_frame_ctn > PLAYER_ANIM_PERIOD {
                    self.frame_index = (self.frame_index + 1) % PLAYER_ANIM_FRAMES;
                    self.shown_frame = self.frame_index;
                    self.shown_flip = self.flip;
                    self.walk_frame_ctn = 0;
                } else {
                    self.walk_frame_ctn = self.walk_frame_ctn + 1;
                }
            },
            PStatus::Jump => {
                self.shown_frame = self.frame_index;
                self.shown_flip = self.flip;
            },
            PStatus::Dead => {
                if self.dead_velocity > DEATH_FLOOR {
                    self.shape.pos.y = self.shape.pos.y + self.dead_velocity;
                    self.dead_velocity = self.dead_velocity - DEATH_DECAY;
                } else {
                    self.shape.pos.y = self.shape.pos.y - DEATH_SINK;
                }
            },
        }
    }

    /// One simulation frame against the static surface, the interactive
    /// blocks and the enemies, with their interaction side effects.
    #[verifier::rlimit(100)]
    #[verifier::spinoff_prover]
    pub fn update(&mut self, tiles: &TileMap, mblocks: &mut Vec<MysteryBlocks>, goombas: &mut Vec<
        Goomba,
    >)
        requires
            wf_player(*old(self)),
            wf_tiles(tiles@),
            wf_blocks(old(mblocks)@),
            wf_goombas(old(goombas)@),
        ensures
            *final(self) == spec_player_step(
                *old(self),
                tiles@,
                old(mblocks)@,
                old(goombas)@,
            ).0,
            final(mblocks)@ == spec_player_step(
                *old(self),
                tiles@,
                old(mblocks)@,
                old(goombas)@,
            ).1,
            final(goombas)@ == spec_player_step(
                *old(self),
                tiles@,
                old(mblocks)@,
                old(goombas)@,
            ).2,
            wf_blocks(final(mblocks)@),
            wf_goombas(final(goombas)@),
            final(mblocks)@.len() == old(mblocks)@.len(),
            final(goombas)@.len() == old(goombas)@.len(),
    {
        proof {
            reveal(spec_player_step);
        }
        let ghost p0 = *self;
        let ghost blocks0 = mblocks@;
        let ghost goombas0 = goombas@;
        if self.status != PStatus::Dead {
            self.integrate_motion();
            let ghost p3 = *self;
            self.check_collision_w_mblocks(mblocks);
            let ghost p4 = *self;
            self.check_collision_w_static(tiles);
            let ghost p5 = *self;
            self.check_collision_w_enemy(goombas);
            let ghost p6 = *self;
            self.select_behavior();
            proof {
                let bp = spec_player_blocks(p3, blocks0, spec_translated(p3.shape, p3.velocity));
                assert(p4 == bp.0);
                assert(mblocks@ == bp.1);
                let p5s = spec_player_tiles(p4, tiles@, spec_translated(p4.shape, p4.velocity));
                assert(p5 == p5s);
                let gp = spec_player_goombas(p5, goombas0, false);
                assert(p6 == gp.0);
                assert(goombas@ == gp.1);
            }
        }
        self.update_sprite();
    }

    /// Jump impulse, gravity and the world-edge clamp of one frame.
    fn integrate_motion(&mut self)
        requires
            mid_rect(old(self).shape),
            wf_vel(old(self).velocity),
            bounded_player_aux(*old(self)),
        ensures
            *final(self) == spec_player_edge(
                spec_player_gravity(spec_player_jump_phase(*old(self))),
            ),
            mid_rect(final(self).shape),
            vel_in_wide(final(self).velocity.x),
            vel_in_wide(final(self).velocity.y),
            bounded_player_aux(*final(self)),
    {
        if self.jumping {
            if self.jump_ctn >= -JUMP_WINDOW {
                self.velocity.y = self.velocity.y + (self.jump_ctn + JUMP_WINDOW) * JUMP_STEP;
                self.jump_ctn = self.jump_ctn - 1;
            } else {
                self.jumping = false;
                self.jump_ctn = 0;
            }
        }
        self.fall_timer.tick();
        let pull = self.fall_timer.pull(PLAYER_GRAVITY);
        self.velocity.y = self.velocity.y - pull;
        if self.velocity.x + self.shape.pos.x < 0 {
            self.velocity.x = 0;
        }
    }

    /// Jump re-arm, the position update, and behavior selection of one frame.
    fn select_behavior(&mut self)
        requires
            mid_rect(old(self).shape),
            vel_in_wide(old(self).velocity.x),
            vel_in_wide(old(self).velocity.y),
            bounded_player_aux(*old(self)),
        ensures
            *final(self) == ({
                let p7 = spec_player_move(spec_player_canjump(*old(self)));
                if p7.status != PStatus::Dead {
                    spec_player_status_select(p7)
                } else {
                    p7
                }
            }),
            bounded_rect(final(self).shape),
            bounded_player_aux(*final(self)),
    {
        if self.velocity.y == 0 {
            self.can_jump = true;
        } else if self.velocity.y < 0 {
            self.can_jump = false;
        }
        self.shape.pos.x = self.shape.pos.x + self.velocity.x;
        self.shape.pos.y = self.shape.pos.y + self.velocity.y;
        if self.status != PStatus::Dead {
            if self.velocity.x == 0 && self.velocity.y == 0 {
                self.change_sprite_status(PStatus::Idle);
            } else if self.velocity.x != 0 && self.velocity.y == 0 {
                self.change_sprite_status(PStatus::Walk);
            } else {
                self.change_sprite_status(PStatus::Jump);
            }
        }
    }

    /// The block pass of one frame.
    fn check_collision_w_mblocks(&mut self, mblocks: &mut Vec<MysteryBlocks>)
        requires
            mid_rect(old(self).shape),
            vel_in_wide(old(self).velocity.x),
            vel_in_wide(old(self).velocity.y),
            bounded_player_aux(*old(self)),
            wf_blocks(old(mblocks)@),
        ensures
            *final(self) == spec_player_blocks(
                *old(self),
                old(mblocks)@,
                spec_translated(old(self).shape, old(self).velocity),
            ).0,
            final(mblocks)@ == spec_player_blocks(
                *old(self),
                old(mblocks)@,
                spec_translated(old(self).shape, old(self).velocity),
            ).1,
            wf_blocks(final(mblocks)@),
            final(mblocks)@.len() == old(mblocks)@.len(),
            mid_rect(final(self).shape),
            vel_in_wide(final(self).velocity.x),
            vel_in_wide(final(self).velocity.y),
            bounded_player_aux(*final(self)),
    {
        let ghost p0 = *self;
        let ghost blocks0 = mblocks@;
        let ghost tmp0 = spec_translated(p0.shape, p0.velocity);
        let tmp_rect = translated(&self.shape, &self.velocity);
        assert(blocks0.skip(0) =~= blocks0);
        assert(mblocks@.take(0) =~= Seq::<MysteryBlocks>::empty());
        let mut i: usize = 0;
        while i < mblocks.len()
            invariant
                0 <= i <= blocks0.len(),
                calc_rect(tmp_rect),
                mblocks@.len() == blocks0.len(),
                mblocks@.skip(i as int) =~= blocks0.skip(i as int),
                wf_blocks(mblocks@),
                tmp_rect == tmp0,
                mid_rect(self.shape),
                vel_in_wide(self.velocity.x),
                vel_in_wide(self.velocity.y),
                bounded_player_aux(*self),
                spec_player_blocks(p0, blocks0, tmp0) == {
                    let rec = spec_player_blocks(*self, blocks0.skip(i as int), tmp0);
                    (rec.0, mblocks@.take(i as int) + rec.1)
                },
            decreases blocks0.len() - i,
        {
            let ghost ppre = *self;
            let ghost bpre = blocks0[i as int];
            assert(blocks0.skip(i as int)[0] == blocks0[i as int]);
            assert(blocks0.skip(i as int).drop_first() =~= blocks0.skip(i as int + 1));
            assert(mblocks@[i as int] == blocks0[i as int]);
            let b = mblocks[i];
            let mut nb = b;
            if rect_vs_rect(&tmp_rect, &b.shape) {
                if rect_vs_rect_horizontally(&self.shape, &b.shape, self.velocity.x) {
                    if self.velocity.x > 0 {
                        self.shape.pos.x = b.shape.pos.x - self.shape.w;
                        self.velocity.x = 0;
                    } else {
                        self.shape.pos.x = b.shape.pos.x + b.shape.w;
                        self.velocity.x = 0;
                    }
                }
                if rect_vs_rect_vertically(&self.shape, &b.shape, self.velocity.y) {
                    if self.velocity.y < 0 {
                        self.fall_timer.reset();
                        self.jumping = false;
                        self.jump_ctn = JUMP_WINDOW;
                        self.shape.pos.y = b.shape.pos.y + self.shape.h;
                        self.velocity.y = 0;
                        nb.collect();
                    } else {
                        self.shape.pos.y = b.shape.pos.y - TILE_SIZE;
                        self.velocity.y = 0;
                        self.jumping = false;
                    }
                }
            }
            mblocks.set(i, nb);
            proof {
                let head = spec_player_block_step(ppre, bpre, tmp0);
                assert(*self == head.0);
                assert(nb == head.1);
                assert(mblocks@.take(i as int + 1) =~= mblocks@.take(i as int).push(nb));
                let rec = spec_player_blocks(*self, blocks0.skip(i as int + 1), tmp0);
                assert(mblocks@.take(i as int) + (seq![nb] + rec.1) =~= mblocks@.take(i as int + 1)
                    + rec.1);
            }
            i = i + 1;
        }
        proof {
            assert(blocks0.skip(i as int) =~= Seq::<MysteryBlocks>::empty());
            assert(mblocks@.take(i as int) =~= mblocks@);
            assert(mblocks@ + Seq::<MysteryBlocks>::empty() =~= mblocks@);
        }
    }

    /// The static pass of one frame.
    fn check_collision_w_static(&mut self, tiles: &TileMap)
        requires
            mid_rect(old(self).shape),
            vel_in_wide(old(self).velocity.x),
            vel_in_wide(old(self).velocity.y),
            bounded_player_aux(*old(self)),
            wf_tiles(tiles@),
        ensures
            *final(self) == spec_player_tiles(
                *old(self),
                tiles@,
                spec_translated(old(self).shape, old(self).velocity),
            ),
            mid_rect(final(self).shape),
            vel_in_wide(final(self).velocity.x),
            vel_in_wide(final(self).velocity.y),
            bounded_player_aux(*final(self)),
    {
        let ghost p0 = *self;
        let ghost tmp0 = spec_translated(p0.shape, p0.velocity);
        let tmp_rect = translated(&self.shape, &self.velocity);
        assert(tiles@.skip(0) =~= tiles@);
        let mut i: usize = 0;
        while i < tiles.len()
            invariant
                0 <= i <= tiles@.len(),
                calc_rect(tmp_rect),
                wf_tiles(tiles@),
                tmp_rect == tmp0,
                mid_rect(self.shape),
                vel_in_wide(self.velocity.x),
                vel_in_wide(self.velocity.y),
                bounded_player_aux(*self),
                spec_player_tiles(p0, tiles@, tmp0) == spec_player_tiles(
                    *self,
                    tiles@.skip(i as int),
                    tmp0,
                ),
            decreases tiles@.len() - i,
        {
            let ghost ppre = *self;
            assert(tiles@.skip(i as int)[0] == tiles@[i as int]);
            assert(tiles@.skip(i as int).drop_first() =~= tiles@.skip(i as int + 1));
            let t = &tiles[i];
            if t.is_a_wall() && rect_vs_rect(&tmp_rect, &t.rect) {
                if rect_vs_rect_horizontally(&self.shape, &t.rect, self.velocity.x) {
                    if self.velocity.x > 0 {
                        self.shape.pos.x = t.rect.pos.x - self.shape.w;
                        self.velocity.x = 0;
                    } else {
                        self.shape.pos.x = t.rect.pos.x + t.rect.w;
                        self.velocity.x = 0;
                    }
                }
                if rect_vs_rect_vertically(&self.shape, &t.rect, self.velocity.y) {
                    if self.velocity.y < 0 {
                        self.fall_timer.reset();
                        self.jumping = false;
                        self.jump_ctn = JUMP_WINDOW;
                        self.shape.pos.y = t.rect.pos.y + self.shape.h;
                        self.velocity.y = 0;
                    } else {
                        self.shape.pos.y = t.rect.pos.y - TILE_SIZE;
                        self.velocity.y = 0;
                        self.jumping = false;
                    }
                }
            }
            assert(*self == spec_player_tile_step(ppre, tiles@[i as int], tmp0));
            i = i + 1;
        }
        assert(tiles@.skip(i as int) =~= Seq::<Tile>::empty());
    }

    /// The enemy pass of one frame.
    fn check_collision_w_enemy(&mut self, goombas: &mut Vec<Goomba>)
        requires
            mid_rect(old(self).shape),
            vel_in_wide(old(self).velocity.x),
            vel_in_wide(old(self).velocity.y),
            bounded_player_aux(*old(self)),
            wf_goombas(old(goombas)@),
        ensures
            *final(self) == spec_player_goombas(*old(self), old(goombas)@, false).0,
            final(goombas)@ == spec_player_goombas(*old(self), old(goombas)@, false).1,
            wf_goombas(final(goombas)@),
            final(goombas)@.len() == old(goombas)@.len(),
            mid_rect(final(self).shape),
            vel_in_wide(final(self).velocity.x),
            vel_in_wide(final(self).velocity.y),
            bounded_player_aux(*final(self)),
    {
        let ghost p0 = *self;
        let ghost goombas0 = goombas@;
        assert(goombas0.skip(0) =~= goombas0);
        assert(goombas@.take(0) =~= Seq::<Goomba>::empty());
        let mut done: bool = false;
        let mut i: usize = 0;
        while i < goombas.len()
            invariant
                0 <= i <= goombas0.len(),
                goombas@.len() == goombas0.len(),
                goombas@.skip(i as int) =~= goombas0.skip(i as int),
                wf_goombas(goombas@),
                mid_rect(self.shape),
                vel_in_wide(self.velocity.x),
                vel_in_wide(self.velocity.y),
                bounded_player_aux(*self),
                spec_player_goombas(p0, goombas0, false) == {
                    let rec = spec_player_goombas(*self, goombas0.skip(i as int), done);
                    (rec.0, goombas@.take(i as int) + rec.1, rec.2)
                },
            decreases goombas0.len() - i,
        {
            let ghost ppre = *self;
            let ghost gpre = goombas0[i as int];
            let ghost donepre = done;
            assert(goombas0.skip(i as int)[0] == goombas0[i as int]);
            assert(goombas0.skip(i as int).drop_first() =~= goombas0.skip(i as int + 1));
            assert(goombas@[i as int] == goombas0[i as int]);
            let g = goombas[i];
            let mut ng = g;
            if !done {
                let tmp_rect = translated(&self.shape, &self.velocity);
                if !g.is_dying() && rect_vs_rect(&tmp_rect, &g.shape) {
                    if rect_vs_rect_vertically(&self.shape, &g.shape, self.velocity.y) {
                        if self.velocity.y < 0 {
                            ng.die();
                            self.fall_timer.reset();
                            self.jumping = false;
                            self.jump_ctn = JUMP_WINDOW;
                            self.shape.pos.y = g.shape.pos.y + self.shape.h;
                            self.velocity.y = 0;
                        } else {
                            self.die();
                            done = true;
                        }
                    } else {
                        self.die();
                        done = true;
                    }
                }
            }
            goombas.set(i, ng);
            proof {
                let head = spec_player_goomba_step(ppre, gpre, donepre);
                assert(*self == head.0);
                assert(ng == head.1);
                assert(done == head.2);
                assert(goombas@.take(i as int + 1) =~= goombas@.take(i as int).push(ng));
                let rec = spec_player_goombas(*self, goombas0.skip(i as int + 1), done);
                assert(goombas@.take(i as int) + (seq![ng] + rec.1) =~= goombas@.take(i as int + 1)
                    + rec.1);
            }
            i = i + 1;
        }
        proof {
            assert(goombas0.skip(i as int) =~= Seq::<Goomba>::empty());
            assert(goombas@.take(i as int) =~= goombas@);
            assert(goombas@ + Seq::<Goomba>::empty() =~= goombas@);
        }
    }
}

/// Bounds on the player fields the collision passes may touch, loose enough
/// to hold mid-frame.
pub open spec fn bounded_player_aux(p: Player) -> bool {
    &&& -JUMP_WINDOW - 1 <= p.jump_ctn <= JUMP_WINDOW
    &&& 0 <= p.walk_frame_ctn <= PLAYER_ANIM_PERIOD + 1
    &&& p.frame_index < PLAYER_ANIM_FRAMES
    &&& DEATH_FLOOR - DEATH_DECAY <= p.dead_velocity <= DEATH_POP
}

} // verus!
