//! The engine's guarantees, stated and proved over the frame-step spec
//! functions: gravity-ramp behavior, landing idempotence, jump re-arming,
//! reset idempotence, one-shot block collection, enemy bounce-back, frozen
//! enemies' inertness, and the stomp interaction.

use vstd::prelude::*;
use crate::geom::{Rect, Vec2, wf_rect, spec_overlaps, spec_translated, spec_v_contact};
use crate::ramp::RampTimer;
use crate::tile::Tile;
use crate::block::{MysteryBlocks, wf_block};
use crate::enemy::{Goomba, wf_goomba, spec_goomba_step, spec_goomba_reset};
use crate::player::{
    Player, PStatus, wf_player, wf_blocks, wf_goombas, bounded_player_aux, spec_player_step,
    spec_player_reset, spec_player_jump_phase,
    spec_player_gravity, spec_player_edge, spec_player_block_step, spec_player_tile_step,
    spec_player_tiles, spec_player_blocks, spec_player_goombas, spec_player_goomba_step,
    spec_player_canjump, spec_player_move, spec_player_status_select, spec_player_anim,
};
use crate::enemy::{
    spec_goomba_walk_vel, spec_goomba_gravity, spec_goomba_tile_step, spec_goomba_tiles,
    spec_goomba_edge, spec_goomba_move, spec_goomba_fall_out, spec_goomba_anim,
};
use crate::state::{
    GameStatus, spec_state_update, spec_reset_goombas, spec_reset_blocks, spec_update_goombas,
    spec_update_blocks, spec_defreeze_goombas,
};
use crate::tuning::{PLAYER_GRAVITY, ENEMY_SPEED, JUMP_WINDOW, RAMP_LIMIT, Direction};
use crate::player::PLAYER_ANIM_FRAMES;

verus! {

proof fn lemma_blocks_pass_empty(p: Player, tmp: Rect)
    ensures
        spec_player_blocks(p, Seq::empty(), tmp) == (p, Seq::<MysteryBlocks>::empty()),
{
}

proof fn lemma_tiles_pass_empty(p: Player, tmp: Rect)
    ensures
        spec_player_tiles(p, Seq::empty(), tmp) == p,
{
}

proof fn lemma_tiles_pass_one(p: Player, t: Tile, tmp: Rect)
    ensures
        spec_player_tiles(p, seq![t], tmp) == spec_player_tile_step(p, t, tmp),
{
    assert(seq![t].drop_first() =~= Seq::<Tile>::empty());
    assert(seq![t][0] == t);
    lemma_tiles_pass_empty(spec_player_tile_step(p, t, tmp), tmp);
}

proof fn lemma_goombas_pass_empty(p: Player, done: bool)
    ensures
        spec_player_goombas(p, Seq::empty(), done) == (p, Seq::<Goomba>::empty(), done),
{
}

proof fn lemma_goombas_pass_one(p: Player, g: Goomba, done: bool)
    ensures
        spec_player_goombas(p, seq![g], done) == ({
            let head = spec_player_goomba_step(p, g, done);
            (head.0, seq![head.1], head.2)
        }),
{
    let head = spec_player_goomba_step(p, g, done);
    assert(seq![g].drop_first() =~= Seq::<Goomba>::empty());
    assert(seq![g][0] == g);
    lemma_goombas_pass_empty(head.0, head.2);
    assert(seq![head.1] + Seq::<Goomba>::empty() =~= seq![head.1]);
}

proof fn lemma_goomba_tiles_empty(g: Goomba)
    ensures
        spec_goomba_tiles(g, Seq::empty()) == g,
{
}

proof fn lemma_goomba_tiles_one(g: Goomba, t: Tile)
    ensures
        spec_goomba_tiles(g, seq![t]) == spec_goomba_tile_step(g, t),
{
    assert(seq![t].drop_first() =~= Seq::<Tile>::empty());
    assert(seq![t][0] == t);
    lemma_goomba_tiles_empty(spec_goomba_tile_step(g, t));
}

/// A coordinate with `frames` whole simulation frames of room left before
/// it could leave the stored world range: each frame moves a coordinate by
/// at most one velocity plus the death-drop step, or snaps it onto level
/// geometry, which `anchored` keeps far inside the band.
pub open spec fn coord_in_band(v: i64, frames: int) -> bool {
    -8_000_000_000_000 + 102_000_000 * frames <= v <= 8_000_000_000_000 - 102_000_000 * frames
}

/// A velocity with `frames` frames of room left: a frame grows a velocity
/// magnitude by at most the jump impulse plus the gravity cap.
pub open spec fn vel_in_band(v: i64, frames: int) -> bool {
    -100_000_000 + 1_000 * frames <= v <= 100_000_000 - 1_000 * frames
}

/// Level geometry and spawn anchors sit well inside every band.
pub open spec fn anchored(v: i64) -> bool {
    -2_000_000_000_000 <= v <= 2_000_000_000_000
}

/// The player with `frames` frames of room in every coordinate and velocity.
pub open spec fn player_in_band(p: Player, frames: int) -> bool {
    &&& coord_in_band(p.shape.pos.x, frames)
    &&& coord_in_band(p.shape.pos.y, frames)
    &&& vel_in_band(p.velocity.x, frames)
    &&& vel_in_band(p.velocity.y, frames)
    &&& anchored(p.spos.x)
    &&& anchored(p.spos.y)
}

/// An enemy with `frames` frames of room in every coordinate and velocity.
pub open spec fn goomba_in_band(g: Goomba, frames: int) -> bool {
    &&& coord_in_band(g.shape.pos.x, frames)
    &&& coord_in_band(g.shape.pos.y, frames)
    &&& vel_in_band(g.velocity.x, frames)
    &&& vel_in_band(g.velocity.y, frames)
    &&& anchored(g.spos.x)
    &&& anchored(g.spos.y)
}

/// The whole enemy roster in band.
pub open spec fn goombas_in_band(s: Seq<Goomba>, frames: int) -> bool {
    forall|i: int| 0 <= i < s.len() ==> goomba_in_band(#[trigger] s[i], frames)
}

/// Every cell of the static surface anchored.
pub open spec fn tiles_anchored(s: Seq<Tile>) -> bool {
    forall|i: int|
        0 <= i < s.len() ==> anchored((#[trigger] s[i]).rect.pos.x) && anchored(s[i].rect.pos.y)
}

/// Every interactive block anchored.
pub open spec fn blocks_anchored(s: Seq<MysteryBlocks>) -> bool {
    forall|i: int|
        0 <= i < s.len() ==> anchored((#[trigger] s[i]).shape.pos.x) && anchored(s[i].shape.pos.y)
}

/// The largest frame budget the band constants support.
pub open spec fn band_budget(frames: int) -> bool {
    1 <= frames <= 50_000
}

/// The player run for `n` frames over an empty world with no input.
pub open spec fn spec_player_free_run(p: Player, n: nat) -> Player
    decreases n,
{
    if n == 0 {
        p
    } else {
        spec_player_free_run(
            spec_player_step(p, Seq::empty(), Seq::empty(), Seq::empty()).0,
            (n - 1) as nat,
        )
    }
}

/// With no wall present, every frame ticks the fall timer up by exactly one
/// (saturating far past where the gravity cap is reached), so the timer
/// strictly increases until capped gravity applies; its reset to zero is
/// the landing contact's doing, proved in `lemma_landing_rearms_jump`.
pub proof fn lemma_fall_timer_ramp(p: Player, n: nat)
    requires
        p.status != PStatus::Dead,
        !p.jumping,
        p.fall_timer.count <= RAMP_LIMIT,
        -2_000_000_000 + 300 * n <= p.velocity.y <= 0,
        -1_000_000_000 <= p.velocity.x <= 1_000_000_000,
        -1_000_000_000_000_000 + 2_000_000_000 * n <= p.shape.pos.x
            <= 1_000_000_000_000_000 - 2_000_000_000 * n,
        -1_000_000_000_000_000 + 2_000_000_000 * n <= p.shape.pos.y
            <= 1_000_000_000_000_000 - 2_000_000_000 * n,
        n <= 100_000,
    ensures
        spec_player_free_run(p, n).fall_timer.count == (if p.fall_timer.count + n <= RAMP_LIMIT {
            p.fall_timer.count + n
        } else {
            RAMP_LIMIT as int
        }),
    decreases n,
{
    if n > 0 {
        reveal(spec_player_step);
        let q = spec_player_step(p, Seq::empty(), Seq::empty(), Seq::empty()).0;
        let p1 = spec_player_jump_phase(p);
        assert(p1 == p);
        let p2 = spec_player_gravity(p1);
        let p3 = spec_player_edge(p2);
        assert(p3.fall_timer.count == if p.fall_timer.count < RAMP_LIMIT {
            p.fall_timer.count + 1
        } else {
            p.fall_timer.count as int
        });
        assert(p3.velocity.y < 0);
        lemma_blocks_pass_empty(p3, spec_translated(p3.shape, p3.velocity));
        lemma_tiles_pass_empty(p3, spec_translated(p3.shape, p3.velocity));
        lemma_goombas_pass_empty(p3, false);
        let p7 = spec_player_move(spec_player_canjump(p3));
        let p8 = spec_player_status_select(p7);
        assert(p8.status == PStatus::Jump);
        assert(q == spec_player_anim(p8));
        assert(q.fall_timer == p3.fall_timer);
        assert(q.status == PStatus::Jump);
        assert(!q.jumping);
        lemma_fall_timer_ramp(q, (n - 1) as nat);
        assert(spec_player_free_run(p, n) == spec_player_free_run(q, (n - 1) as nat));
    }
}

/// Landing idempotence: a player standing at rest on a wall cell, already
/// Idle with its animation synced, is a fixed point of the frame step —
/// every further frame keeps `velocity.y == 0` and `fall_timer == 0` and
/// changes nothing at all.
pub proof fn lemma_grounded_fixpoint(p: Player, t: Tile)
    requires
        t.wall,
        wf_rect(t.rect),
        wf_rect(p.shape),
        p.shape.h == t.rect.h,
        t.rect.h + p.shape.h > PLAYER_GRAVITY,
        p.shape.pos.x < t.rect.pos.x + t.rect.w,
        p.shape.pos.x + p.shape.w > t.rect.pos.x,
        p.shape.pos.y == t.rect.pos.y + t.rect.h,
        p.status == PStatus::Idle,
        p.velocity.x == 0,
        p.velocity.y == 0,
        !p.jumping,
        p.can_jump,
        p.jump_ctn == JUMP_WINDOW,
        p.fall_timer.count == 0,
        p.shown_frame == p.frame_index,
    ensures
        spec_player_step(p, seq![t], Seq::empty(), Seq::empty()).0 == p,
        spec_player_step(p, seq![t], Seq::empty(), Seq::empty()).0.velocity.y == 0,
        spec_player_step(p, seq![t], Seq::empty(), Seq::empty()).0.fall_timer.count == 0,
{
    reveal(spec_player_step);
    let p3 = spec_player_edge(spec_player_gravity(spec_player_jump_phase(p)));
    assert(p3.velocity.y == -PLAYER_GRAVITY);
    lemma_blocks_pass_empty(p3, spec_translated(p3.shape, p3.velocity));
    let tmp = spec_translated(p3.shape, p3.velocity);
    let p5 = spec_player_tile_step(p3, t, tmp);
    lemma_tiles_pass_one(p3, t, tmp);
    assert(p5.velocity.y == 0);
    assert(p5.shape == p.shape);
    lemma_goombas_pass_empty(p5, false);
    let p7 = spec_player_move(spec_player_canjump(p5));
    assert(p7 == spec_player_canjump(p5));
    assert(spec_player_status_select(p7) == p7);
    assert(spec_player_anim(p7) == p);
}

/// Landing idempotence over any number of frames: the grounded state stays
/// exactly itself.
pub proof fn lemma_grounded_fixpoint_frames(p: Player, t: Tile, n: nat)
    requires
        t.wall,
        wf_rect(t.rect),
        wf_rect(p.shape),
        p.shape.h == t.rect.h,
        t.rect.h + p.shape.h > PLAYER_GRAVITY,
        p.shape.pos.x < t.rect.pos.x + t.rect.w,
        p.shape.pos.x + p.shape.w > t.rect.pos.x,
        p.shape.pos.y == t.rect.pos.y + t.rect.h,
        p.status == PStatus::Idle,
        p.velocity.x == 0,
        p.velocity.y == 0,
        !p.jumping,
        p.can_jump,
        p.jump_ctn == JUMP_WINDOW,
        p.fall_timer.count == 0,
        p.shown_frame == p.frame_index,
    ensures
        spec_player_grounded_run(p, t, n) == p,
    decreases n,
{
    if n > 0 {
        lemma_grounded_fixpoint(p, t);
        lemma_grounded_fixpoint_frames(p, t, (n - 1) as nat);
    }
}

/// The player run for `n` frames over a world of one wall cell.
pub open spec fn spec_player_grounded_run(p: Player, t: Tile, n: nat) -> Player
    decreases n,
{
    if n == 0 {
        p
    } else {
        spec_player_grounded_run(
            spec_player_step(p, seq![t], Seq::empty(), Seq::empty()).0,
            t,
            (n - 1) as nat,
        )
    }
}

/// Jump-then-land: whatever the remaining impulse frames, a frame whose
/// integrated motion makes a downward vertical contact with a wall cell
/// ends with the impulse window cancelled and reloaded, the jump re-armed,
/// vertical velocity zero and the fall timer reset to exactly zero.
pub proof fn lemma_landing_rearms_jump(p: Player, t: Tile)
    requires
        t.wall,
        wf_rect(t.rect),
        wf_rect(p.shape),
        crate::geom::wf_vel(p.velocity),
        -JUMP_WINDOW - 1 <= p.jump_ctn <= JUMP_WINDOW,
        p.status != PStatus::Dead,
        ({
            let q = spec_player_edge(spec_player_gravity(spec_player_jump_phase(p)));
            &&& q.velocity.y < 0
            &&& spec_overlaps(spec_translated(q.shape, q.velocity), t.rect)
            &&& !crate::geom::spec_h_contact(q.shape, t.rect, q.velocity.x)
            &&& spec_v_contact(q.shape, t.rect, q.velocity.y)
        }),
    ensures
        ({
            let r = spec_player_step(p, seq![t], Seq::empty(), Seq::empty()).0;
            &&& r.can_jump
            &&& !r.jumping
            &&& r.jump_ctn == JUMP_WINDOW
            &&& r.velocity.y == 0
            &&& r.fall_timer.count == 0
        }),
{
    reveal(spec_player_step);
    let q = spec_player_edge(spec_player_gravity(spec_player_jump_phase(p)));
    lemma_blocks_pass_empty(q, spec_translated(q.shape, q.velocity));
    let tmp = spec_translated(q.shape, q.velocity);
    let p5 = spec_player_tile_step(q, t, tmp);
    lemma_tiles_pass_one(q, t, tmp);
    assert(p5.velocity.y == 0);
    assert(p5.jump_ctn == JUMP_WINDOW);
    assert(!p5.jumping);
    assert(p5.fall_timer.count == 0);
    lemma_goombas_pass_empty(p5, false);
    let p6 = spec_player_canjump(p5);
    assert(p6.can_jump);
    let p7 = spec_player_move(p6);
    let p8 = if p7.status != PStatus::Dead { spec_player_status_select(p7) } else { p7 };
    assert(spec_player_anim(p8).can_jump);
}

/// Reset idempotence: resetting twice in a row is the same as resetting
/// once — the player back at its spawn point at rest in its initial state,
/// every enemy at its spawn snapshot, every block uncollected.
pub proof fn lemma_reset_idempotent(p: Player, goombas: Seq<Goomba>, blocks: Seq<MysteryBlocks>)
    ensures
        spec_player_reset(spec_player_reset(p)) == spec_player_reset(p),
        spec_reset_goombas(spec_reset_goombas(goombas)) =~= spec_reset_goombas(goombas),
        spec_reset_blocks(spec_reset_blocks(blocks)) =~= spec_reset_blocks(blocks),
        spec_player_reset(p).shape.pos == p.spos,
        spec_player_reset(p).velocity == (Vec2 { x: 0, y: 0 }),
        spec_player_reset(p).status == PStatus::Walk,
        forall|i: int|
            0 <= i < blocks.len() ==> !(#[trigger] spec_reset_blocks(blocks)[i]).collected,
        forall|i: int|
            0 <= i < goombas.len() ==> {
                let g = #[trigger] spec_reset_goombas(goombas)[i];
                g.shape.pos == goombas[i].spos && g.velocity == (Vec2 { x: 0, y: 0 }) && !g.dead
                    && !g.disappear
            },
{
    assert forall|i: int| 0 <= i < goombas.len() implies #[trigger] spec_reset_goombas(
        spec_reset_goombas(goombas),
    )[i] == spec_reset_goombas(goombas)[i] by {
        assert(spec_reset_goombas(goombas)[i] == spec_goomba_reset(goombas[i]));
    }
    assert forall|i: int| 0 <= i < blocks.len() implies #[trigger] spec_reset_blocks(
        spec_reset_blocks(blocks),
    )[i] == spec_reset_blocks(blocks)[i] by {
        assert(spec_reset_blocks(blocks)[i] == crate::block::spec_block_reset(blocks[i]));
    }
}

/// Block collection is one-shot: to the player, a contact with an already
/// collected block resolves exactly as a contact with a solid wall cell of
/// the same box, and the block itself does not change.
pub proof fn lemma_collected_block_solid(p: Player, b: MysteryBlocks, tmp: Rect)
    requires
        b.collected,
    ensures
        spec_player_block_step(p, b, tmp).1 == b,
        spec_player_block_step(p, b, tmp).0 == spec_player_tile_step(
            p,
            Tile { rect: b.shape, wall: true },
            tmp,
        ),
{
}

/// Enemy bounce-back: an enemy walking right that meets a wall at its right
/// edge leaves the frame walking left at the same speed, already one step
/// to the left.
pub proof fn lemma_enemy_bounce_back(g: Goomba, t: Tile)
    requires
        !g.dead,
        !g.freeze,
        g.direction == Direction::Right,
        crate::enemy::wf_goomba(g),
        wf_rect(t.rect),
        t.wall,
        g.shape.pos.x + g.shape.w == t.rect.pos.x,
        g.shape.pos.y < t.rect.pos.y + t.rect.h,
        g.shape.pos.y + g.shape.h > t.rect.pos.y,
        g.shape.w + t.rect.w > ENEMY_SPEED,
        g.shape.pos.x > ENEMY_SPEED,
    ensures
        spec_goomba_step(g, seq![t]).direction == Direction::Left,
        spec_goomba_step(g, seq![t]).velocity.x == -ENEMY_SPEED,
        spec_goomba_step(g, seq![t]).shape.pos.x == g.shape.pos.x - ENEMY_SPEED,
{
    reveal(spec_goomba_step);
    let ga = spec_goomba_walk_vel(g);
    assert(ga.velocity.x == ENEMY_SPEED);
    let gb = spec_goomba_gravity(ga);
    let gc = spec_goomba_tile_step(gb, t);
    assert(!crate::geom::spec_v_contact(gb.shape, t.rect, gb.velocity.y));
    assert(crate::geom::spec_h_contact(gb.shape, t.rect, gb.velocity.x));
    assert(gc.direction == Direction::Left);
    assert(gc.velocity.x == -ENEMY_SPEED);
    lemma_goomba_tiles_one(gb, t);
    let gd = spec_goomba_edge(gc);
    assert(gd == gc);
    let ge = spec_goomba_move(gd);
    assert(ge.shape.pos.x == g.shape.pos.x - ENEMY_SPEED);
    let gf = spec_goomba_fall_out(ge);
    assert(spec_goomba_anim(gf).direction == Direction::Left);
}

/// The enemy run for `n` frames against a static surface.
pub open spec fn spec_goomba_run(g: Goomba, tiles: Seq<Tile>, n: nat) -> Goomba
    decreases n,
{
    if n == 0 {
        g
    } else {
        spec_goomba_run(spec_goomba_step(g, tiles), tiles, (n - 1) as nat)
    }
}

/// A frozen enemy has zero net displacement over arbitrarily many frames:
/// position, velocity and facing stay exactly as spawned until the
/// unfreeze trigger fires.
pub proof fn lemma_frozen_no_displacement(g: Goomba, tiles: Seq<Tile>, n: nat)
    requires
        g.freeze,
        !g.dead,
    ensures
        spec_goomba_run(g, tiles, n).shape == g.shape,
        spec_goomba_run(g, tiles, n).velocity == g.velocity,
        spec_goomba_run(g, tiles, n).direction == g.direction,
        spec_goomba_run(g, tiles, n).freeze,
        !spec_goomba_run(g, tiles, n).dead,
    decreases n,
{
    if n > 0 {
        reveal(spec_goomba_step);
        lemma_frozen_no_displacement(spec_goomba_step(g, tiles), tiles, (n - 1) as nat);
    }
}

/// With no wall present an enemy's fall timer also ticks up by exactly one
/// every frame, saturating only far past where its gravity cap is reached.
pub proof fn lemma_goomba_fall_timer_ticks(g: Goomba)
    requires
        !g.dead,
        !g.freeze,
    ensures
        spec_goomba_step(g, Seq::empty()).fall_timer == crate::ramp::spec_ticked(g.fall_timer),
{
    reveal(spec_goomba_step);
    let gb = spec_goomba_gravity(spec_goomba_walk_vel(g));
    lemma_goomba_tiles_empty(gb);
}

/// An enemy frame that resolves a downward vertical contact with a wall
/// cell ends with its fall timer reset to exactly zero and no downward
/// motion left.
pub proof fn lemma_goomba_landing_grounds_timer(g: Goomba, t: Tile)
    requires
        !g.dead,
        !g.freeze,
        t.wall,
        ({
            let gb = spec_goomba_gravity(spec_goomba_walk_vel(g));
            spec_v_contact(gb.shape, t.rect, gb.velocity.y)
        }),
    ensures
        spec_goomba_step(g, seq![t]).fall_timer.count == 0,
        spec_goomba_step(g, seq![t]).velocity.y == 0,
{
    reveal(spec_goomba_step);
    let gb = spec_goomba_gravity(spec_goomba_walk_vel(g));
    lemma_goomba_tiles_one(gb, t);
}

/// Stomp: a player falling onto a live enemy from above kills the enemy
/// that same frame, has its vertical velocity zeroed (the bounce), and
/// stays alive — its behavior state is untouched by the contact.
pub proof fn lemma_stomp(p: Player, g: Goomba)
    requires
        !g.dead,
        p.velocity.y < 0,
        wf_rect(p.shape),
        wf_rect(g.shape),
        crate::geom::wf_vel(p.velocity),
        spec_overlaps(spec_translated(p.shape, p.velocity), g.shape),
        spec_v_contact(p.shape, g.shape, p.velocity.y),
    ensures
        spec_player_goombas(p, seq![g], false).1[0].dead,
        spec_player_goombas(p, seq![g], false).0.velocity.y == 0,
        spec_player_goombas(p, seq![g], false).0.status == p.status,
        spec_player_goombas(p, seq![g], false).0.fall_timer == (RampTimer { count: 0 }),
{
    lemma_goombas_pass_one(p, g, false);
    let head = spec_player_goomba_step(p, g, false);
    assert(head.1.dead);
    assert(head.0.velocity.y == 0);
}

/// Discrete player fields the collision passes keep in their ranges.
spec fn player_pass_wf(p: Player) -> bool {
    &&& bounded_player_aux(p)
    &&& p.shown_frame < PLAYER_ANIM_FRAMES
    &&& 0 < p.shape.w <= 1_000_000
    &&& 0 < p.shape.h <= 1_000_000
}

/// The coordinate band widened by one obstacle snap: a resolution pass
/// leaves a coordinate unchanged or snaps it next to an obstacle, and both
/// land here.
spec fn coord_in_snap_band(v: i64, frames: int) -> bool {
    -8_000_000_000_000 + 102_000_000 * frames - 1_000_000 <= v <= 8_000_000_000_000 - 102_000_000
        * frames + 1_000_000
}

proof fn lemma_blocks_pass_band(p: Player, blocks: Seq<MysteryBlocks>, tmp: Rect, k: int)
    requires
        0 <= k <= 50_000,
        wf_blocks(blocks),
        blocks_anchored(blocks),
        player_pass_wf(p),
        coord_in_snap_band(p.shape.pos.x, k),
        coord_in_snap_band(p.shape.pos.y, k),
        anchored(p.spos.x),
        anchored(p.spos.y),
    ensures
        ({
            let r = spec_player_blocks(p, blocks, tmp);
            &&& player_pass_wf(r.0)
            &&& r.0.shape.w == p.shape.w
            &&& r.0.shape.h == p.shape.h
            &&& r.0.spos == p.spos
            &&& r.0.status == p.status
            &&& coord_in_snap_band(r.0.shape.pos.x, k)
            &&& coord_in_snap_band(r.0.shape.pos.y, k)
            &&& (r.0.velocity.x == p.velocity.x || r.0.velocity.x == 0)
            &&& (r.0.velocity.y == p.velocity.y || r.0.velocity.y == 0)
            &&& wf_blocks(r.1)
            &&& blocks_anchored(r.1)
            &&& r.1.len() == blocks.len()
        }),
    decreases blocks.len(),
{
    if blocks.len() != 0 {
        let head = spec_player_block_step(p, blocks[0], tmp);
        let rest = spec_player_blocks(head.0, blocks.drop_first(), tmp);
        lemma_blocks_pass_band(head.0, blocks.drop_first(), tmp, k);
        assert forall|i: int| 0 <= i < blocks.len() implies wf_block(
            #[trigger] (seq![head.1] + rest.1)[i],
        ) && anchored((seq![head.1] + rest.1)[i].shape.pos.x) && anchored(
            (seq![head.1] + rest.1)[i].shape.pos.y,
        ) by {
            if i > 0 {
                assert((seq![head.1] + rest.1)[i] == rest.1[i - 1]);
            }
        }
    }
}

proof fn lemma_tiles_pass_band(p: Player, tiles: Seq<Tile>, tmp: Rect, k: int)
    requires
        0 <= k <= 50_000,
        crate::tile::wf_tiles(tiles),
        tiles_anchored(tiles),
        player_pass_wf(p),
        coord_in_snap_band(p.shape.pos.x, k),
        coord_in_snap_band(p.shape.pos.y, k),
        anchored(p.spos.x),
        anchored(p.spos.y),
    ensures
        ({
            let r = spec_player_tiles(p, tiles, tmp);
            &&& player_pass_wf(r)
            &&& r.shape.w == p.shape.w
            &&& r.shape.h == p.shape.h
            &&& r.spos == p.spos
            &&& r.status == p.status
            &&& coord_in_snap_band(r.shape.pos.x, k)
            &&& coord_in_snap_band(r.shape.pos.y, k)
            &&& (r.velocity.x == p.velocity.x || r.velocity.x == 0)
            &&& (r.velocity.y == p.velocity.y || r.velocity.y == 0)
        }),
    decreases tiles.len(),
{
    if tiles.len() != 0 {
        lemma_tiles_pass_band(spec_player_tile_step(p, tiles[0], tmp), tiles.drop_first(), tmp, k);
    }
}

proof fn lemma_goombas_pass_band(p: Player, gs: Seq<Goomba>, done: bool, k: int)
    requires
        0 <= k <= 50_000,
        wf_goombas(gs),
        goombas_in_band(gs, k),
        player_pass_wf(p),
        coord_in_snap_band(p.shape.pos.x, k),
        coord_in_snap_band(p.shape.pos.y, k),
        anchored(p.spos.x),
        anchored(p.spos.y),
    ensures
        ({
            let r = spec_player_goombas(p, gs, done);
            &&& player_pass_wf(r.0)
            &&& r.0.shape.w == p.shape.w
            &&& r.0.shape.h == p.shape.h
            &&& r.0.spos == p.spos
            &&& coord_in_snap_band(r.0.shape.pos.x, k)
            &&& coord_in_snap_band(r.0.shape.pos.y, k)
            &&& (r.0.velocity.x == p.velocity.x || r.0.velocity.x == 0)
            &&& (r.0.velocity.y == p.velocity.y || r.0.velocity.y == 0)
            &&& wf_goombas(r.1)
            &&& goombas_in_band(r.1, k)
            &&& r.1.len() == gs.len()
        }),
    decreases gs.len(),
{
    if gs.len() != 0 {
        let head = spec_player_goomba_step(p, gs[0], done);
        let rest = spec_player_goombas(head.0, gs.drop_first(), head.2);
        assert(goomba_in_band(gs[0], k));
        lemma_goombas_pass_band(head.0, gs.drop_first(), head.2, k);
        assert forall|i: int| 0 <= i < gs.len() implies wf_goomba(
            #[trigger] (seq![head.1] + rest.1)[i],
        ) && goomba_in_band((seq![head.1] + rest.1)[i], k) by {
            if i > 0 {
                assert((seq![head.1] + rest.1)[i] == rest.1[i - 1]);
            }
        }
    }
}

/// One frame of the player keeps everything `Player::update` asks of its
/// inputs and spends one frame of band room.
#[verifier::rlimit(100)]
#[verifier::spinoff_prover]
pub proof fn lemma_player_step_wf(
    p: Player,
    tiles: Seq<Tile>,
    blocks: Seq<MysteryBlocks>,
    goombas: Seq<Goomba>,
    k: int,
)
    requires
        band_budget(k),
        wf_player(p),
        player_in_band(p, k),
        crate::tile::wf_tiles(tiles),
        tiles_anchored(tiles),
        wf_blocks(blocks),
        blocks_anchored(blocks),
        wf_goombas(goombas),
        goombas_in_band(goombas, k),
    ensures
        ({
            let r = spec_player_step(p, tiles, blocks, goombas);
            &&& wf_player(r.0)
            &&& player_in_band(r.0, k - 1)
            &&& wf_blocks(r.1)
            &&& blocks_anchored(r.1)
            &&& r.1.len() == blocks.len()
            &&& wf_goombas(r.2)
            &&& goombas_in_band(r.2, k)
            &&& r.2.len() == goombas.len()
        }),
{
    reveal(spec_player_step);
    if p.status != PStatus::Dead {
        let p1 = spec_player_jump_phase(p);
        let p2 = spec_player_gravity(p1);
        let p3 = spec_player_edge(p2);
        assert(player_pass_wf(p3));
        assert(-100_000_000 + 1_000 * k - 900 <= p3.velocity.y <= 100_000_000 - 1_000 * k + 900);
        let bpass = spec_player_blocks(p3, blocks, spec_translated(p3.shape, p3.velocity));
        lemma_blocks_pass_band(p3, blocks, spec_translated(p3.shape, p3.velocity), k);
        let p4 = bpass.0;
        let p5 = spec_player_tiles(p4, tiles, spec_translated(p4.shape, p4.velocity));
        lemma_tiles_pass_band(p4, tiles, spec_translated(p4.shape, p4.velocity), k);
        let gpass = spec_player_goombas(p5, goombas, false);
        lemma_goombas_pass_band(p5, goombas, false, k);
        let p6 = spec_player_canjump(gpass.0);
        let p7 = spec_player_move(p6);
        assert(coord_in_band(p7.shape.pos.x, k - 1));
        assert(-8_000_000_000_000 + 102_000_000 * k - 102_000_000 + 600 <= p7.shape.pos.y
            <= 8_000_000_000_000 - 102_000_000 * k + 102_000_000 - 600);
        let p8 = if p7.status != PStatus::Dead {
            spec_player_status_select(p7)
        } else {
            p7
        };
        assert(wf_player(spec_player_anim(p8)));
        assert(player_in_band(spec_player_anim(p8), k - 1));
    } else {
        assert(wf_player(spec_player_anim(p)));
        assert(player_in_band(spec_player_anim(p), k - 1));
    }
}

proof fn lemma_goomba_tiles_band(g: Goomba, tiles: Seq<Tile>, k: int)
    requires
        0 <= k <= 50_000,
        crate::tile::wf_tiles(tiles),
        tiles_anchored(tiles),
        0 < g.shape.h <= 1_000_000,
    ensures
        ({
            let r = spec_goomba_tiles(g, tiles);
            &&& r.shape.pos.x == g.shape.pos.x
            &&& (r.shape.pos.y == g.shape.pos.y || (-2_100_000_000_000 <= r.shape.pos.y
                <= 2_100_000_000_000))
            &&& (r.velocity.x == g.velocity.x || r.velocity.x == ENEMY_SPEED || r.velocity.x
                == -ENEMY_SPEED)
            &&& (r.velocity.y == g.velocity.y || r.velocity.y == 0)
            &&& r.shape.w == g.shape.w
            &&& r.shape.h == g.shape.h
            &&& r.spos == g.spos
            &&& r.sdirection == g.sdirection
            &&& r.sfreeze == g.sfreeze
            &&& r.dead == g.dead
            &&& r.disappear == g.disappear
            &&& r.freeze == g.freeze
            &&& r.walk_frame_cnt == g.walk_frame_cnt
            &&& r.die_frame_cnt == g.die_frame_cnt
            &&& r.frame_index == g.frame_index
            &&& r.shown_frame == g.shown_frame
        }),
    decreases tiles.len(),
{
    if tiles.len() != 0 {
        lemma_goomba_tiles_band(spec_goomba_tile_step(g, tiles[0]), tiles.drop_first(), k);
    }
}

/// One frame of an enemy keeps everything `Goomba::update` asks of its
/// input and spends one frame of band room.
pub proof fn lemma_goomba_step_wf(g: Goomba, tiles: Seq<Tile>, k: int)
    requires
        band_budget(k),
        wf_goomba(g),
        goomba_in_band(g, k),
        crate::tile::wf_tiles(tiles),
        tiles_anchored(tiles),
    ensures
        wf_goomba(spec_goomba_step(g, tiles)),
        goomba_in_band(spec_goomba_step(g, tiles), k - 1),
{
    reveal(spec_goomba_step);
    if !g.dead && !g.freeze {
        let ga = spec_goomba_walk_vel(g);
        let gb = spec_goomba_gravity(ga);
        assert(-100_000_000 + 1_000 * k - 300 <= gb.velocity.y <= 0);
        let gc = spec_goomba_tiles(gb, tiles);
        lemma_goomba_tiles_band(gb, tiles, k);
        let gd = spec_goomba_edge(gc);
        let ge = spec_goomba_move(gd);
        assert(coord_in_band(ge.shape.pos.x, k - 1));
        assert(coord_in_band(ge.shape.pos.y, k - 1));
        let gf = spec_goomba_fall_out(ge);
        assert(wf_goomba(spec_goomba_anim(gf)));
        assert(goomba_in_band(spec_goomba_anim(gf), k - 1));
    } else {
        assert(wf_goomba(spec_goomba_anim(g)));
        assert(goomba_in_band(spec_goomba_anim(g), k - 1));
    }
}

/// The frame driver's precondition survives the frame: from well-formed
/// entities with `k` frames of band room, one frame of `spec_state_update`
/// leaves them well formed again with one frame less room.
pub proof fn lemma_state_frame_wf(
    p: Player,
    tiles: Seq<Tile>,
    blocks: Seq<MysteryBlocks>,
    goombas: Seq<Goomba>,
    status: GameStatus,
    k: int,
)
    requires
        band_budget(k),
        wf_player(p),
        player_in_band(p, k),
        crate::tile::wf_tiles(tiles),
        tiles_anchored(tiles),
        wf_blocks(blocks),
        blocks_anchored(blocks),
        wf_goombas(goombas),
        goombas_in_band(goombas, k),
    ensures
        ({
            let r = spec_state_update(p, tiles, blocks, goombas, status);
            &&& wf_player(r.0)
            &&& player_in_band(r.0, k - 1)
            &&& wf_blocks(r.1)
            &&& blocks_anchored(r.1)
            &&& r.1.len() == blocks.len()
            &&& wf_goombas(r.2)
            &&& goombas_in_band(r.2, k - 1)
            &&& r.2.len() == goombas.len()
        }),
{
    reveal(spec_state_update);
    if status == GameStatus::GamePlay {
        lemma_player_step_wf(p, tiles, blocks, goombas, k);
        let step = spec_player_step(p, tiles, blocks, goombas);
        let fell = step.0.shape.pos.y <= 0;
        let p2 = if fell {
            spec_player_reset(step.0)
        } else {
            step.0
        };
        assert(wf_player(p2) && player_in_band(p2, k - 1));
        let blocks2 = if fell {
            spec_reset_blocks(step.1)
        } else {
            step.1
        };
        assert forall|i: int| 0 <= i < blocks2.len() implies wf_block(#[trigger] blocks2[i])
            && anchored(blocks2[i].shape.pos.x) && anchored(blocks2[i].shape.pos.y) by {
            if fell {
                assert(blocks2[i] == crate::block::spec_block_reset(step.1[i]));
            }
        }
        let goombas2 = if fell {
            spec_reset_goombas(step.2)
        } else {
            step.2
        };
        assert forall|i: int| 0 <= i < goombas2.len() implies wf_goomba(#[trigger] goombas2[i])
            && goomba_in_band(goombas2[i], k) by {
            if fell {
                assert(goombas2[i] == spec_goomba_reset(step.2[i]));
                assert(wf_goomba(step.2[i]));
            }
        }
        let goombas3 = spec_update_goombas(goombas2, tiles);
        assert forall|i: int| 0 <= i < goombas3.len() implies wf_goomba(#[trigger] goombas3[i])
            && goomba_in_band(goombas3[i], k - 1) by {
            assert(goombas3[i] == if !goombas2[i].disappear {
                spec_goomba_step(goombas2[i], tiles)
            } else {
                goombas2[i]
            });
            if !goombas2[i].disappear {
                lemma_goomba_step_wf(goombas2[i], tiles, k);
            }
        }
        let blocks3 = spec_update_blocks(blocks2);
        assert forall|i: int| 0 <= i < blocks3.len() implies wf_block(#[trigger] blocks3[i])
            && anchored(blocks3[i].shape.pos.x) && anchored(blocks3[i].shape.pos.y) by {
            assert(blocks3[i] == crate::block::spec_block_anim(blocks2[i]));
        }
        let goombas4 = spec_defreeze_goombas(goombas3, p2.shape.pos.x);
        assert forall|i: int| 0 <= i < goombas4.len() implies wf_goomba(#[trigger] goombas4[i])
            && goomba_in_band(goombas4[i], k - 1) by {
            assert(goombas4[i] == if crate::state::spec_defreeze_applies(i, p2.shape.pos.x) {
                Goomba { freeze: false, ..goombas3[i] }
            } else {
                goombas3[i]
            });
        }
    } else {
        assert(player_in_band(p, k - 1));
        assert forall|i: int| 0 <= i < goombas.len() implies goomba_in_band(
            #[trigger] goombas[i],
            k - 1,
        ) by {
            assert(goomba_in_band(goombas[i], k));
        }
    }
}

/// The driver run for `n` frames, frame results threaded through.
pub open spec fn spec_state_run(
    p: Player,
    tiles: Seq<Tile>,
    blocks: Seq<MysteryBlocks>,
    goombas: Seq<Goomba>,
    status: GameStatus,
    n: nat,
) -> (Player, Seq<MysteryBlocks>, Seq<Goomba>, GameStatus)
    decreases n,
{
    if n == 0 {
        (p, blocks, goombas, status)
    } else {
        let r = spec_state_update(p, tiles, blocks, goombas, status);
        spec_state_run(r.0, tiles, r.1, r.2, r.3, (n - 1) as nat)
    }
}

/// Chained frames are covered: a well-formed state whose entities have `n`
/// frames of band room keeps every frame's precondition through a whole
/// `n`-frame run, and ends well formed. The band is vast against the game:
/// level coordinates stay under 210_000 subunits and speeds under 1_000,
/// so a state fresh from `State::init` affords the full budget.
pub proof fn lemma_state_run_wf(
    p: Player,
    tiles: Seq<Tile>,
    blocks: Seq<MysteryBlocks>,
    goombas: Seq<Goomba>,
    status: GameStatus,
    n: nat,
)
    requires
        n <= 50_000,
        wf_player(p),
        player_in_band(p, n as int),
        crate::tile::wf_tiles(tiles),
        tiles_anchored(tiles),
        wf_blocks(blocks),
        blocks_anchored(blocks),
        wf_goombas(goombas),
        goombas_in_band(goombas, n as int),
    ensures
        ({
            let r = spec_state_run(p, tiles, blocks, goombas, status, n);
            &&& wf_player(r.0)
            &&& wf_blocks(r.1)
            &&& blocks_anchored(r.1)
            &&& r.1.len() == blocks.len()
            &&& wf_goombas(r.2)
            &&& goombas_in_band(r.2, 0)
            &&& player_in_band(r.0, 0)
            &&& r.2.len() == goombas.len()
        }),
    decreases n,
{
    if n == 0 {
        assert(player_in_band(p, 0));
        assert forall|i: int| 0 <= i < goombas.len() implies goomba_in_band(
            #[trigger] goombas[i],
            0,
        ) by {
            assert(goomba_in_band(goombas[i], n as int));
        }
    } else {
        lemma_state_frame_wf(p, tiles, blocks, goombas, status, n as int);
        let r = spec_state_update(p, tiles, blocks, goombas, status);
        lemma_state_run_wf(r.0, tiles, r.1, r.2, r.3, (n - 1) as nat);
    }
}

/// `lemma_state_frame_wf` in terms of a whole driver state: what
/// `State::update` requires of the state it returns holds again, so a
/// verified client can call it frame after frame.
pub proof fn lemma_update_preserves_wf_state(s: crate::state::State, k: int)
    requires
        band_budget(k),
        crate::state::wf_state(s),
        player_in_band(s.player, k),
        goombas_in_band(s.goombas@, k),
        tiles_anchored(s.map.tilemap@),
        blocks_anchored(s.mystery_blocks@),
    ensures
        ({
            let r = spec_state_update(
                s.player,
                s.map.tilemap@,
                s.mystery_blocks@,
                s.goombas@,
                s.game_status,
            );
            &&& wf_player(r.0)
            &&& player_in_band(r.0, k - 1)
            &&& wf_blocks(r.1)
            &&& blocks_anchored(r.1)
            &&& r.1.len() == s.mystery_blocks@.len()
            &&& wf_goombas(r.2)
            &&& goombas_in_band(r.2, k - 1)
            &&& r.2.len() == s.goombas@.len()
        }),
{
    lemma_state_frame_wf(
        s.player,
        s.map.tilemap@,
        s.mystery_blocks@,
        s.goombas@,
        s.game_status,
        k,
    );
}

} // verus!
