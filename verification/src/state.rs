//! The simulation frame driver: feeds input intents to the player, advances
//! every dynamic entity once per frame in a fixed order (player physics and
//! interactions, then enemies, then blocks), runs the level script's
//! unfreeze triggers, and raises the win state.

use vstd::prelude::*;
use vstd::pervasive::VecAdditionalExecFns;
use crate::geom::Vec2;
use crate::tile::{Tile, GameMap, wf_tiles};
use crate::block::{MysteryBlocks, wf_block, spec_block_anim, spec_block_reset};
use crate::enemy::{Goomba, wf_goomba, spec_goomba_step, spec_goomba_reset, spec_goomba_new};
use crate::player::{
    Player, PStatus, wf_player, wf_blocks, wf_goombas, spec_player_step, spec_player_reset,
    spec_player_new, spec_player_jump_trigger,
};
use crate::tuning::{Direction, PLAYER_SPEED};

verus! {

/// Overall game mode; only `GamePlay` simulates.
#[derive(PartialEq, Eq, Structural, Clone, Copy, Debug)]
pub enum GameStatus {
    GamePlay,
    Pause,
    Win,
}

/// One frame's input intent, already polled by the host loop.
#[derive(PartialEq, Eq, Structural, Clone, Copy, Debug)]
pub struct Input {
    pub left: bool,
    pub right: bool,
    /// Edge-triggered jump request.
    pub jump: bool,
    /// Edge-triggered level restart request.
    pub reset: bool,
}

/// Number of enemies the level spawns; the unfreeze script addresses them
/// by index.
pub const GOOMBA_COUNT: usize = 14;

/// Player x past which the first frozen pair wakes.
pub const DEFREEZE_FIRST_X: i64 = 64800;

/// Player x past which the second frozen pair wakes.
pub const DEFREEZE_SECOND_X: i64 = 79680;

/// Player x past which the last frozen four wake.
pub const DEFREEZE_THIRD_X: i64 = 108000;

/// Player x past which the level is complete.
pub const WIN_X: i64 = 192000;

pub struct State {
    pub game_status: GameStatus,
    pub player: Player,
    pub map: GameMap,
    pub goombas: Vec<Goomba>,
    pub mystery_blocks: Vec<MysteryBlocks>,
}

/// What `State::update` needs of a state built by `State::init`.
pub open spec fn wf_state(s: State) -> bool {
    &&& wf_player(s.player)
    &&& wf_tiles(s.map.tilemap@)
    &&& wf_blocks(s.mystery_blocks@)
    &&& wf_goombas(s.goombas@)
    &&& s.goombas@.len() == GOOMBA_COUNT
}

/// Every entity back at its spawn snapshot, play resumed.
pub open spec fn spec_reset_goombas(s: Seq<Goomba>) -> Seq<Goomba> {
    s.map_values(|g: Goomba| spec_goomba_reset(g))
}

/// Every block back to uncollected.
pub open spec fn spec_reset_blocks(s: Seq<MysteryBlocks>) -> Seq<MysteryBlocks> {
    s.map_values(|b: MysteryBlocks| spec_block_reset(b))
}

/// The per-frame enemy pass: removed enemies are skipped.
pub open spec fn spec_update_goombas(s: Seq<Goomba>, tiles: Seq<Tile>) -> Seq<Goomba> {
    s.map_values(|g: Goomba| if !g.disappear { spec_goomba_step(g, tiles) } else { g })
}

/// The per-frame block pass: only the decorative animation advances.
pub open spec fn spec_update_blocks(s: Seq<MysteryBlocks>) -> Seq<MysteryBlocks> {
    s.map_values(|b: MysteryBlocks| spec_block_anim(b))
}

/// The level script: which enemy index wakes once the player has crossed
/// which x threshold.
pub open spec fn spec_defreeze_applies(i: int, px: i64) -> bool {
    ||| (4 <= i <= 5 && px >= DEFREEZE_FIRST_X)
    ||| (6 <= i <= 7 && px >= DEFREEZE_SECOND_X)
    ||| (8 <= i <= 11 && px >= DEFREEZE_THIRD_X)
}

/// The unfreeze triggers applied to the whole roster.
pub open spec fn spec_defreeze_goombas(s: Seq<Goomba>, px: i64) -> Seq<Goomba> {
    s.map(
        |i: int, g: Goomba|
            if spec_defreeze_applies(i, px) {
                Goomba { freeze: false, ..g }
            } else {
                g
            },
    )
}

/// The input intent applied to the player: velocity rebuilt from scratch
/// each frame, facing follows the pressed direction, jump only in play.
pub open spec fn spec_apply_input(p: Player, status: GameStatus, inp: Input) -> Player {
    let q = Player { velocity: Vec2 { x: 0, y: 0 }, ..p };
    if status == GameStatus::GamePlay {
        let q1 = if inp.left {
            Player { velocity: Vec2 { x: (0 - PLAYER_SPEED) as i64, ..q.velocity }, flip: true, ..q }
        } else {
            q
        };
        let q2 = if inp.right {
            Player {
                velocity: Vec2 { x: (q1.velocity.x + PLAYER_SPEED) as i64, ..q1.velocity },
                flip: false,
                ..q1
            }
        } else {
            q1
        };
        if inp.jump {
            spec_player_jump_trigger(q2)
        } else {
            q2
        }
    } else {
        q
    }
}

/// One frame of the whole simulation, given the player after input was
/// applied: player physics and interactions, a fall-out restart, enemy and
/// block passes, the unfreeze script and the win check.
#[verifier::opaque]
pub open spec fn spec_state_update(
    p: Player,
    tiles: Seq<Tile>,
    blocks: Seq<MysteryBlocks>,
    goombas: Seq<Goomba>,
    status: GameStatus,
) -> (Player, Seq<MysteryBlocks>, Seq<Goomba>, GameStatus) {
    if status == GameStatus::GamePlay {
        let step = spec_player_step(p, tiles, blocks, goombas);
        let fell = step.0.shape.pos.y <= 0;
        let p2 = if fell {
            spec_player_reset(step.0)
        } else {
            step.0
        };
        let blocks2 = if fell {
            spec_reset_blocks(step.1)
        } else {
            step.1
        };
        let goombas2 = if fell {
            spec_reset_goombas(step.2)
        } else {
            step.2
        };
        let goombas3 = spec_update_goombas(goombas2, tiles);
        let blocks3 = spec_update_blocks(blocks2);
        let goombas4 = spec_defreeze_goombas(goombas3, p2.shape.pos.x);
        let statusw = if p2.shape.pos.x >= WIN_X {
            GameStatus::Win
        } else {
            GameStatus::GamePlay
        };
        (p2, blocks3, goombas4, statusw)
    } else {
        (p, blocks, goombas, status)
    }
}

/// The enemy roster the level spawns: four patrols on the ground, then
/// frozen groups the script wakes, then two more at the level's end.
pub open spec fn spec_spawn_goombas() -> Seq<Goomba> {
    seq![
        spec_goomba_new(21120, 2880, Direction::Right, false),
        spec_goomba_new(38400, 2880, Direction::Left, false),
        spec_goomba_new(50880, 2880, Direction::Left, false),
        spec_goomba_new(52800, 2880, Direction::Left, false),
        spec_goomba_new(78720, 10560, Direction::Left, true),
        spec_goomba_new(80640, 10560, Direction::Left, true),
        spec_goomba_new(93120, 2880, Direction::Left, true),
        spec_goomba_new(95040, 2880, Direction::Left, true),
        spec_goomba_new(125100, 2880, Direction::Right, true),
        spec_goomba_new(123840, 2880, Direction::Right, true),
        spec_goomba_new(122400, 2880, Direction::Left, true),
        spec_goomba_new(120960, 2880, Direction::Left, true),
        spec_goomba_new(165120, 2880, Direction::Left, false),
        spec_goomba_new(166080, 2880, Direction::Right, false),
    ]
}

/// The interactive blocks the level spawns.
pub open spec fn spec_spawn_blocks() -> Seq<MysteryBlocks> {
    seq![
        spec_block_at(15360, 5760),
        spec_block_at(20160, 5760),
        spec_block_at(21120, 9600),
        spec_block_at(22080, 5760),
        spec_block_at(61440, 6720),
        spec_block_at(76800, 5760),
        spec_block_at(92160, 9600),
        spec_block_at(92160, 5760),
        spec_block_at(98880, 5760),
        spec_block_at(103680, 5760),
        spec_block_at(106560, 9600),
        spec_block_at(106560, 5760),
        spec_block_at(109440, 5760),
        spec_block_at(125760, 9600),
        spec_block_at(126720, 9600),
        spec_block_at(165120, 5760),
    ]
}

/// A fresh block, as `MysteryBlocks::new` builds it.
pub open spec fn spec_block_at(x: i64, y: i64) -> MysteryBlocks {
    MysteryBlocks {
        shape: crate::geom::Rect {
            pos: Vec2 { x, y },
            w: crate::tuning::TILE_SIZE,
            h: crate::tuning::TILE_SIZE,
        },
        collected: false,
        sprite_update: 0,
        frame_index: 0,
        shown_frame: 0,
    }
}

impl State {
    /// A fresh simulation over an already loaded level: the player at its
    /// spawn point and the level's enemy and block rosters.
    pub fn init(map: GameMap) -> (s: State)
        ensures
            s.game_status == GameStatus::GamePlay,
            s.player == spec_player_new(Vec2 { x: 4800, y: 2880 }),
            s.map == map,
            s.goombas@ == spec_spawn_goombas(),
            s.mystery_blocks@ == spec_spawn_blocks(),
    {
        let player = Player::new(Vec2 { x: 4800, y: 2880 });

        let mut mystery_blocks: Vec<MysteryBlocks> = Vec::new();
        mystery_blocks.push(MysteryBlocks::new(15360, 5760));
        mystery_blocks.push(MysteryBlocks::new(20160, 5760));
        mystery_blocks.push(MysteryBlocks::new(21120, 9600));
        mystery_blocks.push(MysteryBlocks::new(22080, 5760));
        mystery_blocks.push(MysteryBlocks::new(61440, 6720));
        mystery_blocks.push(MysteryBlocks::new(76800, 5760));
        mystery_blocks.push(MysteryBlocks::new(92160, 9600));
        mystery_blocks.push(MysteryBlocks::new(92160, 5760));
        mystery_blocks.push(MysteryBlocks::new(98880, 5760));
        mystery_blocks.push(MysteryBlocks::new(103680, 5760));
        mystery_blocks.push(MysteryBlocks::new(106560, 9600));
        mystery_blocks.push(MysteryBlocks::new(106560, 5760));
        mystery_blocks.push(MysteryBlocks::new(109440, 5760));
        mystery_blocks.push(MysteryBlocks::new(125760, 9600));
        mystery_blocks.push(MysteryBlocks::new(126720, 9600));
        mystery_blocks.push(MysteryBlocks::new(165120, 5760));

        let mut goombas: Vec<Goomba> = Vec::new();
        goombas.push(Goomba::new(21120, 2880, Direction::Right, false));
        goombas.push(Goomba::new(38400, 2880, Direction::Left, false));
        goombas.push(Goomba::new(50880, 2880, Direction::Left, false));
        goombas.push(Goomba::new(52800, 2880, Direction::Left, false));
        goombas.push(Goomba::new(78720, 10560, Direction::Left, true));
        goombas.push(Goomba::new(80640, 10560, Direction::Left, true));
        goombas.push(Goomba::new(93120, 2880, Direction::Left, true));
        goombas.push(Goomba::new(95040, 2880, Direction::Left, true));
        goombas.push(Goomba::new(125100, 2880, Direction::Right, true));
        goombas.push(Goomba::new(123840, 2880, Direction::Right, true));
        goombas.push(Goomba::new(122400, 2880, Direction::Left, true));
        goombas.push(Goomba::new(120960, 2880, Direction::Left, true));
        goombas.push(Goomba::new(165120, 2880, Direction::Left, false));
        goombas.push(Goomba::new(166080, 2880, Direction::Right, false));

        proof {
            assert(goombas@ =~= spec_spawn_goombas());
            assert(mystery_blocks@ =~= spec_spawn_blocks());
        }

        State { game_status: GameStatus::GamePlay, player, map, goombas, mystery_blocks }
    }

    /// Applies one frame's input intent: the player's velocity is rebuilt
    /// from the held directions, jump fires edge-triggered, and the restart
    /// request resets the whole level synchronously.
    pub fn handle_input(&mut self, input: Input)
        ensures
            final(self).player == (if input.reset {
                spec_player_reset(
                    spec_apply_input(old(self).player, old(self).game_status, input),
                )
            } else {
                spec_apply_input(old(self).player, old(self).game_status, input)
            }),
            final(self).goombas@ == (if input.reset {
                spec_reset_goombas(old(self).goombas@)
            } else {
                old(self).goombas@
            }),
            final(self).mystery_blocks@ == (if input.reset {
                spec_reset_blocks(old(self).mystery_blocks@)
            } else {
                old(self).mystery_blocks@
            }),
            final(self).game_status == (if input.reset {
                GameStatus::GamePlay
            } else {
                old(self).game_status
            }),
            final(self).map == old(self).map,
    {
        self.player.clear_velocity();
        if self.game_status == GameStatus::GamePlay {
            if input.left {
                self.player.set_xvelocity(-PLAYER_SPEED);
                self.player.flip_spritesheet(true);
            }
            if input.right {
                self.player.set_xvelocity(PLAYER_SPEED);
                self.player.flip_spritesheet(false);
            }
            if input.jump {
                self.player.jump();
            }
        }
        if input.reset {
            self.reset();
        }
    }

    /// Restores every entity's spawn snapshot and resumes play.
    fn reset(&mut self)
        ensures
            final(self).player == spec_player_reset(old(self).player),
            final(self).goombas@ == spec_reset_goombas(old(self).goombas@),
            final(self).mystery_blocks@ == spec_reset_blocks(old(self).mystery_blocks@),
            final(self).game_status == GameStatus::GamePlay,
            final(self).map == old(self).map,
    {
        self.player.reset();
        reset_goombas_pass(&mut self.goombas);
        reset_blocks_pass(&mut self.mystery_blocks);
        self.game_status = GameStatus::GamePlay;
    }

    /// One simulation frame in the fixed order the engine guarantees.
    #[verifier::rlimit(100)]
    #[verifier::spinoff_prover]
    pub fn update(&mut self)
        requires
            wf_state(*old(self)),
        ensures
            ({
                let r = spec_state_update(
                    old(self).player,
                    old(self).map.tilemap@,
                    old(self).mystery_blocks@,
                    old(self).goombas@,
                    old(self).game_status,
                );
                &&& final(self).player == r.0
                &&& final(self).mystery_blocks@ == r.1
                &&& final(self).goombas@ == r.2
                &&& final(self).game_status == r.3
                &&& final(self).map == old(self).map
            }),
    {
        proof {
            reveal(spec_state_update);
        }
        if self.game_status == GameStatus::GamePlay {
            self.player.update(&self.map.tilemap, &mut self.mystery_blocks, &mut self.goombas);
            if self.player.get_y() <= 0 {
                let ghost gpre = self.goombas@;
                let ghost bpre = self.mystery_blocks@;
                self.reset();
                proof {
                    assert forall|k: int| 0 <= k < self.goombas@.len() implies wf_goomba(
                        #[trigger] self.goombas@[k],
                    ) by {
                        assert(self.goombas@[k] == spec_goomba_reset(gpre[k]));
                        assert(wf_goomba(gpre[k]));
                    }
                    assert forall|k: int| 0 <= k < self.mystery_blocks@.len() implies wf_block(
                        #[trigger] self.mystery_blocks@[k],
                    ) by {
                        assert(self.mystery_blocks@[k] == spec_block_reset(bpre[k]));
                        assert(wf_block(bpre[k]));
                    }
                }
            }
            update_goombas_pass(&mut self.goombas, &self.map.tilemap);
            update_blocks_pass(&mut self.mystery_blocks);
            let ghost gd = self.goombas@;
            assert(self.goombas@.len() == GOOMBA_COUNT);
            let px = self.player.get_x();
            if px >= DEFREEZE_FIRST_X {
                self.defreeze_at(4);
                self.defreeze_at(5);
            }
            if px >= DEFREEZE_SECOND_X {
                self.defreeze_at(6);
                self.defreeze_at(7);
            }
            if px >= DEFREEZE_THIRD_X {
                self.defreeze_at(8);
                self.defreeze_at(9);
                self.defreeze_at(10);
                self.defreeze_at(11);
            }
            proof {
                assert(self.goombas@ =~= spec_defreeze_goombas(gd, px));
            }
            if px >= WIN_X {
                self.game_status = GameStatus::Win;
            }
        }
    }

    /// Wakes one scripted enemy.
    fn defreeze_at(&mut self, i: usize)
        requires
            i < old(self).goombas@.len(),
        ensures
            final(self).goombas@ == old(self).goombas@.update(
                i as int,
                Goomba { freeze: false, ..old(self).goombas@[i as int] },
            ),
            final(self).player == old(self).player,
            final(self).mystery_blocks == old(self).mystery_blocks,
            final(self).map == old(self).map,
            final(self).game_status == old(self).game_status,
    {
        let mut g = self.goombas[i];
        g.defreeze();
        self.goombas.set(i, g);
    }
}

/// Resets the whole roster in place.
fn reset_goombas_pass(goombas: &mut Vec<Goomba>)
    ensures
        final(goombas)@ == spec_reset_goombas(old(goombas)@),
{
    let ghost g0 = goombas@;
    let mut i: usize = 0;
    while i < goombas.len()
        invariant
            0 <= i <= g0.len(),
            goombas@.len() == g0.len(),
            forall|k: int| 0 <= k < i ==> goombas@[k] == spec_goomba_reset(#[trigger] g0[k]),
            forall|k: int| i <= k < g0.len() ==> goombas@[k] == #[trigger] g0[k],
        decreases g0.len() - i,
    {
        let mut g = goombas[i];
        g.reset();
        goombas.set(i, g);
        i = i + 1;
    }
    proof {
        assert(goombas@ =~= spec_reset_goombas(g0));
    }
}

/// Resets every block in place.
fn reset_blocks_pass(blocks: &mut Vec<MysteryBlocks>)
    ensures
        final(blocks)@ == spec_reset_blocks(old(blocks)@),
{
    let ghost b0 = blocks@;
    let mut j: usize = 0;
    while j < blocks.len()
        invariant
            0 <= j <= b0.len(),
            blocks@.len() == b0.len(),
            forall|k: int| 0 <= k < j ==> blocks@[k] == spec_block_reset(#[trigger] b0[k]),
            forall|k: int| j <= k < b0.len() ==> blocks@[k] == #[trigger] b0[k],
        decreases b0.len() - j,
    {
        let mut b = blocks[j];
        b.reset();
        blocks.set(j, b);
        j = j + 1;
    }
    proof {
        assert(blocks@ =~= spec_reset_blocks(b0));
    }
}

/// Advances every enemy that has not been removed.
fn update_goombas_pass(goombas: &mut Vec<Goomba>, tiles: &crate::tile::TileMap)
    requires
        wf_goombas(old(goombas)@),
        wf_tiles(tiles@),
    ensures
        final(goombas)@ == spec_update_goombas(old(goombas)@, tiles@),
{
    let ghost g0 = goombas@;
    let mut i: usize = 0;
    while i < goombas.len()
        invariant
            0 <= i <= g0.len(),
            goombas@.len() == g0.len(),
            wf_tiles(tiles@),
            wf_goombas(g0),
            forall|k: int|
                0 <= k < i ==> goombas@[k] == (if !g0[k].disappear {
                    spec_goomba_step(#[trigger] g0[k], tiles@)
                } else {
                    g0[k]
                }),
            forall|k: int| i <= k < g0.len() ==> goombas@[k] == #[trigger] g0[k],
        decreases g0.len() - i,
    {
        assert(goombas@[i as int] == g0[i as int]);
        assert(wf_goomba(g0[i as int]));
        let disappeared = goombas[i].is_disappear();
        if !disappeared {
            let mut g = goombas[i];
            g.update(tiles);
            goombas.set(i, g);
        }
        i = i + 1;
    }
    proof {
        assert(goombas@ =~= spec_update_goombas(g0, tiles@));
    }
}

/// Advances every block's decorative animation.
fn update_blocks_pass(blocks: &mut Vec<MysteryBlocks>)
    requires
        wf_blocks(old(blocks)@),
    ensures
        final(blocks)@ == spec_update_blocks(old(blocks)@),
{
    let ghost b0 = blocks@;
    let mut j: usize = 0;
    while j < blocks.len()
        invariant
            0 <= j <= b0.len(),
            blocks@.len() == b0.len(),
            wf_blocks(b0),
            forall|k: int| 0 <= k < j ==> blocks@[k] == spec_block_anim(#[trigger] b0[k]),
            forall|k: int| j <= k < b0.len() ==> blocks@[k] == #[trigger] b0[k],
        decreases b0.len() - j,
    {
        assert(blocks@[j as int] == b0[j as int]);
        assert(wf_block(b0[j as int]));
        let mut b = blocks[j];
        b.update();
        blocks.set(j, b);
        j = j + 1;
    }
    proof {
        assert(blocks@ =~= spec_update_blocks(b0));
    }
}

} // verus!
