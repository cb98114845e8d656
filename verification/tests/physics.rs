use platformer_core::geom::{Rect, Vec2};
use platformer_core::tile::Tile;
use platformer_core::block::{MysteryBlocks, BlockAnim};
use platformer_core::enemy::{Goomba, GoombaAnim};
use platformer_core::player::{Player, PStatus};
use platformer_core::tuning::Direction;
use platformer_core::entity::SpriteUser;

fn no_blocks() -> Vec<MysteryBlocks> {
    Vec::new()
}

fn no_goombas() -> Vec<Goomba> {
    Vec::new()
}

fn floor_row(y: i64) -> Vec<Tile> {
    // a long run of wall cells whose tops sit at y
    let mut tiles = Vec::new();
    let mut x: i64 = 0;
    while x < 20 * 960 {
        tiles.push(Tile::new(true, x, y - 960));
        x += 960;
    }
    tiles
}

#[test]
fn gravity_ramp_exact_first_frames() {
    // free fall over an empty world: pull is fall_timer * 10, so the first
    // two frames contribute exactly 10 and 20 subunits
    let mut p = Player::new(Vec2 { x: 4800, y: 2880 });
    let tiles: Vec<Tile> = Vec::new();
    let mut blocks = no_blocks();
    let mut goombas = no_goombas();
    p.update(&tiles, &mut blocks, &mut goombas);
    assert_eq!(p.get_yvelocity(), -10);
    assert_eq!(p.get_y(), 2870);
    assert_eq!(p.fall_timer.count, 1);
    p.update(&tiles, &mut blocks, &mut goombas);
    assert_eq!(p.get_yvelocity(), -30);
    assert_eq!(p.get_y(), 2840);
    assert_eq!(p.fall_timer.count, 2);
    assert_eq!(p.status, PStatus::Jump);
}

#[test]
fn gravity_contribution_caps_at_five_units() {
    // after 30 airborne frames the per-frame contribution is pinned at 300
    let mut p = Player::new(Vec2 { x: 4800, y: 2_000_000 });
    let tiles: Vec<Tile> = Vec::new();
    let mut blocks = no_blocks();
    let mut goombas = no_goombas();
    let mut prev_vy = 0;
    for i in 1..40 {
        p.update(&tiles, &mut blocks, &mut goombas);
        let contribution = p.get_yvelocity() - prev_vy;
        let expected = if 10 * i < 300 { -10 * i } else { -300 };
        assert_eq!(contribution, expected);
        prev_vy = p.get_yvelocity();
        assert_eq!(p.fall_timer.count, i as u32);
    }
}

#[test]
fn landing_resets_fall_timer_to_zero() {
    let mut p = Player::new(Vec2 { x: 4800, y: 3400 });
    let tiles = floor_row(2880);
    let mut blocks = no_blocks();
    let mut goombas = no_goombas();
    for _ in 0..30 {
        p.update(&tiles, &mut blocks, &mut goombas);
        if p.get_yvelocity() == 0 && p.get_y() == 2880 {
            break;
        }
    }
    assert_eq!(p.get_y(), 2880);
    assert_eq!(p.get_yvelocity(), 0);
    assert_eq!(p.fall_timer.count, 0);
    assert!(p.can_jump);
}

#[test]
fn grounded_frames_keep_rest_state() {
    // landing idempotence: once grounded at rest, frames change nothing
    let mut p = Player::new(Vec2 { x: 4800, y: 3400 });
    let tiles = floor_row(2880);
    let mut blocks = no_blocks();
    let mut goombas = no_goombas();
    for _ in 0..30 {
        p.update(&tiles, &mut blocks, &mut goombas);
    }
    assert_eq!(p.get_y(), 2880);
    let settled = p;
    for _ in 0..20 {
        p.update(&tiles, &mut blocks, &mut goombas);
        assert_eq!(p.get_yvelocity(), 0);
        assert_eq!(p.fall_timer.count, 0);
    }
    assert_eq!(p, settled);
}

#[test]
fn jump_gating_and_rearm_on_landing() {
    let mut p = Player::new(Vec2 { x: 4800, y: 3400 });
    let tiles = floor_row(2880);
    let mut blocks = no_blocks();
    let mut goombas = no_goombas();
    for _ in 0..30 {
        p.update(&tiles, &mut blocks, &mut goombas);
    }
    assert!(p.can_jump);
    p.jump();
    assert!(p.jumping);
    assert!(!p.can_jump);
    // jump() while disarmed is a no-op
    let mid = p;
    p.jump();
    assert_eq!(p, mid);
    // ride the jump out under the driver's frame discipline (velocity is
    // rebuilt every frame); the landing contact must cancel the window,
    // reload the counter and re-arm the jump
    let mut landed = false;
    for _ in 0..200 {
        p.clear_velocity();
        p.update(&tiles, &mut blocks, &mut goombas);
        if p.get_y() == 2880 && p.get_yvelocity() == 0 {
            landed = true;
            break;
        }
    }
    assert!(landed);
    assert!(p.can_jump);
    assert!(!p.jumping);
    assert_eq!(p.jump_ctn, 10);
    assert_eq!(p.fall_timer.count, 0);
}

#[test]
fn first_jump_frame_velocity_is_exact() {
    // impulse (10 + 10) * 30 = 600 minus the first gravity pull of 10
    let mut p = Player::new(Vec2 { x: 4800, y: 3400 });
    let tiles = floor_row(2880);
    let mut blocks = no_blocks();
    let mut goombas = no_goombas();
    for _ in 0..30 {
        p.update(&tiles, &mut blocks, &mut goombas);
    }
    p.clear_velocity();
    p.jump();
    p.update(&tiles, &mut blocks, &mut goombas);
    assert_eq!(p.get_yvelocity(), 590);
    assert_eq!(p.get_y(), 2880 + 590);
    assert_eq!(p.jump_ctn, 9);
    assert_eq!(p.status, PStatus::Jump);
}

#[test]
fn block_collected_from_above_once() {
    // falling onto a block collects it and stops the fall like a landing
    let mut p = Player::new(Vec2 { x: 0, y: 2000 });
    let tiles: Vec<Tile> = Vec::new();
    let mut blocks = vec![MysteryBlocks::new(0, 0)];
    let mut goombas = no_goombas();
    let mut landed = false;
    for _ in 0..40 {
        p.update(&tiles, &mut blocks, &mut goombas);
        if p.get_yvelocity() == 0 && p.get_y() == 960 {
            landed = true;
            break;
        }
    }
    assert!(landed);
    assert!(blocks[0].is_collected());
    assert_eq!(blocks[0].current_animation(), BlockAnim::Collected);
    assert_eq!(p.fall_timer.count, 0);
}

#[test]
fn block_collection_is_one_shot() {
    // a second contact with the collected block is a plain solid stop and
    // leaves the block exactly as it was
    let mut p = Player::new(Vec2 { x: 0, y: 2000 });
    let tiles: Vec<Tile> = Vec::new();
    let mut blocks = vec![MysteryBlocks::new(0, 0)];
    let mut goombas = no_goombas();
    for _ in 0..40 {
        p.update(&tiles, &mut blocks, &mut goombas);
        if p.get_yvelocity() == 0 && p.get_y() == 960 {
            break;
        }
    }
    assert!(blocks[0].is_collected());
    let collected_once = blocks[0];
    // lift the player and drop it onto the same block again
    p.shape.pos.y = 2000;
    p.velocity = Vec2 { x: 0, y: 0 };
    p.fall_timer.reset();
    let mut landed = false;
    for _ in 0..40 {
        p.update(&tiles, &mut blocks, &mut goombas);
        if p.get_yvelocity() == 0 && p.get_y() == 960 {
            landed = true;
            break;
        }
    }
    assert!(landed);
    assert_eq!(blocks[0], collected_once);
}

#[test]
fn block_from_below_stops_without_collecting() {
    // rising into a block from below is a solid stop, no collection
    let mut p = Player::new(Vec2 { x: 0, y: 0 });
    let tiles: Vec<Tile> = Vec::new();
    let mut blocks = vec![MysteryBlocks::new(0, 2000)];
    let mut goombas = no_goombas();
    p.velocity = Vec2 { x: 0, y: 1200 };
    p.jumping = false;
    p.update(&tiles, &mut blocks, &mut goombas);
    assert!(!blocks[0].is_collected());
    assert_eq!(p.get_y(), 2000 - 960);
    assert_eq!(p.get_yvelocity(), 0);
    // a ceiling contact stops upward motion only: the airborne-frame
    // counter keeps running, so the gravity ramp is not restarted
    assert_eq!(p.fall_timer.count, 1);
}

#[test]
fn enemy_bounces_back_at_wall() {
    // walking right into a wall reverses the patrol with equal speed
    let mut g = Goomba::new(4800, 2880, Direction::Right, false);
    let mut tiles = floor_row(2880);
    tiles.push(Tile::new(true, 4800 + 960, 2880));
    g.update(&tiles);
    assert_eq!(g.direction, Direction::Left);
    assert_eq!(g.velocity.x, -60);
    assert_eq!(g.get_rect().pos.x, 4800 - 60);
}

#[test]
fn enemy_patrols_left_at_constant_speed() {
    let mut g = Goomba::new(4800, 2880, Direction::Left, false);
    let tiles = floor_row(2880);
    for i in 1..=5 {
        g.update(&tiles);
        assert_eq!(g.get_rect().pos.x, 4800 - 60 * i);
        assert_eq!(g.get_rect().pos.y, 2880);
    }
}

#[test]
fn enemy_turns_at_world_edge() {
    // the clamp zeroes leftward motion and reverses the facing; the patrol
    // holds its ground that frame and walks right from the next one
    let mut g = Goomba::new(30, 2880, Direction::Left, false);
    let tiles = floor_row(2880);
    g.update(&tiles);
    assert_eq!(g.direction, Direction::Right);
    assert_eq!(g.velocity.x, 0);
    assert_eq!(g.get_rect().pos.x, 30);
    g.update(&tiles);
    assert_eq!(g.velocity.x, 60);
    assert_eq!(g.get_rect().pos.x, 90);
}

#[test]
fn frozen_enemy_has_zero_net_displacement() {
    let mut g = Goomba::new(4800, 2880, Direction::Left, true);
    let tiles = floor_row(2880);
    for _ in 0..100 {
        g.update(&tiles);
        assert_eq!(g.get_rect().pos, Vec2 { x: 4800, y: 2880 });
    }
    g.defreeze();
    g.update(&tiles);
    assert_eq!(g.get_rect().pos.x, 4800 - 60);
    assert_eq!(g.get_rect().pos.y, 2880);
}

#[test]
fn stomped_enemy_dies_player_bounces() {
    let mut p = Player::new(Vec2 { x: 4800, y: 4200 });
    let tiles: Vec<Tile> = Vec::new();
    let mut blocks = no_blocks();
    let mut goombas = vec![Goomba::new(4800, 2880, Direction::Left, false)];
    let mut stomped = false;
    for _ in 0..40 {
        p.update(&tiles, &mut blocks, &mut goombas);
        if goombas[0].is_dying() {
            stomped = true;
            break;
        }
    }
    assert!(stomped);
    assert_eq!(p.get_yvelocity(), 0);
    assert!(!p.is_dying());
    assert_eq!(goombas[0].current_animation(), GoombaAnim::Dead);
    // the bounce stands the player on the enemy's top
    assert_eq!(p.get_y(), 2880 + 960);
}

#[test]
fn side_contact_with_enemy_kills_player() {
    let mut p = Player::new(Vec2 { x: 4000, y: 2880 });
    let tiles = floor_row(2880);
    let mut blocks = no_blocks();
    let mut goombas = vec![Goomba::new(4000 + 960, 2880, Direction::Left, true)];
    p.velocity = Vec2 { x: 120, y: 0 };
    p.update(&tiles, &mut blocks, &mut goombas);
    assert!(p.is_dying());
    assert_eq!(p.status, PStatus::Dead);
    assert!(!goombas[0].is_dying());
    assert_eq!(p.dead_velocity, 600 - 30);
}

#[test]
fn death_drop_effect_is_exact() {
    let mut p = Player::new(Vec2 { x: 4000, y: 2880 });
    let tiles = floor_row(2880);
    let mut blocks = no_blocks();
    let mut goombas = vec![Goomba::new(4000 + 960, 2880, Direction::Left, true)];
    p.velocity = Vec2 { x: 120, y: 0 };
    p.update(&tiles, &mut blocks, &mut goombas);
    assert!(p.is_dying());
    // the death frame already applied one drop step of +600
    let y0 = p.get_y();
    p.update(&tiles, &mut blocks, &mut goombas);
    assert_eq!(p.get_y(), y0 + 570);
    p.update(&tiles, &mut blocks, &mut goombas);
    assert_eq!(p.get_y(), y0 + 570 + 540);
}

#[test]
fn dying_enemy_is_removed_after_death_pose() {
    let mut g = Goomba::new(4800, 2880, Direction::Left, false);
    let tiles = floor_row(2880);
    g.die();
    assert!(g.is_dying());
    assert!(!g.is_disappear());
    // a second trigger changes nothing
    let once = g;
    g.die();
    assert_eq!(g, once);
    for _ in 0..31 {
        g.update(&tiles);
        assert!(!g.is_disappear());
    }
    g.update(&tiles);
    assert!(g.is_disappear());
}

#[test]
fn enemy_falling_out_of_world_is_removed() {
    let mut g = Goomba::new(4800, 200, Direction::Left, false);
    let tiles: Vec<Tile> = Vec::new();
    let mut gone = false;
    for _ in 0..60 {
        g.update(&tiles);
        if g.is_disappear() {
            gone = true;
            break;
        }
    }
    assert!(gone);
    assert!(g.is_dying());
}

#[test]
fn block_idle_animation_cycles() {
    let mut b = MysteryBlocks::new(0, 0);
    // counts up for 16 frames, then advances the frame on the 17th
    for _ in 0..16 {
        b.update();
        assert_eq!(b.frame_index, 0);
    }
    b.update();
    assert_eq!(b.frame_index, 1);
    assert_eq!(b.shown_frame, 1);
    assert_eq!(b.sprite_update, 0);
    // a collected block holds still
    b.collect();
    let held = b;
    for _ in 0..40 {
        b.update();
    }
    assert_eq!(b, held);
}

#[test]
fn entity_resets_restore_spawn_snapshot() {
    let tiles = floor_row(2880);
    let mut g = Goomba::new(4800, 2880, Direction::Right, true);
    g.defreeze();
    for _ in 0..10 {
        g.update(&tiles);
    }
    g.die();
    g.reset();
    assert_eq!(g.get_rect().pos, Vec2 { x: 4800, y: 2880 });
    assert_eq!(g.velocity, Vec2 { x: 0, y: 0 });
    assert_eq!(g.direction, Direction::Right);
    assert!(g.freeze);
    assert!(!g.is_dying());
    assert!(!g.is_disappear());
    let after_one = g;
    g.reset();
    assert_eq!(g, after_one);

    let mut b = MysteryBlocks::new(0, 0);
    b.collect();
    b.reset();
    assert!(!b.is_collected());
    let b_once = b;
    b.reset();
    assert_eq!(b, b_once);

    let mut p = Player::new(Vec2 { x: 4800, y: 2880 });
    let mut blocks = no_blocks();
    let mut goombas = no_goombas();
    for _ in 0..10 {
        p.update(&tiles, &mut blocks, &mut goombas);
    }
    p.reset();
    assert_eq!(p.get_x(), 4800);
    assert_eq!(p.get_y(), 2880);
    assert_eq!(p.get_xvelocity(), 0);
    assert_eq!(p.get_yvelocity(), 0);
    assert_eq!(p.status, PStatus::Walk);
    assert!(p.can_jump);
    let p_once = p;
    p.reset();
    assert_eq!(p, p_once);
}

#[test]
fn sprite_reload_syncs_presented_frame() {
    let mut g = Goomba::new(0, 0, Direction::Left, true);
    g.frame_index = 1;
    assert_eq!(g.shown_frame, 0);
    g.reload_sprite();
    assert_eq!(g.shown_frame, 1);

    let mut p = Player::new(Vec2 { x: 0, y: 0 });
    p.flip_spritesheet(true);
    assert!(p.flip);
    assert!(!p.shown_flip);
    p.status = PStatus::Jump;
    p.update_sprite();
    assert!(p.shown_flip);
}

#[test]
fn collision_predicates_on_touching_boxes() {
    let a = Rect::new(0, 0, 960, 960);
    let b = Rect::new(960, 0, 960, 960);
    // touching edges do not overlap
    assert!(!platformer_core::geom::rect_vs_rect(&a, &b));
    // but rightward velocity makes horizontal contact
    assert!(platformer_core::geom::rect_vs_rect_horizontally(&a, &b, 60));
    assert!(!platformer_core::geom::rect_vs_rect_horizontally(&a, &b, 0));
    // no vertical contact side by side
    assert!(!platformer_core::geom::rect_vs_rect_vertically(&a, &b, -60));
    let floor = Rect::new(0, -960, 960, 960);
    assert!(platformer_core::geom::rect_vs_rect_vertically(&a, &floor, -10));
    assert!(!platformer_core::geom::rect_vs_rect_vertically(&a, &floor, 0));
}
