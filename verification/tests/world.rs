use platformer_core::tile::{GameMap, TilesetEntry, LoadError, build_tilemap};
use platformer_core::state::{State, Input, GameStatus};
use platformer_core::player::PStatus;

const NO_INPUT: Input = Input { left: false, right: false, jump: false, reset: false };

fn right() -> Input {
    Input { left: false, right: true, jump: false, reset: false }
}

fn tileset() -> Vec<TilesetEntry> {
    vec![TilesetEntry { id: 0, wall: true }, TilesetEntry { id: 7, wall: false }]
}

/// A 14-row grid whose bottom rows form a floor at world y = 48 (2880
/// subunits), with one wall cell stacked on the floor at column `wall_col`
/// (if any): the same shape the level loader produces.
fn grid_with_floor(cols: usize, wall_col: Option<usize>) -> Vec<Vec<i64>> {
    let mut grid = vec![vec![-1i64; cols]; 14];
    // row 12 tops out at 13440 - 12*960 + 960 = 2880: the floor surface
    for c in 0..cols {
        grid[12][c] = 0;
        grid[13][c] = 0;
    }
    if let Some(c) = wall_col {
        // row 11 tops out at 3840; its cells span 2880..3840, the player's band
        grid[11][c] = 0;
    }
    grid
}

fn loaded_map(cols: usize, wall_col: Option<usize>) -> GameMap {
    let mut map = GameMap::init(grid_with_floor(cols, wall_col));
    map.load(&tileset()).unwrap();
    map
}

#[test]
fn load_reports_first_unknown_tile_id() {
    let mut grid = grid_with_floor(8, None);
    grid[3][2] = 42;
    let r = build_tilemap(&grid, &tileset());
    assert_eq!(r.unwrap_err(), LoadError::UnknownTileId { id: 42 });
    // and through the map type the level stays unloaded
    let mut map = GameMap::init(grid);
    assert!(map.load(&tileset()).is_err());
    assert_eq!(map.get_tiles().len(), 0);
}

#[test]
fn load_places_cells_on_the_grid() {
    let mut grid = vec![vec![-1i64; 4]; 2];
    grid[0][2] = 0;
    grid[1][0] = 7;
    let tm = build_tilemap(&grid, &tileset()).unwrap();
    assert_eq!(tm.len(), 2);
    assert_eq!(tm[0].get_rect().pos.x, 1920);
    assert_eq!(tm[0].get_rect().pos.y, 13440);
    assert!(tm[0].is_a_wall());
    assert_eq!(tm[1].get_rect().pos.x, 0);
    assert_eq!(tm[1].get_rect().pos.y, 13440 - 960);
    assert!(!tm[1].is_a_wall());
}

#[test]
fn wall_ahead_stops_the_player() {
    // player spawns at x = 80 world units; a wall directly ahead at x = 96
    // (column 6) must pin max_x at the wall's x with zero velocity
    let mut st = State::init(loaded_map(16, Some(6)));
    assert_eq!(st.player.get_x(), 4800);
    for _ in 0..5 {
        st.handle_input(right());
        st.update();
        assert_eq!(st.player.get_x(), 4800);
        assert_eq!(st.player.get_xvelocity(), 0);
    }
    st.handle_input(NO_INPUT);
    st.update();
    assert_eq!(st.player.status, PStatus::Idle);
}

#[test]
fn player_walks_right_without_wall() {
    let mut st = State::init(loaded_map(16, None));
    for i in 1..=5 {
        st.handle_input(right());
        st.update();
        assert_eq!(st.player.get_x(), 4800 + 120 * i);
        assert_eq!(st.player.get_y(), 2880);
    }
    assert_eq!(st.player.status, PStatus::Walk);
}

#[test]
fn reset_restores_the_whole_level() {
    let mut st = State::init(loaded_map(16, None));
    let spawn_player = st.player;
    let spawn_goombas = st.goombas.clone();
    let spawn_blocks = st.mystery_blocks.clone();
    for _ in 0..30 {
        st.handle_input(right());
        st.update();
    }
    assert!(st.player.get_x() > 4800);
    st.handle_input(Input { left: false, right: false, jump: false, reset: true });
    assert_eq!(st.player.get_x(), spawn_player.get_x());
    assert_eq!(st.player.get_y(), spawn_player.get_y());
    assert_eq!(st.player.get_xvelocity(), 0);
    assert_eq!(st.player.get_yvelocity(), 0);
    for (g, s) in st.goombas.iter().zip(spawn_goombas.iter()) {
        assert_eq!(g.get_rect().pos, s.get_rect().pos);
        assert_eq!(g.direction, s.direction);
        assert_eq!(g.freeze, s.freeze);
        assert!(!g.is_dying());
    }
    for (b, s) in st.mystery_blocks.iter().zip(spawn_blocks.iter()) {
        assert_eq!(b.get_rect().pos, s.get_rect().pos);
        assert!(!b.is_collected());
    }
    // resetting twice leaves the very same state as resetting once
    let once = (st.player, st.goombas.clone(), st.mystery_blocks.clone(), st.game_status);
    st.handle_input(Input { left: false, right: false, jump: false, reset: true });
    assert_eq!(st.player, once.0);
    assert_eq!(st.goombas, once.1);
    assert_eq!(st.mystery_blocks, once.2);
    assert_eq!(st.game_status, once.3);
}

#[test]
fn falling_out_of_world_restarts_the_level() {
    // a level with no floor under the spawn: the player falls past y = 0
    // and the frame driver restarts everything within that frame
    let grid = vec![vec![-1i64; 4]; 2];
    let mut map = GameMap::init(grid);
    map.load(&tileset()).unwrap();
    let mut st = State::init(map);
    for _ in 0..200 {
        st.handle_input(NO_INPUT);
        st.update();
    }
    // whenever it fell out, the reset snapped it back to the spawn point
    assert!(st.player.get_y() > 0);
    assert_eq!(st.game_status, GameStatus::GamePlay);
}

#[test]
fn defreeze_triggers_fire_by_player_x() {
    let mut st = State::init(loaded_map(200, None));
    assert!(st.goombas[4].freeze);
    assert!(st.goombas[6].freeze);
    assert!(st.goombas[8].freeze);
    st.player.shape.pos.x = 64800;
    st.handle_input(NO_INPUT);
    st.update();
    assert!(!st.goombas[4].freeze);
    assert!(!st.goombas[5].freeze);
    assert!(st.goombas[6].freeze);
    assert!(st.goombas[8].freeze);
    st.player.shape.pos.x = 79680;
    st.update();
    assert!(!st.goombas[6].freeze);
    assert!(!st.goombas[7].freeze);
    assert!(st.goombas[8].freeze);
    st.player.shape.pos.x = 108000;
    st.update();
    assert!(!st.goombas[8].freeze);
    assert!(!st.goombas[9].freeze);
    assert!(!st.goombas[10].freeze);
    assert!(!st.goombas[11].freeze);
}

#[test]
fn crossing_the_goal_wins_the_level() {
    let mut st = State::init(loaded_map(210, None));
    st.player.shape.pos.x = 192000;
    st.update();
    assert_eq!(st.game_status, GameStatus::Win);
    // once won, frames stop simulating
    let frozen = st.player;
    st.update();
    assert_eq!(st.player, frozen);
}

#[test]
fn jump_and_land_through_the_driver() {
    let mut st = State::init(loaded_map(16, None));
    st.handle_input(Input { left: false, right: false, jump: true, reset: false });
    assert!(st.player.jumping);
    assert!(!st.player.can_jump);
    let mut landed = false;
    for _ in 0..300 {
        st.handle_input(NO_INPUT);
        st.update();
        if st.player.get_y() == 2880 && st.player.get_yvelocity() == 0 {
            landed = true;
            break;
        }
    }
    assert!(landed);
    assert!(st.player.can_jump);
    assert!(!st.player.jumping);
}
