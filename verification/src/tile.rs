//! The static world surface: tile cells built once from a parsed level grid
//! and a tileset, then only iterated for collision queries.

use vstd::prelude::*;
use crate::geom::{Rect, Vec2, wf_rect};
use crate::tuning::{TILE_SIZE, MAP_HEIGHT};

verus! {

/// One immutable cell of the static surface.
#[derive(PartialEq, Eq, Structural, Clone, Copy, Debug)]
pub struct Tile {
    pub rect: Rect,
    pub wall: bool,
}

impl Tile {
    /// A square cell of `TILE_SIZE` at the given bottom-left corner.
    pub fn new(wall: bool, x: i64, y: i64) -> (t: Tile)
        ensures
            t == spec_tile(wall, x, y),
    {
        Tile { rect: Rect { pos: Vec2 { x, y }, w: TILE_SIZE, h: TILE_SIZE }, wall }
    }

    pub fn get_rect(&self) -> (r: &Rect)
        ensures
            r == self.rect,
    {
        &self.rect
    }

    pub fn is_a_wall(&self) -> (r: bool)
        ensures
            r == self.wall,
    {
        self.wall
    }
}

/// The cell `Tile::new` builds.
pub open spec fn spec_tile(wall: bool, x: i64, y: i64) -> Tile {
    Tile { rect: Rect { pos: Vec2 { x, y }, w: TILE_SIZE, h: TILE_SIZE }, wall }
}

/// The static surface a level exposes for collision queries.
pub type TileMap = Vec<Tile>;

/// Every cell's box is well formed.
pub open spec fn wf_tiles(s: Seq<Tile>) -> bool {
    forall|i: int| 0 <= i < s.len() ==> wf_rect(#[trigger] s[i].rect)
}

/// One tileset record: which grid code it answers to and whether it is solid.
#[derive(PartialEq, Eq, Structural, Clone, Copy, Debug)]
pub struct TilesetEntry {
    pub id: i64,
    pub wall: bool,
}

/// A level cannot be built: the grid references a tile id the tileset lacks.
#[derive(PartialEq, Eq, Structural, Clone, Copy, Debug)]
pub enum LoadError {
    UnknownTileId { id: i64 },
}

/// First tileset entry carrying `id`, if any.
pub open spec fn spec_lookup(tileset: Seq<TilesetEntry>, id: i64) -> Option<TilesetEntry>
    decreases tileset.len(),
{
    if tileset.len() == 0 {
        None
    } else if tileset[0].id == id {
        Some(tileset[0])
    } else {
        spec_lookup(tileset.drop_first(), id)
    }
}

/// Cells of one grid row, scanned left to right from column `col`, all at
/// row top `y`; the first code without a tileset entry aborts the row.
pub open spec fn spec_row_tiles(
    row: Seq<i64>,
    tileset: Seq<TilesetEntry>,
    col: int,
    y: i64,
) -> Result<Seq<Tile>, LoadError>
    decreases row.len(),
{
    if row.len() == 0 {
        Ok(Seq::empty())
    } else if row[0] == -1 {
        spec_row_tiles(row.drop_first(), tileset, col + 1, y)
    } else {
        match spec_lookup(tileset, row[0]) {
            Some(e) => match spec_row_tiles(row.drop_first(), tileset, col + 1, y) {
                Ok(rest) => Ok(
                    seq![spec_tile(e.wall, (TILE_SIZE * col) as i64, y)] + rest,
                ),
                Err(err) => Err(err),
            },
            None => Err(LoadError::UnknownTileId { id: row[0] }),
        }
    }
}

/// Cells of the whole grid, row-major, the first row's top at `y` and each
/// following row one tile lower.
pub open spec fn spec_grid_tiles(
    level: Seq<Seq<i64>>,
    tileset: Seq<TilesetEntry>,
    y: i64,
) -> Result<Seq<Tile>, LoadError>
    decreases level.len(),
{
    if level.len() == 0 {
        Ok(Seq::empty())
    } else {
        match spec_row_tiles(level[0], tileset, 0, y) {
            Ok(first) => match spec_grid_tiles(level.drop_first(), tileset, (y - TILE_SIZE) as i64) {
                Ok(rest) => Ok(first + rest),
                Err(err) => Err(err),
            },
            Err(err) => Err(err),
        }
    }
}

/// The static surface a parsed level describes.
pub open spec fn spec_tilemap(
    level: Seq<Seq<i64>>,
    tileset: Seq<TilesetEntry>,
) -> Result<Seq<Tile>, LoadError> {
    spec_grid_tiles(level, tileset, MAP_HEIGHT)
}

/// Grid dimensions small enough that every cell position stays in range.
pub open spec fn wf_level(level: Seq<Seq<i64>>) -> bool {
    &&& level.len() <= 1_000_000
    &&& forall|i: int| 0 <= i < level.len() ==> (#[trigger] level[i]).len() <= 1_000_000
}

fn find_tile_entry(tileset: &Vec<TilesetEntry>, id: i64) -> (r: Option<TilesetEntry>)
    ensures
        r == spec_lookup(tileset@, id),
{
    let mut k: usize = 0;
    assert(tileset@.skip(0) =~= tileset@);
    while k < tileset.len()
        invariant
            0 <= k <= tileset@.len(),
            spec_lookup(tileset@, id) == spec_lookup(tileset@.skip(k as int), id),
        decreases tileset@.len() - k,
    {
        let e = tileset[k];
        assert(tileset@.skip(k as int)[0] == tileset@[k as int]);
        assert(tileset@.skip(k as int).drop_first() =~= tileset@.skip(k as int + 1));
        if e.id == id {
            return Some(e);
        }
        k = k + 1;
    }
    assert(tileset@.skip(k as int) =~= Seq::<TilesetEntry>::empty());
    None
}

/// Builds the static surface from the parsed grid and the tileset mapping;
/// reports the first referenced tile id that has no tileset entry.
pub fn build_tilemap(level: &Vec<Vec<i64>>, tileset: &Vec<TilesetEntry>) -> (r: Result<
    TileMap,
    LoadError,
>)
    requires
        wf_level(level.deep_view()),
    ensures
        match r {
            Ok(tm) => spec_tilemap(level.deep_view(), tileset@) == Ok::<Seq<Tile>, LoadError>(tm@)
                && wf_tiles(tm@),
            Err(e) => spec_tilemap(level.deep_view(), tileset@) == Err::<Seq<Tile>, LoadError>(e),
        },
{
    let ghost deep = level.deep_view();
    let mut acc: Vec<Tile> = Vec::new();
    let mut y: i64 = MAP_HEIGHT;
    let mut i: usize = 0;
    proof {
        assert(deep.skip(0) =~= deep);
        let r0 = spec_tilemap(deep, tileset@);
        if r0 is Ok {
            assert(Seq::<Tile>::empty() + r0->Ok_0 =~= r0->Ok_0);
        }
    }
    while i < level.len()
        invariant
            wf_level(deep),
            deep == level.deep_view(),
            deep.len() == level@.len(),
            forall|k: int| 0 <= k < deep.len() ==> deep[k] == #[trigger] level@[k]@,
            0 <= i <= deep.len(),
            y == MAP_HEIGHT - TILE_SIZE * i,
            wf_tiles(acc@),
            spec_tilemap(deep, tileset@) == match spec_grid_tiles(deep.skip(i as int), tileset@, y) {
                Ok(rest) => Ok::<Seq<Tile>, LoadError>(acc@ + rest),
                Err(err) => Err::<Seq<Tile>, LoadError>(err),
            },
        decreases deep.len() - i,
    {
        let row: &Vec<i64> = &level[i];
        let ghost rowseq = deep[i as int];
        assert(rowseq == row@);
        assert(deep.skip(i as int)[0] == deep[i as int]);
        assert(deep.skip(i as int).drop_first() =~= deep.skip(i as int + 1));
        proof {
            assert(rowseq.skip(0) =~= rowseq);
            let rr = spec_row_tiles(rowseq, tileset@, 0, y);
            let g2 = spec_grid_tiles(deep.skip(i as int + 1), tileset@, (y - TILE_SIZE) as i64);
            if rr is Ok && g2 is Ok {
                assert(acc@ + rr->Ok_0 + g2->Ok_0 =~= acc@ + (rr->Ok_0 + g2->Ok_0));
            }
        }
        let mut j: usize = 0;
        while j < row.len()
            invariant
                wf_level(deep),
                deep == level.deep_view(),
                rowseq == row@,
                rowseq.len() <= 1_000_000,
                0 <= j <= rowseq.len(),
                -0x1000_0000_0000 <= y <= MAP_HEIGHT,
                wf_tiles(acc@),
                spec_tilemap(deep, tileset@) == match spec_row_tiles(
                    rowseq.skip(j as int),
                    tileset@,
                    j as int,
                    y,
                ) {
                    Ok(rest) => match spec_grid_tiles(
                        deep.skip(i as int + 1),
                        tileset@,
                        (y - TILE_SIZE) as i64,
                    ) {
                        Ok(rest2) => Ok::<Seq<Tile>, LoadError>(acc@ + rest + rest2),
                        Err(err) => Err::<Seq<Tile>, LoadError>(err),
                    },
                    Err(err) => Err::<Seq<Tile>, LoadError>(err),
                },
            decreases rowseq.len() - j,
        {
            let code = row[j];
            assert(rowseq.skip(j as int)[0] == rowseq[j as int]);
            assert(rowseq.skip(j as int).drop_first() =~= rowseq.skip(j as int + 1));
            if code != -1 {
                match find_tile_entry(tileset, code) {
                    Some(e) => {
                        let px: i64 = TILE_SIZE * (j as i64);
                        let t = Tile::new(e.wall, px, y);
                        proof {
                            assert(acc@.push(t) + spec_row_tiles(
                                rowseq.skip(j as int + 1),
                                tileset@,
                                j as int + 1,
                                y,
                            )->Ok_0 =~= acc@ + (seq![t] + spec_row_tiles(
                                rowseq.skip(j as int + 1),
                                tileset@,
                                j as int + 1,
                                y,
                            )->Ok_0));
                        }
                        acc.push(t);
                    },
                    None => {
                        proof {
                            assert(rowseq.skip(j as int).len() > 0);
                            assert(rowseq.skip(j as int)[0] == code);
                            assert(spec_lookup(tileset@, code) is None);
                            assert(spec_row_tiles(rowseq.skip(j as int), tileset@, j as int, y)
                                == Err::<Seq<Tile>, LoadError>(LoadError::UnknownTileId { id: code }));
                        }
                        return Err(LoadError::UnknownTileId { id: code });
                    },
                }
            }
            j = j + 1;
        }
        assert(rowseq.skip(j as int) =~= Seq::<i64>::empty());
        proof {
            let rest2r = spec_grid_tiles(deep.skip(i as int + 1), tileset@, (y - TILE_SIZE) as i64);
            if rest2r is Ok {
                assert(acc@ + Seq::<Tile>::empty() + rest2r->Ok_0 =~= acc@ + rest2r->Ok_0);
            }
        }
        y = y - TILE_SIZE;
        i = i + 1;
    }
    assert(deep.skip(i as int) =~= Seq::<Seq<i64>>::empty());
    proof {
        assert(acc@ + Seq::<Tile>::empty() =~= acc@);
    }
    Ok(acc)
}

/// Every code a row references has a tileset entry.
pub open spec fn covers_row(tileset: Seq<TilesetEntry>, row: Seq<i64>) -> bool {
    forall|j: int| 0 <= j < row.len() && row[j] != -1 ==> spec_lookup(tileset, #[trigger] row[j]) is Some
}

/// Every code the whole grid references has a tileset entry.
pub open spec fn covers_grid(tileset: Seq<TilesetEntry>, level: Seq<Seq<i64>>) -> bool {
    forall|i: int| 0 <= i < level.len() ==> covers_row(tileset, #[trigger] level[i])
}

proof fn lemma_row_ok_iff(row: Seq<i64>, tileset: Seq<TilesetEntry>, col: int, y: i64)
    ensures
        spec_row_tiles(row, tileset, col, y) is Ok <==> covers_row(tileset, row),
    decreases row.len(),
{
    if row.len() != 0 {
        lemma_row_ok_iff(row.drop_first(), tileset, col + 1, y);
        assert forall|j: int| 0 <= j < row.drop_first().len() implies #[trigger] row.drop_first()[j]
            == row[j + 1] by {}
        if covers_row(tileset, row) {
            assert(covers_row(tileset, row.drop_first()));
        }
        if spec_row_tiles(row, tileset, col, y) is Ok {
            assert forall|j: int| 0 <= j < row.len() && row[j] != -1 implies spec_lookup(
                tileset,
                #[trigger] row[j],
            ) is Some by {
                if j > 0 {
                    assert(row.drop_first()[j - 1] == row[j]);
                }
            }
        }
    }
}

/// Level construction succeeds exactly when every tile code the grid
/// references (any cell other than the empty marker) has a tileset entry;
/// otherwise it fails with the first missing id, and no partial level exists.
pub proof fn lemma_tilemap_ok_iff(level: Seq<Seq<i64>>, tileset: Seq<TilesetEntry>)
    ensures
        spec_tilemap(level, tileset) is Ok <==> covers_grid(tileset, level),
{
    lemma_grid_ok_iff(level, tileset, MAP_HEIGHT);
}

proof fn lemma_grid_ok_iff(level: Seq<Seq<i64>>, tileset: Seq<TilesetEntry>, y: i64)
    ensures
        spec_grid_tiles(level, tileset, y) is Ok <==> covers_grid(tileset, level),
    decreases level.len(),
{
    if level.len() != 0 {
        lemma_row_ok_iff(level[0], tileset, 0, y);
        lemma_grid_ok_iff(level.drop_first(), tileset, (y - TILE_SIZE) as i64);
        assert forall|i: int| 0 <= i < level.drop_first().len() implies #[trigger] level.drop_first()[i]
            == level[i + 1] by {}
        if covers_grid(tileset, level) {
            assert(covers_grid(tileset, level.drop_first()));
        }
        if spec_grid_tiles(level, tileset, y) is Ok {
            assert forall|i: int| 0 <= i < level.len() implies covers_row(
                tileset,
                #[trigger] level[i],
            ) by {
                if i > 0 {
                    assert(level.drop_first()[i - 1] == level[i]);
                }
            }
        }
    }
}

/// A level instance: the parsed grid it was built from and, once `load` has
/// run, the static surface.
pub struct GameMap {
    pub level: Vec<Vec<i64>>,
    pub tilemap: TileMap,
}

impl GameMap {
    /// A level with its parsed grid and an empty surface.
    pub fn init(level: Vec<Vec<i64>>) -> (m: GameMap)
        ensures
            m.level == level,
            m.tilemap@ == Seq::<Tile>::empty(),
    {
        GameMap { level, tilemap: Vec::new() }
    }

    /// Builds the surface from the grid; on failure the map is unchanged.
    pub fn load(&mut self, tileset: &Vec<TilesetEntry>) -> (r: Result<(), LoadError>)
        requires
            wf_level(old(self).level.deep_view()),
        ensures
            final(self).level == old(self).level,
            match r {
                Ok(()) => spec_tilemap(old(self).level.deep_view(), tileset@) == Ok::<
                    Seq<Tile>,
                    LoadError,
                >(final(self).tilemap@) && wf_tiles(final(self).tilemap@),
                Err(e) => spec_tilemap(old(self).level.deep_view(), tileset@) == Err::<
                    Seq<Tile>,
                    LoadError,
                >(e) && final(self).tilemap == old(self).tilemap,
            },
    {
        match build_tilemap(&self.level, tileset) {
            Ok(tm) => {
                self.tilemap = tm;
                Ok(())
            },
            Err(e) => Err(e),
        }
    }

    pub fn get_tiles(&self) -> (r: &TileMap)
        ensures
            r == self.tilemap,
    {
        &self.tilemap
    }
}

} // verus!
