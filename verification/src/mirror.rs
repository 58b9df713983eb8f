//! The world mirror: the locally held copy of the tile grid.
//!
//! No authoritative diff feed exists — the client only ever learns where
//! the agent stands. The mirror therefore applies speculative, irreversible
//! mutations: when a sample lands on a tile whose state implies an agent
//! action, the tile is rewritten as if that action had happened. The rock
//! check runs before the terrain check; both may fire on one sample. The
//! running carried-rock counter may go negative when bridging outpaces
//! pickups; it is kept signed on purpose.

use vstd::prelude::*;

use crate::sample::Sample;
use crate::tile::{Terrain, Tile, TileContent};

verus! {

/// Whether a visit picks the tile's rock up: a rock deposit with non-zero
/// quantity is present.
pub open spec fn rock_pickup_fires(t: Tile) -> bool {
    t.content matches TileContent::Rock(q) && q > 0
}

/// Whether a visit bridges the tile: its terrain is deep water.
pub open spec fn bridge_fires(t: Tile) -> bool {
    t.terrain == Terrain::DeepWater
}

/// The tile after the agent has been seen standing on it: a non-zero rock
/// is cleared (picked up), deep water becomes street (bridged). Both rules
/// are no-ops on a tile they already ran on.
pub open spec fn tile_after_visit(t: Tile) -> Tile {
    Tile {
        terrain: if bridge_fires(t) {
            Terrain::Street
        } else {
            t.terrain
        },
        content: if rock_pickup_fires(t) {
            TileContent::Empty
        } else {
            t.content
        },
    }
}

/// The change a visit makes to the running carried-rock counter: one rock
/// gained per pickup, three spent per bridge.
pub open spec fn visit_delta(t: Tile) -> int {
    (if rock_pickup_fires(t) {
        1int
    } else {
        0int
    }) + (if bridge_fires(t) {
        -3int
    } else {
        0int
    })
}

/// The grid after a visit to `(row, col)`: that tile rewritten, every other
/// tile untouched.
pub open spec fn grid_after_visit(g: Seq<Seq<Tile>>, row: int, col: int) -> Seq<Seq<Tile>> {
    g.update(row, g[row].update(col, tile_after_visit(g[row][col])))
}

/// Law: a visit is idempotent per tile — visiting an already-visited tile
/// changes neither the tile nor the counter.
pub proof fn lemma_visit_idempotent(t: Tile)
    ensures
        tile_after_visit(tile_after_visit(t)) == tile_after_visit(t),
        visit_delta(tile_after_visit(t)) == 0,
{
}

/// Law: applying a sample to the same coordinates twice leaves the grid as
/// after one application, and the second application's counter change is
/// zero.
pub proof fn lemma_apply_idempotent(g: Seq<Seq<Tile>>, row: int, col: int)
    requires
        0 <= row < g.len(),
        0 <= col < g[row].len(),
    ensures
        grid_after_visit(grid_after_visit(g, row, col), row, col) == grid_after_visit(g, row, col),
        visit_delta(grid_after_visit(g, row, col)[row][col]) == 0,
{
    let once = grid_after_visit(g, row, col);
    lemma_visit_idempotent(g[row][col]);
    assert(once[row][col] == tile_after_visit(g[row][col]));
    assert(grid_after_visit(once, row, col) =~~= once);
}

/// Length of the first row, or zero for an empty grid: the column count a
/// rectangular grid must share.
pub open spec fn first_row_len(g: Seq<Vec<Tile>>) -> int {
    if g.len() == 0 {
        0
    } else {
        g[0]@.len() as int
    }
}

/// Every row as long as the first: the shape the mirror accepts.
pub open spec fn is_rectangular(g: Seq<Vec<Tile>>) -> bool {
    forall|i: int| 0 <= i < g.len() ==> (#[trigger] g[i])@.len() == first_row_len(g)
}

/// The locally held map plus the running carried-rock counter. Dimensions
/// never change after construction; all mutation goes through
/// `apply_sample`.
pub struct WorldMirror {
    /// The tile grid, row-major.
    pub grid: Vec<Vec<Tile>>,
    /// The shared length of every row.
    pub cols: usize,
    /// Running estimate of rocks carried; negative when inferred bridging
    /// has outpaced inferred pickups.
    pub carried_rocks: i64,
}

impl WorldMirror {
    /// The grid as a mathematical sequence of rows.
    pub open spec fn grid_view(self) -> Seq<Seq<Tile>> {
        self.grid@.map_values(|row: Vec<Tile>| row@)
    }

    /// The grid is rectangular with `cols` columns.
    pub open spec fn wf(self) -> bool {
        &&& forall|i: int|
            0 <= i < self.grid@.len() ==> (#[trigger] self.grid@[i])@.len() == self.cols
        &&& self.grid@.len() == 0 ==> self.cols == 0
    }

    /// Whether `(row, col)` indexes a tile of the grid.
    pub open spec fn in_bounds(self, row: int, col: int) -> bool {
        0 <= row < self.grid@.len() && 0 <= col < self.cols
    }

    /// Takes ownership of a generated grid; `None` when the rows do not all
    /// share one length (the mirror's dimensions would be meaningless).
    /// The counter starts at zero.
    pub fn from_grid(grid: Vec<Vec<Tile>>) -> (r: Option<WorldMirror>)
        ensures
            (r is Some) == is_rectangular(grid@),
            r matches Some(m) ==> m.wf() && m.grid@ == grid@ && m.carried_rocks == 0 && m.cols
                == first_row_len(grid@),
    {
        let cols: usize = if grid.len() == 0 {
            0
        } else {
            grid[0].len()
        };
        let mut i: usize = 0;
        while i < grid.len()
            invariant
                i <= grid@.len(),
                cols == first_row_len(grid@),
                forall|j: int| 0 <= j < i ==> (#[trigger] grid@[j])@.len() == cols,
            decreases grid@.len() - i,
        {
            if grid[i].len() != cols {
                return None;
            }
            i += 1;
        }
        Some(WorldMirror { grid, cols, carried_rocks: 0 })
    }

    /// How many rows the grid has.
    pub fn rows(&self) -> (n: usize)
        ensures
            n == self.grid_view().len(),
    {
        self.grid.len()
    }

    /// Applies one telemetry sample: an out-of-bounds position is discarded
    /// (`false`, nothing changes); otherwise the tile the agent stands on
    /// is rewritten per `tile_after_visit` — rock check first, terrain
    /// check second — and the counter moves by `visit_delta`.
    pub fn apply_sample(&mut self, s: &Sample) -> (applied: bool)
        requires
            old(self).wf(),
            i64::MIN + 3 <= old(self).carried_rocks <= i64::MAX - 1,
        ensures
            final(self).wf(),
            final(self).cols == old(self).cols,
            applied == old(self).in_bounds(s.row as int, s.col as int),
            !applied ==> *final(self) == *old(self),
            applied ==> final(self).grid_view() == grid_after_visit(
                old(self).grid_view(),
                s.row as int,
                s.col as int,
            ),
            applied ==> final(self).carried_rocks == old(self).carried_rocks + visit_delta(
                old(self).grid_view()[s.row as int][s.col as int],
            ),
    {
        if s.row >= self.grid.len() || s.col >= self.cols {
            return false;
        }
        let t = self.grid[s.row][s.col];
        let pickup = match t.content {
            TileContent::Rock(q) => q > 0,
            TileContent::Empty => false,
        };
        let bridge = t.terrain == Terrain::DeepWater;
        let rewritten = Tile {
            terrain: if bridge {
                Terrain::Street
            } else {
                t.terrain
            },
            content: if pickup {
                TileContent::Empty
            } else {
                t.content
            },
        };
        self.grid[s.row][s.col] = rewritten;
        if pickup {
            self.carried_rocks = self.carried_rocks + 1;
        }
        if bridge {
            self.carried_rocks = self.carried_rocks - 3;
        }
        proof {
            assert(self.grid_view() =~~= grid_after_visit(
                old(self).grid_view(),
                s.row as int,
                s.col as int,
            ));
        }
        true
    }
}

} // verus!
