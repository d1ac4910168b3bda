use vstd::prelude::*;
use vstd::arithmetic::div_mod::lemma_fundamental_div_mod_converse;

use crate::tile::TILE;

verus! {

/// A rectangular grid of tiles, stored row by row.
pub struct TileMap {
    width: usize,
    height: usize,
    tiles: Vec<TILE>,
}

/// The tile that `TileMap::basic(m, n)` puts at `(x, y)`: Wall on the outer ring
/// and on each interior cell whose two coordinates are even, Empty elsewhere.
pub open spec fn basic_tile(m: int, n: int, x: int, y: int) -> TILE {
    if x == 0 || y == 0 || x == 2 + 2 * m || y == 2 + 2 * n {
        TILE::WALL
    } else if x % 2 == 0 && y % 2 == 0 {
        TILE::WALL
    } else {
        TILE::EMPTY
    }
}

impl TileMap {
    pub closed spec fn spec_width(&self) -> int {
        self.width as int
    }

    pub closed spec fn spec_height(&self) -> int {
        self.height as int
    }

    /// The grid holds exactly one tile per cell.
    pub closed spec fn wf(&self) -> bool {
        &&& self.tiles@.len() == self.width * self.height
        &&& self.width * self.height <= usize::MAX
    }

    /// What `TileMap::basic(m, n)` builds: `3 + 2m` by `3 + 2n` cells, each
    /// holding `basic_tile(m, n, x, y)`.
    pub open spec fn is_basic(&self, m: int, n: int) -> bool {
        &&& self.spec_width() == 3 + 2 * m
        &&& self.spec_height() == 3 + 2 * n
        &&& forall|x: int, y: int|
            self.in_bounds(x, y) ==> #[trigger] self.spec_get(x, y) == basic_tile(m, n, x, y)
    }

    /// Whether `(x, y)` is a cell of the grid.
    pub open spec fn in_bounds(&self, x: int, y: int) -> bool {
        0 <= x < self.spec_width() && 0 <= y < self.spec_height()
    }

    /// The tile at `(x, y)`.
    pub closed spec fn spec_get(&self, x: int, y: int) -> TILE {
        self.tiles@[y * self.width + x]
    }

    /// Whether `(x, y)` stops the player; every cell outside the grid does.
    pub open spec fn spec_solid_at(&self, x: int, y: int) -> bool {
        !self.in_bounds(x, y) || self.spec_get(x, y).spec_is_solid()
    }

    pub fn width(&self) -> (r: usize)
        ensures
            r == self.spec_width(),
    {
        self.width
    }

    pub fn height(&self) -> (r: usize)
        ensures
            r == self.spec_height(),
    {
        self.height
    }

    /// A map of `3 + 2m` by `3 + 2n` cells: a ring of walls around a
    /// battleground with a wall pillar on every cell of even coordinates.
    pub fn basic(m: usize, n: usize) -> (r: TileMap)
        requires
            (3 + 2 * m) * (3 + 2 * n) <= usize::MAX,
        ensures
            r.wf(),
            r.is_basic(m as int, n as int),
    {
        proof {
            assert(3 + 2 * m <= (3 + 2 * m) * (3 + 2 * n)) by (nonlinear_arith)
                requires 0 <= m, 0 <= n;
            assert(3 + 2 * n <= (3 + 2 * m) * (3 + 2 * n)) by (nonlinear_arith)
                requires 0 <= m, 0 <= n;
        }
        let width: usize = 3 + 2 * m;
        let height: usize = 3 + 2 * n;
        let mut tiles: Vec<TILE> = Vec::new();
        let mut y: usize = 0;
        while y < height
            invariant
                width == 3 + 2 * m,
                height == 3 + 2 * n,
                0 <= y <= height,
                tiles@.len() == y * width,
                forall|i: int|
                    0 <= i < tiles@.len() ==> #[trigger] tiles@[i] == basic_tile(
                        m as int,
                        n as int,
                        i % (width as int),
                        i / (width as int),
                    ),
            decreases height - y,
        {
            let mut x: usize = 0;
            while x < width
                invariant
                    width == 3 + 2 * m,
                    height == 3 + 2 * n,
                    0 <= y < height,
                    0 <= x <= width,
                    tiles@.len() == y * width + x,
                    forall|i: int|
                        0 <= i < tiles@.len() ==> #[trigger] tiles@[i] == basic_tile(
                            m as int,
                            n as int,
                            i % (width as int),
                            i / (width as int),
                        ),
                decreases width - x,
            {
                let t = if x == 0 || y == 0 || x == width - 1 || y == height - 1 {
                    TILE::WALL
                } else if x % 2 == 0 && y % 2 == 0 {
                    TILE::WALL
                } else {
                    TILE::EMPTY
                };
                proof {
                    lemma_fundamental_div_mod_converse(
                        y * width + x,
                        width as int,
                        y as int,
                        x as int,
                    );
                }
                tiles.push(t);
                x += 1;
            }
            proof {
                assert(y * width + width == (y + 1) * width) by (nonlinear_arith);
            }
            y += 1;
        }
        assert(height * width == width * height) by (nonlinear_arith);
        let r = TileMap { width, height, tiles };
        assert forall|x: int, y: int| r.in_bounds(x, y) implies #[trigger] r.spec_get(x, y)
            == basic_tile(m as int, n as int, x, y) by {
            assert(y * width + x < height * width) by (nonlinear_arith)
                requires 0 <= x < width, 0 <= y < height;
            lemma_fundamental_div_mod_converse(y * width + x, width as int, y, x);
        }
        r
    }

    /// The tile at `(x, y)`, which must be a cell of the grid.
    pub fn get(&self, x: i32, y: i32) -> (r: &TILE)
        requires
            self.wf(),
            self.in_bounds(x as int, y as int),
        ensures
            *r == self.spec_get(x as int, y as int),
    {
        self.at(x as usize, y as usize)
    }

    fn at(&self, x: usize, y: usize) -> (r: &TILE)
        requires
            self.wf(),
            self.in_bounds(x as int, y as int),
        ensures
            *r == self.spec_get(x as int, y as int),
    {
        proof {
            assert(x + self.width * y < self.width * self.height) by (nonlinear_arith)
                requires x < self.width, y < self.height;
            assert(self.width * y == y * self.width) by (nonlinear_arith);
        }
        &self.tiles[x + self.width * y]
    }

    /// Whether the cell `(x, y)` stops the player; a cell outside the grid
    /// always does.
    pub fn solid_at(&self, x: i64, y: i64) -> (r: bool)
        requires
            self.wf(),
        ensures
            r == self.spec_solid_at(x as int, y as int),
    {
        if x < 0 || y < 0 || x as u64 >= self.width as u64 || y as u64 >= self.height as u64 {
            true
        } else {
            self.at(x as usize, y as usize).is_solid()
        }
    }
}

/// Every cell on the outer ring of `TileMap::basic(m, n)` is Wall; the interior
/// cell `(2 + 2i, 2 + 2j)` is Wall for every `i < m` and `j < n`; every other
/// interior cell, one with an odd coordinate, is Empty.
pub proof fn lemma_basic_layout(m: usize, n: usize, map: TileMap)
    requires
        map.is_basic(m as int, n as int),
    ensures
        forall|x: int, y: int|
            map.in_bounds(x, y) && (x == 0 || y == 0 || x == map.spec_width() - 1 || y
                == map.spec_height() - 1) ==> #[trigger] map.spec_get(x, y) == TILE::WALL,
        forall|i: int, j: int|
            0 <= i < m && 0 <= j < n ==> #[trigger] map.spec_get(2 + 2 * i, 2 + 2 * j) == TILE::WALL,
        forall|x: int, y: int|
            0 < x < map.spec_width() - 1 && 0 < y < map.spec_height() - 1 && !(x % 2 == 0 && y % 2
                == 0) ==> #[trigger] map.spec_get(x, y) == TILE::EMPTY,
{
    assert forall|i: int, j: int| 0 <= i < m && 0 <= j < n implies #[trigger] map.spec_get(
        2 + 2 * i,
        2 + 2 * j,
    ) == TILE::WALL by {
        assert(map.in_bounds(2 + 2 * i, 2 + 2 * j));
        assert((2 + 2 * i) % 2 == 0 && (2 + 2 * j) % 2 == 0);
    }
    assert forall|x: int, y: int|
        0 < x < map.spec_width() - 1 && 0 < y < map.spec_height() - 1 && !(x % 2 == 0 && y % 2
            == 0) implies #[trigger] map.spec_get(x, y) == TILE::EMPTY by {
        assert(map.in_bounds(x, y));
    }
}

} // verus!
