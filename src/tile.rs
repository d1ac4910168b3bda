use vstd::prelude::*;

verus! {

/// Side of one tile's picture in the sprite sheet, in pixels.
pub const SHEET_TILE: i32 = 16;

/// One cell of the world grid.
#[allow(non_camel_case_types)]
#[derive(Clone, Copy, Debug, PartialEq, Eq, Structural)]
pub enum TILE {
    BRICK,
    WALL,
    EMPTY,
}

/// A rectangle of a sprite sheet: top-left corner and size, in pixels.
#[derive(Clone, Copy, Debug, PartialEq, Eq, Structural)]
pub struct SrcRect {
    pub x: i32,
    pub y: i32,
    pub w: u32,
    pub h: u32,
}

impl TILE {
    /// Brick and Wall stop the player; Empty does not.
    pub open spec fn spec_is_solid(self) -> bool {
        self != TILE::EMPTY
    }

    /// Column of this tile's picture in the sprite sheet's first row.
    pub open spec fn sheet_column(self) -> int {
        match self {
            TILE::BRICK => 2,
            TILE::WALL => 3,
            TILE::EMPTY => 4,
        }
    }

    pub fn is_solid(&self) -> (r: bool)
        ensures
            r == self.spec_is_solid(),
    {
        match *self {
            TILE::BRICK => true,
            TILE::WALL => true,
            TILE::EMPTY => false,
        }
    }

    /// Where this tile's picture lies in the sprite sheet.
    pub fn src_rect(&self) -> (r: SrcRect)
        ensures
            r.x == self.sheet_column() * SHEET_TILE,
            r.y == 0,
            r.w == SHEET_TILE,
            r.h == SHEET_TILE,
    {
        let column: i32 = match *self {
            TILE::BRICK => 2,
            TILE::WALL => 3,
            TILE::EMPTY => 4,
        };
        SrcRect { x: column * SHEET_TILE, y: 0, w: SHEET_TILE as u32, h: SHEET_TILE as u32 }
    }
}

} // verus!
