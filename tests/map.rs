use tilegrid::map::TileMap;
use tilegrid::tile::{SrcRect, TILE};

#[test]
fn basic_dimensions() {
    let map = TileMap::basic(10, 10);
    assert_eq!(map.width(), 23);
    assert_eq!(map.height(), 23);
    let small = TileMap::basic(0, 0);
    assert_eq!(small.width(), 3);
    assert_eq!(small.height(), 3);
    assert_eq!(*small.get(1, 1), TILE::EMPTY);
    let wide = TileMap::basic(2, 1);
    assert_eq!(wide.width(), 7);
    assert_eq!(wide.height(), 5);
}

#[test]
fn basic_layout() {
    let (m, n) = (4usize, 3usize);
    let map = TileMap::basic(m, n);
    let (w, h) = (map.width(), map.height());
    for y in 0..h {
        for x in 0..w {
            let border = x == 0 || y == 0 || x == w - 1 || y == h - 1;
            let pillar = (0..m).any(|i| x == 2 + 2 * i) && (0..n).any(|j| y == 2 + 2 * j);
            let expected = if border || pillar { TILE::WALL } else { TILE::EMPTY };
            assert_eq!(*map.get(x as i32, y as i32), expected, "cell ({}, {})", x, y);
        }
    }
}

#[test]
fn solid_at_guards_bounds() {
    let map = TileMap::basic(10, 10);
    assert!(map.solid_at(0, 5));
    assert!(map.solid_at(2, 2));
    assert!(!map.solid_at(1, 1));
    assert!(!map.solid_at(2, 1));
    assert!(map.solid_at(-1, 1));
    assert!(map.solid_at(1, 23));
    assert!(map.solid_at(23, 1));
}

#[test]
fn tile_solidity() {
    assert!(TILE::BRICK.is_solid());
    assert!(TILE::WALL.is_solid());
    assert!(!TILE::EMPTY.is_solid());
}

#[test]
fn tile_sheet_rects() {
    assert_eq!(TILE::BRICK.src_rect(), SrcRect { x: 32, y: 0, w: 16, h: 16 });
    assert_eq!(TILE::WALL.src_rect(), SrcRect { x: 48, y: 0, w: 16, h: 16 });
    assert_eq!(TILE::EMPTY.src_rect(), SrcRect { x: 64, y: 0, w: 16, h: 16 });
}
