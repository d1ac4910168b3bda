use vstd::prelude::*;

use crate::map::TileMap;
use crate::sign::{Sign, sign_of};

verus! {

/// Sub-pixel units in one pixel: offsets are held in millionths of a pixel.
pub const SUBPIXELS: i64 = 1_000_000;

/// Side of one grid cell on screen, in pixels.
pub const TILE_PX: i64 = 32;

/// Side of one grid cell, in sub-pixel units.
pub const TILE_UNITS: i64 = TILE_PX * SUBPIXELS;

/// Half a grid cell, in sub-pixel units.
pub const HALF_TILE: i64 = 16_000_000;

/// Fastest speed a frame may be integrated with, in pixels per second.
pub const MAX_SPEED: i64 = 1_000_000;

/// Longest frame that may be integrated, in microseconds.
pub const MAX_DT: u64 = 60_000_000;

/// Largest offset from the owning cell, in sub-pixel units, that a frame
/// may start from.
pub const MAX_OFFSET: i64 = 4_000_000_000_000_000;

/// Largest cell coordinate a frame may start from.
pub const MAX_CELL: i64 = 1_000_000_000_000;

/// Input state of one axis: whether a key is held and which of its two keys
/// was pressed last.
#[derive(Clone, Copy, Debug, PartialEq, Eq, Structural)]
pub struct AxisInput {
    pub held: bool,
    pub ori: Sign,
}

/// Position of the player: the owning cell and the offset from it in
/// sub-pixel units, with the input state of both axes.
#[derive(Clone, Copy, Debug, PartialEq, Eq, Structural)]
pub struct Player {
    pub cell_x: i64,
    pub cell_y: i64,
    pub off_x: i64,
    pub off_y: i64,
    pub input_x: AxisInput,
    pub input_y: AxisInput,
}

/// Offset along one axis after integrating a frame of `dt` microseconds at
/// `speed` pixels per second.
pub open spec fn integrated(f: int, input: AxisInput, speed: int, dt: int) -> int {
    if input.held {
        f + input.ori.spec_to_int() * (speed * dt)
    } else {
        f
    }
}

/// Offset and cell along one axis after the cell transfer: once the offset
/// passes half a tile in the direction of travel, the next cell owns the
/// player.
pub open spec fn transferred(f: int, cell: int, ori: Sign) -> (int, int) {
    if ori.spec_to_int() * f > HALF_TILE {
        (f - ori.spec_to_int() * TILE_UNITS, cell + ori.spec_to_int())
    } else {
        (f, cell)
    }
}

/// The cell transfer applied `k` times.
pub open spec fn transferred_times(f: int, cell: int, ori: Sign, k: nat) -> (int, int)
    decreases k,
{
    if k == 0 {
        (f, cell)
    } else {
        let (f1, c1) = transferred(f, cell, ori);
        transferred_times(f1, c1, ori, (k - 1) as nat)
    }
}

/// Penetrations `(u', v')` after corner resolution of penetrations `u` and
/// `v`: the halves of `u + HALF_TILE - v` and `v + HALF_TILE - u`. The
/// smaller half is rounded up and the other is what is left of
/// `HALF_TILE`, so the two always sum to `HALF_TILE`.
pub open spec fn split_half_tile(u: int, v: int) -> (int, int) {
    if u <= v {
        let s = (u + HALF_TILE - v + 1) / 2;
        (s, HALF_TILE - s)
    } else {
        let s = (v + HALF_TILE - u + 1) / 2;
        (HALF_TILE - s, s)
    }
}

/// Offsets after corner resolution toward the quadrant `(qx, qy)`, with
/// penetrations `u = qx*fx` and `v = qy*fy` split as `split_half_tile`
/// says: `fx' = 0.5*(fx + qx*(HALF_TILE - qy*fy))` and symmetrically,
/// rounded to whole units.
pub open spec fn cornered(fx: int, fy: int, qx: Sign, qy: Sign) -> (int, int) {
    let u = qx.spec_to_int() * fx;
    let v = qy.spec_to_int() * fy;
    let (u1, v1) = split_half_tile(u, v);
    (qx.spec_to_int() * u1, qy.spec_to_int() * v1)
}

/// Position of the player after one frame: integrate, transfer cells, find
/// the quadrant, probe the neighbours, resolve a solid corner, then stop on
/// each blocked axis.
pub open spec fn stepped(p: Player, map: TileMap, speed: int, dt: int) -> (int, int, int, int) {
    let fx1 = integrated(p.off_x as int, p.input_x, speed, dt);
    let fy1 = integrated(p.off_y as int, p.input_y, speed, dt);
    let (fx2, cx) = transferred(fx1, p.cell_x as int, p.input_x.ori);
    let (fy2, cy) = transferred(fy1, p.cell_y as int, p.input_y.ori);
    let qx = sign_of(fx2);
    let qy = sign_of(fy2);
    let blocked_x = qx != Sign::Zer && map.spec_solid_at(cx + qx.spec_to_int(), cy);
    let blocked_y = qy != Sign::Zer && map.spec_solid_at(cx, cy + qy.spec_to_int());
    let blocked_diag = qx != Sign::Zer && qy != Sign::Zer && map.spec_solid_at(
        cx + qx.spec_to_int(),
        cy + qy.spec_to_int(),
    );
    let (fx3, fy3) = if qx.spec_to_int() * fx2 + qy.spec_to_int() * fy2 > HALF_TILE
        && blocked_diag {
        cornered(fx2, fy2, qx, qy)
    } else {
        (fx2, fy2)
    };
    (cx, cy, if blocked_x { 0 } else { fx3 }, if blocked_y { 0 } else { fy3 })
}

/// Screen coordinate, in pixels, of a cell and an offset in sub-pixel
/// units; the offset is truncated toward zero.
pub open spec fn screen_of(cell: int, off: int) -> int {
    cell * TILE_PX + if off >= 0 {
        off / (SUBPIXELS as int)
    } else {
        -((-off) / (SUBPIXELS as int))
    }
}

impl AxisInput {
    /// No key held; the last direction is positive.
    pub fn new() -> (r: AxisInput)
        ensures
            r == (AxisInput { held: false, ori: Sign::Pos }),
    {
        AxisInput { held: false, ori: Sign::Pos }
    }

    /// The key of direction `dir` goes down: it holds the axis.
    pub fn press(&mut self, dir: Sign)
        ensures
            *final(self) == (AxisInput { held: true, ori: dir }),
    {
        self.held = true;
        self.ori = dir;
    }

    /// The key of direction `dir` goes up: the axis stops only when that key
    /// was the one pressed last.
    pub fn release(&mut self, dir: Sign)
        ensures
            final(self).ori == old(self).ori,
            final(self).held == (old(self).held && old(self).ori != dir),
    {
        if self.ori == dir {
            self.held = false;
        }
    }
}

impl Player {
    /// The offsets and cells lie within the limits a frame may start from.
    pub open spec fn fits(&self) -> bool {
        &&& -MAX_OFFSET <= self.off_x <= MAX_OFFSET
        &&& -MAX_OFFSET <= self.off_y <= MAX_OFFSET
        &&& -MAX_CELL <= self.cell_x <= MAX_CELL
        &&& -MAX_CELL <= self.cell_y <= MAX_CELL
    }

    /// Owning cell and offset, as `(cell_x, cell_y, off_x, off_y)`.
    pub open spec fn motion(&self) -> (int, int, int, int) {
        (self.cell_x as int, self.cell_y as int, self.off_x as int, self.off_y as int)
    }

    /// A player standing still at the origin of cell `(cell_x, cell_y)`.
    pub fn new(cell_x: i64, cell_y: i64) -> (r: Player)
        ensures
            r.cell_x == cell_x,
            r.cell_y == cell_y,
            r.off_x == 0,
            r.off_y == 0,
            r.input_x == (AxisInput { held: false, ori: Sign::Pos }),
            r.input_y == (AxisInput { held: false, ori: Sign::Pos }),
    {
        Player {
            cell_x,
            cell_y,
            off_x: 0,
            off_y: 0,
            input_x: AxisInput::new(),
            input_y: AxisInput::new(),
        }
    }

    /// Whether a frame may start from this position.
    pub fn within_limits(&self) -> (r: bool)
        ensures
            r == self.fits(),
    {
        -MAX_OFFSET <= self.off_x && self.off_x <= MAX_OFFSET && -MAX_OFFSET <= self.off_y
            && self.off_y <= MAX_OFFSET && -MAX_CELL <= self.cell_x && self.cell_x <= MAX_CELL
            && -MAX_CELL <= self.cell_y && self.cell_y <= MAX_CELL
    }

    /// Advances the player by one frame of `dt` microseconds at `speed`
    /// pixels per second on `map`, resolving collisions with its solid cells.
    pub fn step(&mut self, map: &TileMap, speed: i64, dt: u64)
        requires
            old(self).fits(),
            map.wf(),
            0 <= speed <= MAX_SPEED,
            dt <= MAX_DT,
        ensures
            final(self).motion() == stepped(*old(self), *map, speed as int, dt as int),
            final(self).input_x == old(self).input_x,
            final(self).input_y == old(self).input_y,
    {
        let fx1 = integrate(self.off_x, self.input_x, speed, dt);
        let fy1 = integrate(self.off_y, self.input_y, speed, dt);
        let (fx2, cx) = transfer(fx1, self.cell_x, self.input_x.ori);
        let (fy2, cy) = transfer(fy1, self.cell_y, self.input_y.ori);
        let qx = Sign::from_int(fx2);
        let qy = Sign::from_int(fy2);
        let dx = qx.to_int() as i64;
        let dy = qy.to_int() as i64;
        let blocked_x = qx != Sign::Zer && map.solid_at(cx + dx, cy);
        let blocked_y = qy != Sign::Zer && map.solid_at(cx, cy + dy);
        let blocked_diag = qx != Sign::Zer && qy != Sign::Zer && map.solid_at(cx + dx, cy + dy);
        let mut fx3 = fx2;
        let mut fy3 = fy2;
        proof {
            lemma_unit_scale(qx, fx2 as int);
            lemma_unit_scale(qy, fy2 as int);
        }
        if qx.mul_i64(fx2) + qy.mul_i64(fy2) > HALF_TILE && blocked_diag {
            let (a, b) = resolve_corner(fx2, fy2, qx, qy);
            fx3 = a;
            fy3 = b;
        }
        self.cell_x = cx;
        self.cell_y = cy;
        self.off_x = if blocked_x {
            0
        } else {
            fx3
        };
        self.off_y = if blocked_y {
            0
        } else {
            fy3
        };
    }

    /// Horizontal screen coordinate of the player, in pixels.
    pub fn screen_x(&self) -> (r: i64)
        requires
            -MAX_CELL <= self.cell_x <= MAX_CELL,
            self.off_x > i64::MIN,
        ensures
            r == screen_of(self.cell_x as int, self.off_x as int),
    {
        screen_coord(self.cell_x, self.off_x)
    }

    /// Vertical screen coordinate of the player, in pixels.
    pub fn screen_y(&self) -> (r: i64)
        requires
            -MAX_CELL <= self.cell_y <= MAX_CELL,
            self.off_y > i64::MIN,
        ensures
            r == screen_of(self.cell_y as int, self.off_y as int),
    {
        screen_coord(self.cell_y, self.off_y)
    }
}

/// Offset along one axis after integrating one frame.
pub fn integrate(f: i64, input: AxisInput, speed: i64, dt: u64) -> (r: i64)
    requires
        -MAX_OFFSET <= f <= MAX_OFFSET,
        0 <= speed <= MAX_SPEED,
        dt <= MAX_DT,
    ensures
        r == integrated(f as int, input, speed as int, dt as int),
        -MAX_OFFSET - MAX_SPEED * MAX_DT <= r <= MAX_OFFSET + MAX_SPEED * MAX_DT,
{
    if input.held {
        proof {
            assert(speed * dt <= MAX_SPEED * MAX_DT) by (nonlinear_arith)
                requires 0 <= speed <= MAX_SPEED, 0 <= dt <= MAX_DT;
            assert(0 <= speed * dt) by (nonlinear_arith)
                requires 0 <= speed, 0 <= dt;
        }
        let d: i64 = speed * (dt as i64);
        f + input.ori.mul_i64(d)
    } else {
        f
    }
}

/// Offset and cell along one axis after the cell transfer.
pub fn transfer(f: i64, cell: i64, ori: Sign) -> (r: (i64, i64))
    requires
        -2 * MAX_OFFSET <= f <= 2 * MAX_OFFSET,
        -MAX_CELL <= cell <= MAX_CELL,
    ensures
        (r.0 as int, r.1 as int) == transferred(f as int, cell as int, ori),
        -2 * MAX_OFFSET - TILE_UNITS <= r.0 <= 2 * MAX_OFFSET + TILE_UNITS,
        -MAX_CELL - 1 <= r.1 <= MAX_CELL + 1,
{
    if ori.mul_i64(f) > HALF_TILE {
        (f - ori.mul_i64(TILE_UNITS), cell + ori.to_int() as i64)
    } else {
        (f, cell)
    }
}

/// Offsets after corner resolution toward the quadrant `(qx, qy)`.
pub fn resolve_corner(fx: i64, fy: i64, qx: Sign, qy: Sign) -> (r: (i64, i64))
    requires
        -3 * MAX_OFFSET <= fx <= 3 * MAX_OFFSET,
        -3 * MAX_OFFSET <= fy <= 3 * MAX_OFFSET,
    ensures
        (r.0 as int, r.1 as int) == cornered(fx as int, fy as int, qx, qy),
        qx != Sign::Zer && qy != Sign::Zer ==> qx.spec_to_int() * r.0 + qy.spec_to_int() * r.1
            == HALF_TILE,
        qx != Sign::Zer && qy != Sign::Zer && 0 < qx.spec_to_int() * fx <= HALF_TILE && 0
            < qy.spec_to_int() * fy <= HALF_TILE ==> sign_of(r.0 as int) == qx && sign_of(
            r.1 as int,
        ) == qy,
{
    let u = qx.mul_i64(fx);
    let v = qy.mul_i64(fy);
    assert(-3 * MAX_OFFSET <= u <= 3 * MAX_OFFSET) by {
        lemma_unit_scale(qx, fx as int);
    }
    assert(-3 * MAX_OFFSET <= v <= 3 * MAX_OFFSET) by {
        lemma_unit_scale(qy, fy as int);
    }
    let (a, b) = if u <= v {
        let s = halve(u + HALF_TILE - v + 1);
        (s, HALF_TILE - s)
    } else {
        let s = halve(v + HALF_TILE - u + 1);
        (HALF_TILE - s, s)
    };
    proof {
        if qx != Sign::Zer && qy != Sign::Zer {
            lemma_corner_bound(fx as int, fy as int, qx, qy);
        }
        if qx != Sign::Zer && qy != Sign::Zer && 0 < u <= HALF_TILE && 0 < v <= HALF_TILE {
            lemma_corner_keeps_quadrant(fx as int, fy as int, qx, qy);
        }
    }
    (qx.mul_i64(a), qy.mul_i64(b))
}

/// Scaling by a direction keeps the magnitude or gives zero.
proof fn lemma_unit_scale(s: Sign, a: int)
    ensures
        s.spec_to_int() * a == a || s.spec_to_int() * a == -a || s.spec_to_int() * a == 0,
{
}

/// `a / 2` rounded down.
fn halve(a: i64) -> (r: i64)
    requires
        a > i64::MIN + 1,
    ensures
        r == a / 2,
{
    if a >= 0 {
        a / 2
    } else {
        -((1 - a) / 2)
    }
}

/// Screen coordinate, in pixels, of a cell and an offset.
pub fn screen_coord(cell: i64, off: i64) -> (r: i64)
    requires
        -MAX_CELL <= cell <= MAX_CELL,
        off > i64::MIN,
    ensures
        r == screen_of(cell as int, off as int),
{
    let px = if off >= 0 {
        off / SUBPIXELS
    } else {
        -((-off) / SUBPIXELS)
    };
    cell * TILE_PX + px
}

/// The cell transfer leaves an offset within half a tile of the cell's
/// origin, and its cell, as they are, however many times it is applied.
pub proof fn lemma_transfer_idempotent(f: int, cell: int, ori: Sign, k: nat)
    requires
        -HALF_TILE <= f <= HALF_TILE,
    ensures
        transferred_times(f, cell, ori, k) == (f, cell),
    decreases k,
{
    lemma_unit_scale(ori, f);
    if k > 0 {
        lemma_transfer_idempotent(f, cell, ori, (k - 1) as nat);
    }
}

/// From an offset at most one and a half tiles ahead in the direction of
/// travel, one cell transfer lands within half a tile of the new cell, so
/// applying it a second time changes nothing.
pub proof fn lemma_transfer_settles(f: int, cell: int, ori: Sign)
    requires
        -HALF_TILE <= ori.spec_to_int() * f <= 3 * HALF_TILE,
    ensures
        -HALF_TILE <= ori.spec_to_int() * transferred(f, cell, ori).0 <= HALF_TILE,
        transferred(transferred(f, cell, ori).0, transferred(f, cell, ori).1, ori) == transferred(
            f,
            cell,
            ori,
        ),
{
    let f1 = transferred(f, cell, ori).0;
    let k = ori.spec_to_int();
    assert(k * f1 == k * f - k * k * TILE_UNITS || f1 == f) by (nonlinear_arith)
        requires f1 == f - k * TILE_UNITS || f1 == f;
    assert(k * k * TILE_UNITS == TILE_UNITS || k == 0) by (nonlinear_arith)
        requires k == 1 || k == 0 || k == -1;
    lemma_unit_scale(ori, f);
    lemma_unit_scale(ori, f1);
}

/// Corner resolution toward a diagonal quadrant puts the combined
/// penetration `qx*fx' + qy*fy'` at exactly half a tile, never beyond it,
/// and keeps the difference `qx*fx' - qy*fy'` of the penetrations, the
/// direction of the slide, within one unit of rounding.
pub proof fn lemma_corner_bound(fx: int, fy: int, qx: Sign, qy: Sign)
    requires
        qx != Sign::Zer,
        qy != Sign::Zer,
    ensures
        qx.spec_to_int() * cornered(fx, fy, qx, qy).0 + qy.spec_to_int() * cornered(fx, fy, qx, qy).1
            == HALF_TILE,
        -1 <= (qx.spec_to_int() * cornered(fx, fy, qx, qy).0 - qy.spec_to_int() * cornered(
            fx,
            fy,
            qx,
            qy,
        ).1) - (qx.spec_to_int() * fx - qy.spec_to_int() * fy) <= 1,
{
    let u = qx.spec_to_int() * fx;
    let v = qy.spec_to_int() * fy;
    let (u1, v1) = split_half_tile(u, v);
    lemma_split_sum(u, v);
    lemma_scale_back(qx, u1);
    lemma_scale_back(qy, v1);
}

/// When the offset leans into the quadrant `(qx, qy)` by at most half a
/// tile on each axis, corner resolution keeps it in that quadrant: each new
/// offset has the direction of its axis, and neither passes half a tile.
pub proof fn lemma_corner_keeps_quadrant(fx: int, fy: int, qx: Sign, qy: Sign)
    requires
        qx != Sign::Zer,
        qy != Sign::Zer,
        0 < qx.spec_to_int() * fx <= HALF_TILE,
        0 < qy.spec_to_int() * fy <= HALF_TILE,
    ensures
        sign_of(cornered(fx, fy, qx, qy).0) == qx,
        sign_of(cornered(fx, fy, qx, qy).1) == qy,
        0 < qx.spec_to_int() * cornered(fx, fy, qx, qy).0 < HALF_TILE,
        0 < qy.spec_to_int() * cornered(fx, fy, qx, qy).1 < HALF_TILE,
{
    let u = qx.spec_to_int() * fx;
    let v = qy.spec_to_int() * fy;
    let (u1, v1) = split_half_tile(u, v);
    lemma_split_inside(u, v);
    lemma_scale_back(qx, u1);
    lemma_scale_back(qy, v1);
}

/// Splitting two penetrations of at most half a tile leaves both strictly
/// between zero and half a tile.
proof fn lemma_split_inside(u: int, v: int)
    requires
        0 < u <= HALF_TILE,
        0 < v <= HALF_TILE,
    ensures
        0 < split_half_tile(u, v).0 < HALF_TILE,
        0 < split_half_tile(u, v).1 < HALF_TILE,
{
}

/// Scaling by a nonzero direction twice gives the amount back, and a
/// positive amount scaled by it has that direction.
proof fn lemma_scale_back(s: Sign, a: int)
    requires
        s != Sign::Zer,
    ensures
        a > 0 ==> sign_of(s.spec_to_int() * a) == s,
        s.spec_to_int() * (s.spec_to_int() * a) == a,
{
    if s == Sign::Pos {
        assert(s.spec_to_int() * (s.spec_to_int() * a) == 1 * (1 * a));
    } else {
        assert(s.spec_to_int() * (s.spec_to_int() * a) == -1 * (-1 * a));
    }
}

/// The split penetrations sum to half a tile, and their difference is the
/// old one up to a unit of rounding.
proof fn lemma_split_sum(u: int, v: int)
    ensures
        split_half_tile(u, v).0 + split_half_tile(u, v).1 == HALF_TILE,
        -1 <= (split_half_tile(u, v).0 - split_half_tile(u, v).1) - (u - v) <= 1,
{
}

} // verus!
