use tilegrid::map::TileMap;
use tilegrid::player::{
    integrate, resolve_corner, screen_coord, transfer, AxisInput, Player, HALF_TILE, TILE_UNITS,
};
use tilegrid::sign::Sign;

const FRAME_60: u64 = 16_667;

#[test]
fn one_tick_moving_right() {
    let map = TileMap::basic(10, 10);
    let mut p = Player::new(1, 1);
    p.input_x.press(Sign::Pos);
    p.step(&map, 96, FRAME_60);
    assert_eq!((p.cell_x, p.cell_y), (1, 1));
    assert_eq!(p.off_x, 1_600_032);
    assert!((p.off_x - 1_600_000).abs() < 100);
    assert_eq!(p.off_y, 0);
    assert_eq!(p.screen_x(), 33);
    assert_eq!(p.screen_y(), 32);
}

#[test]
fn transfer_east_then_stop_at_wall() {
    let map = TileMap::basic(10, 10);
    let mut p = Player::new(20, 1);
    p.off_x = 20_000_000;
    p.input_x.press(Sign::Pos);
    p.step(&map, 96, FRAME_60);
    assert_eq!((p.cell_x, p.cell_y), (21, 1));
    assert_eq!(p.off_x, 21_600_032 - TILE_UNITS);
    for _ in 0..6 {
        p.step(&map, 96, FRAME_60);
    }
    assert_eq!(p.off_x, -799_776);
    p.step(&map, 96, FRAME_60);
    assert_eq!(p.off_x, 0);
    for _ in 0..10 {
        p.step(&map, 96, FRAME_60);
        assert_eq!((p.cell_x, p.off_x), (21, 0));
    }
}

#[test]
fn release_only_stops_active_key() {
    let mut a = AxisInput::new();
    assert_eq!(a, AxisInput { held: false, ori: Sign::Pos });
    a.press(Sign::Pos);
    a.press(Sign::Neg);
    a.release(Sign::Pos);
    assert_eq!(a, AxisInput { held: true, ori: Sign::Neg });
    a.release(Sign::Neg);
    assert_eq!(a, AxisInput { held: false, ori: Sign::Neg });
    a.press(Sign::Pos);
    a.release(Sign::Pos);
    assert!(!a.held);
}

#[test]
fn transfer_is_idle_within_half_tile() {
    for f in [-HALF_TILE, -5, 0, 7, HALF_TILE] {
        for ori in [Sign::Pos, Sign::Zer, Sign::Neg] {
            let mut r = (f, 4);
            for _ in 0..3 {
                r = transfer(r.0, r.1, ori);
                assert_eq!(r, (f, 4));
            }
        }
    }
}

#[test]
fn transfer_moves_cell() {
    assert_eq!(transfer(HALF_TILE + 1, 4, Sign::Pos), (HALF_TILE + 1 - TILE_UNITS, 5));
    assert_eq!(transfer(-HALF_TILE - 1, 4, Sign::Neg), (TILE_UNITS - HALF_TILE - 1, 3));
    assert_eq!(transfer(HALF_TILE + 1, 4, Sign::Neg), (HALF_TILE + 1, 4));
}

#[test]
fn integrate_follows_input() {
    let held = AxisInput { held: true, ori: Sign::Neg };
    assert_eq!(integrate(100, held, 128, 1_000), 100 - 128_000);
    let idle = AxisInput { held: false, ori: Sign::Pos };
    assert_eq!(integrate(100, idle, 128, 1_000), 100);
}

#[test]
fn corner_resolution_values() {
    assert_eq!(resolve_corner(10_000_000, 10_000_000, Sign::Pos, Sign::Pos), (8_000_000, 8_000_000));
    assert_eq!(resolve_corner(12_000_000, 6_000_000, Sign::Pos, Sign::Pos), (11_000_000, 5_000_000));
    assert_eq!(
        resolve_corner(-12_000_000, -6_000_000, Sign::Neg, Sign::Neg),
        (-11_000_000, -5_000_000)
    );
    assert_eq!(resolve_corner(3, 0, Sign::Pos, Sign::Pos), (8_000_001, 7_999_999));
}

#[test]
fn corner_resolution_bound() {
    for (fx, fy) in [(10_000_000, 10_000_000), (12_000_000, 6_000_001), (15_999_999, 3)] {
        for qx in [Sign::Pos, Sign::Neg] {
            for qy in [Sign::Pos, Sign::Neg] {
                let (a, b) = resolve_corner(qx.mul_i64(fx), qy.mul_i64(fy), qx, qy);
                let s = qx.mul_i64(a) + qy.mul_i64(b);
                assert_eq!(s, HALF_TILE);
            }
        }
    }
}

#[test]
fn step_resolves_solid_corner() {
    let map = TileMap::basic(10, 10);
    let mut p = Player::new(1, 1);
    p.off_x = 12_000_000;
    p.off_y = 6_000_000;
    p.step(&map, 96, FRAME_60);
    assert_eq!((p.cell_x, p.cell_y, p.off_x, p.off_y), (1, 1, 11_000_000, 5_000_000));
}

#[test]
fn step_keeps_open_diagonal() {
    let map = TileMap::basic(10, 10);
    let mut p = Player::new(2, 1);
    p.off_x = 12_000_000;
    p.off_y = 6_000_000;
    p.step(&map, 96, FRAME_60);
    assert_eq!((p.cell_x, p.cell_y, p.off_x, p.off_y), (2, 1, 12_000_000, 0));
}

#[test]
fn screen_coord_truncates_toward_zero() {
    assert_eq!(screen_coord(1, 1_600_032), 33);
    assert_eq!(screen_coord(2, -1_500_000), 63);
    assert_eq!(screen_coord(0, -999_999), 0);
}

#[test]
fn within_limits_reports_fit() {
    let mut p = Player::new(1, 1);
    assert!(p.within_limits());
    p.off_x = i64::MAX;
    assert!(!p.within_limits());
}

#[test]
fn corner_resolution_keeps_quadrant() {
    assert_eq!(resolve_corner(1, HALF_TILE, Sign::Pos, Sign::Pos), (1, HALF_TILE - 1));
    assert_eq!(resolve_corner(-HALF_TILE, 1, Sign::Neg, Sign::Pos), (-(HALF_TILE - 1), 1));
    for (u, v) in [(1, HALF_TILE), (HALF_TILE, 1), (HALF_TILE, HALF_TILE), (2, HALF_TILE - 1), (7, 3)] {
        for qx in [Sign::Pos, Sign::Neg] {
            for qy in [Sign::Pos, Sign::Neg] {
                let (a, b) = resolve_corner(qx.mul_i64(u), qy.mul_i64(v), qx, qy);
                assert_eq!(Sign::from_int(a), qx);
                assert_eq!(Sign::from_int(b), qy);
                assert!(qx.mul_i64(a) < HALF_TILE && qy.mul_i64(b) < HALF_TILE);
            }
        }
    }
}

#[test]
fn transfer_twice_is_transfer_once() {
    for ori in [Sign::Pos, Sign::Neg] {
        for u in [HALF_TILE + 1, TILE_UNITS, 3 * HALF_TILE] {
            let once = transfer(ori.mul_i64(u), 7, ori);
            assert_eq!(transfer(once.0, once.1, ori), once);
            assert_eq!(once.1, 7 + ori.to_int() as i64);
        }
    }
}
