use platformer::coords::{tiled_to_world_coord, world_to_tiled_coord};

#[test]
fn conversion_shifts_origin_and_flips_y() {
    // A 32-unit box at the top-left corner of a 20x10 map, all lengths in
    // milliunits as the map loader hands them in.
    let (x, y) = tiled_to_world_coord(0, 0, 32_000, 32_000, 20_000, 10_000);
    assert_eq!(x, -10_000 + 16_000);
    assert_eq!(y, 5_000 - 16_000);
}

#[test]
fn conversion_round_trips_through_inverse() {
    let cases = [
        (0i64, 0i64, 32_000i64, 32_000i64, 20_000i64, 10_000i64),
        (64_000, 96_000, 32_000, 32_000, 20_000, 10_000),
        (123, 457, 999, 1_001, 20_001, 9_999),
        (7, 13, 0, 0, 1, 1),
    ];
    for (sx, sy, w, h, mw, mh) in cases {
        let (wx, wy) = tiled_to_world_coord(sx, sy, w, h, mw, mh);
        let (bx, by) = world_to_tiled_coord(wx, wy, w, h, mw, mh);
        assert_eq!((bx, by), (sx, sy));
    }
}
