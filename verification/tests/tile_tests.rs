use platformer::tile::{
    create_tile, encode_tile_id, tile_rotation, FLIPPED_DIAGONALLY_FLAG,
    FLIPPED_HORIZONTALLY_FLAG, FLIPPED_VERTICALLY_FLAG,
};

fn flags(h: bool, v: bool, d: bool) -> u32 {
    (if h { FLIPPED_HORIZONTALLY_FLAG } else { 0 })
        | (if v { FLIPPED_VERTICALLY_FLAG } else { 0 })
        | (if d { FLIPPED_DIAGONALLY_FLAG } else { 0 })
}

#[test]
fn rotation_table_all_eight_flag_combinations() {
    // (h, v, d) -> degrees: +90 needs d and h, -90 needs d and v without h,
    // everything else is 0.
    let table = [
        (false, false, false, 0),
        (true, false, false, 0),
        (false, true, false, 0),
        (true, true, false, 0),
        (false, false, true, 0),
        (true, false, true, 90),
        (false, true, true, -90),
        (true, true, true, 90),
    ];
    for (h, v, d, want) in table {
        let raw = flags(h, v, d) | 7;
        assert_eq!(tile_rotation(raw), want, "flags h={h} v={v} d={d}");
    }
}

#[test]
fn create_tile_strips_flags_and_reports_mirrors() {
    let raw = FLIPPED_HORIZONTALLY_FLAG | 3;
    let t = create_tile(raw);
    assert_eq!(t.index, 2);
    assert!(t.flip_x);
    assert!(!t.flip_y);

    let plain = create_tile(1);
    assert_eq!(plain.index, 0);
    assert!(!plain.flip_x);
    assert!(!plain.flip_y);
}

#[test]
fn tile_id_round_trips_through_decode_and_encode() {
    for h in [false, true] {
        for v in [false, true] {
            for d in [false, true] {
                for k in [1u32, 2, 77, 0x0FFF_FFFF] {
                    let raw = flags(h, v, d) | k;
                    let t = create_tile(raw);
                    let d_bit = raw & FLIPPED_DIAGONALLY_FLAG != 0;
                    assert_eq!(encode_tile_id(t.index, t.flip_x, t.flip_y, d_bit), raw);
                }
            }
        }
    }
}
