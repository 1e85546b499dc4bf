use hexone::{are_tiles_adjacent, get_tile_tier};

#[test]
fn adjacency_even_column_neighbours() {
    let rows = 11u8;
    let cols = 13u8;
    let src = 1 * 13 + 2; // row 1, col 2: even column
    let expected = [
        (3, 1),  // (col+1, row)
        (3, 0),  // (col+1, row-1)
        (2, 0),  // (col, row-1)
        (1, 0),  // (col-1, row-1)
        (1, 1),  // (col-1, row)
        (2, 2),  // (col, row+1)
    ];
    for (c, r) in expected.iter() {
        assert!(are_tiles_adjacent(src, (r * 13 + c) as u16, rows, cols));
    }
    // (col+1, row+1) and (col-1, row+1) are not neighbours of an even column
    assert!(!are_tiles_adjacent(src, 2 * 13 + 3, rows, cols));
    assert!(!are_tiles_adjacent(src, 2 * 13 + 1, rows, cols));
}

#[test]
fn adjacency_odd_column_neighbours() {
    let rows = 11u8;
    let cols = 13u8;
    let src = 1 * 13 + 1; // row 1, col 1: odd column
    let expected = [(2, 2), (2, 1), (1, 0), (0, 1), (0, 2), (1, 2)];
    for (c, r) in expected.iter() {
        assert!(are_tiles_adjacent(src, (r * 13 + c) as u16, rows, cols));
    }
    assert!(!are_tiles_adjacent(src, 0 * 13 + 2, rows, cols));
    assert!(!are_tiles_adjacent(src, 0 * 13 + 0, rows, cols));
    assert!(!are_tiles_adjacent(src, src, rows, cols));
}

#[test]
fn adjacency_is_symmetric_on_the_board() {
    let rows = 11u8;
    let cols = 13u8;
    for a in 0..143u16 {
        for b in 0..143u16 {
            assert_eq!(
                are_tiles_adjacent(a, b, rows, cols),
                are_tiles_adjacent(b, a, rows, cols),
                "{} {}",
                a,
                b
            );
        }
    }
}

#[test]
fn adjacency_rejects_tiles_off_the_board() {
    // index 143 is past an 11x13 board of 143 cells
    assert!(!are_tiles_adjacent(142, 143, 11, 13));
    assert!(!are_tiles_adjacent(143, 142, 11, 13));
    assert!(!are_tiles_adjacent(0, 1, 11, 0));
    // no wrap-around from the end of one row to the start of the next
    assert!(!are_tiles_adjacent(12, 13, 11, 13));
}

#[test]
fn tier_rings_around_the_center() {
    let center = 5 * 13 + 6;
    assert_eq!(get_tile_tier(center, 11, 13), 0);
    assert_eq!(get_tile_tier(center + 1, 11, 13), 1);
    assert_eq!(get_tile_tier(center - 13, 11, 13), 1);
    assert_eq!(get_tile_tier(center + 2, 11, 13), 2);
    assert_eq!(get_tile_tier(center + 3, 11, 13), 3);
    assert_eq!(get_tile_tier(center + 4, 11, 13), 4);
    // the corners are unranked
    assert_eq!(get_tile_tier(0, 11, 13), 4);
    assert_eq!(get_tile_tier(142, 11, 13), 4);
    // a far-away index stays unranked rather than wrapping
    assert_eq!(get_tile_tier(60000, 11, 13), 4);
}

#[test]
fn every_neighbour_of_the_center_is_silver() {
    let center = 5 * 13 + 6;
    let mut neighbours = 0;
    for i in 0..143u16 {
        if are_tiles_adjacent(center, i, 11, 13) {
            neighbours += 1;
            assert_eq!(get_tile_tier(i, 11, 13), 1);
        }
    }
    assert_eq!(neighbours, 6);
}
