use vstd::prelude::*;

use crate::constants::{CENTER_COL, CENTER_ROW};

verus! {

/// Whether `index` addresses a cell of a `rows` x `columns` board.
pub open spec fn valid_tile(index: int, rows: int, columns: int) -> bool {
    0 <= index < rows * columns
}

pub open spec fn row_of(index: int, columns: int) -> int {
    index / columns
}

pub open spec fn col_of(index: int, columns: int) -> int {
    index % columns
}

/// The six neighbour directions (column step, row step) of a cell; they
/// differ between odd and even columns.
pub open spec fn is_neighbor_step(odd_column: bool, dcol: int, drow: int) -> bool {
    if odd_column {
        (dcol == 1 && drow == 1) || (dcol == 1 && drow == 0) || (dcol == 0 && drow == -1)
            || (dcol == -1 && drow == 0) || (dcol == -1 && drow == 1) || (dcol == 0 && drow
            == 1)
    } else {
        (dcol == 1 && drow == 0) || (dcol == 1 && drow == -1) || (dcol == 0 && drow == -1)
            || (dcol == -1 && drow == -1) || (dcol == -1 && drow == 0) || (dcol == 0 && drow
            == 1)
    }
}

/// Adjacency of two cells under the odd-column hexagonal offset scheme.
/// Cells outside the board are adjacent to nothing.
pub open spec fn adjacent(a: int, b: int, rows: int, columns: int) -> bool {
    &&& valid_tile(a, rows, columns)
    &&& valid_tile(b, rows, columns)
    &&& is_neighbor_step(
        col_of(a, columns) % 2 == 1,
        col_of(b, columns) - col_of(a, columns),
        row_of(b, columns) - row_of(a, columns),
    )
}

pub open spec fn abs(x: int) -> int {
    if x < 0 {
        -x
    } else {
        x
    }
}

/// Axial hex coordinates (q, r) of a board cell.
pub open spec fn axial_q(row: int, col: int) -> int {
    col
}

pub open spec fn axial_r(row: int, col: int) -> int {
    row - (col - col % 2) / 2
}

/// Hexagonal (cube) distance between two board cells given as (row, col).
pub open spec fn hex_distance(row1: int, col1: int, row2: int, col2: int) -> int {
    let dq = axial_q(row1, col1) - axial_q(row2, col2);
    let dr = axial_r(row1, col1) - axial_r(row2, col2);
    (abs(dq) + abs(dr) + abs(-dq - dr)) / 2
}

/// Ring distance of a tile from the board's centre cell.
pub open spec fn center_distance(index: int, columns: int) -> int {
    hex_distance(row_of(index, columns), col_of(index, columns), CENTER_ROW as int, CENTER_COL as int)
}

/// Tier of a tile: 0 gold, 1 silver, 2 bronze, 3 iron, 4 unranked.
pub open spec fn tier_of(index: int, columns: int) -> int {
    let d = center_distance(index, columns);
    if d >= 4 {
        4
    } else {
        d
    }
}

/// Whether two tiles are neighbours on a `rows` x `columns` hexagonal board
/// laid out row by row (`index = row * columns + column`).
pub fn are_tiles_adjacent(source_index: u16, destination_index: u16, rows: u8, columns: u8) -> (r:
    bool)
    ensures
        r == adjacent(source_index as int, destination_index as int, rows as int, columns as int),
{
    if columns == 0 {
        assert(rows as int * 0 == 0);
        return false;
    }
    assert(rows as int * columns as int <= 255 * 255) by (nonlinear_arith)
        requires
            rows <= 255,
            columns <= 255,
    ;
    let cells: u32 = rows as u32 * columns as u32;
    if source_index as u32 >= cells || destination_index as u32 >= cells {
        return false;
    }
    let source_row = source_index as i32 / columns as i32;
    let source_col = source_index as i32 % columns as i32;
    let dest_row = destination_index as i32 / columns as i32;
    let dest_col = destination_index as i32 % columns as i32;
    let drow = dest_row - source_row;
    let dcol = dest_col - source_col;
    if source_col % 2 == 1 {
        (dcol == 1 && drow == 1) || (dcol == 1 && drow == 0) || (dcol == 0 && drow == -1) || (dcol
            == -1 && drow == 0) || (dcol == -1 && drow == 1) || (dcol == 0 && drow == 1)
    } else {
        (dcol == 1 && drow == 0) || (dcol == 1 && drow == -1) || (dcol == 0 && drow == -1) || (dcol
            == -1 && drow == -1) || (dcol == -1 && drow == 0) || (dcol == 0 && drow == 1)
    }
}

/// Adjacency is symmetric: `a` neighbours `b` exactly when `b` neighbours `a`.
pub proof fn lemma_adjacency_symmetric(a: int, b: int, rows: u8, columns: u8)
    ensures
        adjacent(a, b, rows as int, columns as int) == adjacent(b, a, rows as int, columns as int),
{
    if valid_tile(a, rows as int, columns as int) && valid_tile(b, rows as int, columns as int) {
        if columns == 0 {
            assert(rows as int * 0 == 0);
        }
        let ca = col_of(a, columns as int);
        let cb = col_of(b, columns as int);
        assert(ca % 2 == 1 || ca % 2 == 0);
        assert(cb % 2 == 1 || cb % 2 == 0);
        if cb - ca == 1 || cb - ca == -1 {
            assert(cb % 2 != ca % 2);
        }
    }
}

/// Ring tier of a tile measured from the board centre: 0 gold, 1 silver,
/// 2 bronze, 3 iron, 4 for every tile further out (not tracked).
pub fn get_tile_tier(tile_index: u16, rows: u8, columns: u8) -> (r: u8)
    requires
        columns > 0,
    ensures
        r == tier_of(tile_index as int, columns as int),
{
    let tile_row = tile_index as i64 / columns as i64;
    let tile_col = tile_index as i64 % columns as i64;
    let center_q = CENTER_COL;
    let center_r = CENTER_ROW - (CENTER_COL - CENTER_COL % 2) / 2;
    let tile_q = tile_col;
    let tile_r = tile_row - (tile_col - tile_col % 2) / 2;
    let dq = tile_q - center_q;
    let dr = tile_r - center_r;
    let ds = -dq - dr;
    let adq = if dq < 0 { -dq } else { dq };
    let adr = if dr < 0 { -dr } else { dr };
    let ads = if ds < 0 { -ds } else { ds };
    let distance = (adq + adr + ads) / 2;
    if distance >= 4 {
        4
    } else {
        distance as u8
    }
}

} // verus!
