//! Conversions between canvas pixels, grid cells and square indices.
//!
//! The board is drawn as an 8×8 grid of square tiles. Grid cell (0, 0) is the
//! top-left tile; files grow to the right and rows grow downwards. Squares are
//! numbered 0..63 from a1 (0) along the ranks to h8 (63), so row 0 of the grid
//! shows rank 8 and file 0 shows the a-file.

use vstd::prelude::*;
use vstd::arithmetic::div_mod::lemma_fundamental_div_mod_converse;

verus! {

/// A pointer position on the canvas, in whole pixels from its top-left corner.
#[derive(Clone, Copy, Debug, PartialEq, Eq, Structural)]
pub struct Point {
    pub x: i32,
    pub y: i32,
}

/// One of the 64 squares of the board, addressed by its index.
#[derive(Clone, Copy, Debug, PartialEq, Eq, Structural)]
pub struct Square {
    index: u8,
}

impl View for Square {
    type V = int;

    closed spec fn view(&self) -> int {
        self.index as int
    }
}

/// Index of the square shown at grid cell (`file`, `row`).
pub open spec fn square_index(file: int, row: int) -> int {
    63 - (row * 8 + (7 - file))
}

/// Grid column in which a square is shown.
pub open spec fn square_file(square: int) -> int {
    square % 8
}

/// Grid row in which a square is shown.
pub open spec fn square_row(square: int) -> int {
    7 - square / 8
}

/// Whether pixel (`x`, `y`) lies on a board whose tiles are `tile` pixels wide.
pub open spec fn on_board(x: int, y: int, tile: int) -> bool {
    0 <= x < 8 * tile && 0 <= y < 8 * tile
}

/// Grid cell under pixel (`x`, `y`), if the pixel lies on the board.
pub open spec fn cell_at(x: int, y: int, tile: int) -> Option<(int, int)> {
    if on_board(x, y, tile) {
        Some((x / tile, y / tile))
    } else {
        None
    }
}

/// Index of the square under pixel (`x`, `y`), if the pixel lies on the board.
pub open spec fn square_at(x: int, y: int, tile: int) -> Option<int> {
    match cell_at(x, y, tile) {
        Some((file, row)) => Some(square_index(file, row)),
        None => None,
    }
}

/// Pixel at the centre of the tile that shows `square`.
pub open spec fn square_center(square: int, tile: int) -> (int, int) {
    (square_file(square) * tile + tile / 2, square_row(square) * tile + tile / 2)
}

/// A grid cell held in machine integers, as a pair of mathematical integers.
pub open spec fn cell_view(cell: Option<(usize, usize)>) -> Option<(int, int)> {
    match cell {
        Some((file, row)) => Some((file as int, row as int)),
        None => None,
    }
}

/// A square held in an `Option`, as its index.
pub open spec fn square_view(square: Option<Square>) -> Option<int> {
    match square {
        Some(s) => Some(s@),
        None => None,
    }
}

impl Square {
    /// Every square has one of the 64 indices.
    #[verifier::type_invariant]
    pub open spec fn in_range(&self) -> bool {
        0 <= self@ < 64
    }

    /// The square with the given index, if there is one.
    pub fn new(index: usize) -> (square: Option<Square>)
        ensures
            square_view(square) == (if index < 64 { Some(index as int) } else { None }),
    {
        if index < 64 {
            Some(Square { index: index as u8 })
        } else {
            None
        }
    }

    /// The index of this square, 0 for a1 up to 63 for h8.
    pub fn index(&self) -> (index: usize)
        ensures
            index == self@,
            index < 64,
        no_unwind
    {
        proof {
            use_type_invariant(self);
        }
        self.index as usize
    }
}

/// Square shown at grid cell (`x`, `y`).
pub fn coord_to_square(x: usize, y: usize) -> (square: Square)
    requires
        x < 8,
        y < 8,
    ensures
        square@ == square_index(x as int, y as int),
{
    Square { index: (63 - (y * 8 + (7 - x))) as u8 }
}

/// Grid cell (`x`, `y`) at which the square with the given index is shown.
pub fn index_to_coord(index: usize) -> (coord: (usize, usize))
    requires
        index < 64,
    ensures
        coord.0 == square_file(index as int),
        coord.1 == square_row(index as int),
        coord.0 < 8,
        coord.1 < 8,
{
    let x: usize = index % 8;
    let y: usize = 7 - (index / 8);
    (x, y)
}

/// Grid cell under a pixel, or `None` when the pixel lies off the board.
pub fn canvas_coord_to_square_coord(point: Point, tile_size: u32) -> (cell: Option<(usize, usize)>)
    ensures
        cell_view(cell) == cell_at(point.x as int, point.y as int, tile_size as int),
        cell is None <==> !on_board(point.x as int, point.y as int, tile_size as int),
        cell matches Some((file, row)) ==> file < 8 && row < 8,
{
    let tile: u64 = tile_size as u64;
    if point.x < 0 || point.y < 0 {
        return None;
    }
    let x: u64 = point.x as u64;
    let y: u64 = point.y as u64;
    if x >= 8 * tile || y >= 8 * tile {
        return None;
    }
    let file: u64 = x / tile;
    let row: u64 = y / tile;
    proof {
        lemma_cell_in_grid(x as int, tile as int);
        lemma_cell_in_grid(y as int, tile as int);
    }
    Some((file as usize, row as usize))
}

/// Square under a pixel, or `None` when the pixel lies off the board.
pub fn square_from_point(point: Point, tile_size: u32) -> (square: Option<Square>)
    ensures
        square_view(square) == square_at(point.x as int, point.y as int, tile_size as int),
        square is None <==> !on_board(point.x as int, point.y as int, tile_size as int),
{
    match canvas_coord_to_square_coord(point, tile_size) {
        Some((file, row)) => Some(coord_to_square(file, row)),
        None => None,
    }
}

/// A square is known by its index: two squares with one index are one square.
pub proof fn lemma_square_by_index(a: Square, b: Square)
    ensures
        a@ == b@ <==> a == b,
{
}

/// A pixel offset inside the board falls into one of the eight columns.
pub proof fn lemma_cell_in_grid(x: int, tile: int)
    requires
        0 <= x < 8 * tile,
    ensures
        0 <= x / tile < 8,
{
    assert(0 <= x / tile < 8) by (nonlinear_arith)
        requires
            0 <= x < 8 * tile,
    ;
}

/// Cell to square and back is the identity on the grid, and the square is one
/// of the 64.
pub proof fn lemma_coord_round_trip(file: int, row: int)
    requires
        0 <= file < 8,
        0 <= row < 8,
    ensures
        0 <= square_index(file, row) < 64,
        square_file(square_index(file, row)) == file,
        square_row(square_index(file, row)) == row,
{
}

/// Square to cell and back is the identity on the 64 squares, and the cell
/// lies on the grid.
pub proof fn lemma_square_round_trip(square: int)
    requires
        0 <= square < 64,
    ensures
        0 <= square_file(square) < 8,
        0 <= square_row(square) < 8,
        square_index(square_file(square), square_row(square)) == square,
{
}

/// The pixel at the centre of a square's tile maps back to that square,
/// whatever the tile size.
pub proof fn lemma_center_maps_to_square(square: int, tile: int)
    requires
        0 <= square < 64,
        tile > 0,
    ensures
        on_board(square_center(square, tile).0, square_center(square, tile).1, tile),
        square_at(square_center(square, tile).0, square_center(square, tile).1, tile) == Some(
            square,
        ),
{
    let file = square_file(square);
    let row = square_row(square);
    let half = tile / 2;
    lemma_square_round_trip(square);
    assert(0 <= half < tile);
    assert(file * tile + half < 8 * tile && 0 <= file * tile) by (nonlinear_arith)
        requires
            0 <= file < 8,
            0 <= half < tile,
    ;
    assert(row * tile + half < 8 * tile && 0 <= row * tile) by (nonlinear_arith)
        requires
            0 <= row < 8,
            0 <= half < tile,
    ;
    lemma_fundamental_div_mod_converse(file * tile + half, tile, file, half);
    lemma_fundamental_div_mod_converse(row * tile + half, tile, row, half);
}

/// Every pixel on the board lies in a cell of the grid, and the square found
/// under it is the one shown in that cell.
pub proof fn lemma_pixel_round_trip(x: int, y: int, tile: int)
    requires
        on_board(x, y, tile),
    ensures
        cell_at(x, y, tile) == Some((x / tile, y / tile)),
        0 <= x / tile < 8,
        0 <= y / tile < 8,
        square_at(x, y, tile) == Some(square_index(x / tile, y / tile)),
        0 <= square_index(x / tile, y / tile) < 64,
        square_file(square_index(x / tile, y / tile)) == x / tile,
        square_row(square_index(x / tile, y / tile)) == y / tile,
{
    lemma_cell_in_grid(x, tile);
    lemma_cell_in_grid(y, tile);
    lemma_coord_round_trip(x / tile, y / tile);
}

/// A pixel with a coordinate outside `[0, 8 * tile)` is under no cell and no
/// square.
pub proof fn lemma_off_board_is_none(x: int, y: int, tile: int)
    requires
        x < 0 || x >= 8 * tile || y < 0 || y >= 8 * tile,
    ensures
        cell_at(x, y, tile) is None,
        square_at(x, y, tile) is None,
{
}

} // verus!
