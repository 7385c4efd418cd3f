//! What a renderer has to paint for a board.
//!
//! Nothing is painted here. [`VisualBoard::draw`] describes a frame: the colour
//! of each tile, the cells to tint as destinations of the selected piece, the
//! image on each square, and the promotion picker while it is open. Grids are
//! held row by row from the top-left cell, so cell (`x`, `y`) is entry
//! `y * 8 + x`.

use vstd::prelude::*;
use crate::coords::{
    cell_view, coord_to_square, index_to_coord, square_file, square_index, square_row,
};
use crate::engine::{color_on, indicated_squares, piece_on, squares_view};
use crate::interaction::{
    picker_piece, promotion_choice, BoardModel, State, VisualBoard, PICKER_ROW,
};
use crate::pieces::{Color, Piece};

verus! {

/// The colour of a tile of the checkerboard.
#[derive(Clone, Copy, Debug, PartialEq, Eq, Structural)]
pub enum Tile {
    Light,
    Dark,
}

/// An image to paint over a cell of the grid.
#[derive(Debug, PartialEq, Eq)]
pub struct Sprite {
    pub x: usize,
    pub y: usize,
    /// Path of the image file.
    pub image: String,
}

/// The promotion picker, painted over a dimmed board.
#[derive(Debug, PartialEq, Eq)]
pub struct PromotionOverlay {
    /// The cell of the picker under the pointer, to be highlighted.
    pub hovered: Option<(usize, usize)>,
    /// The pieces on offer, each on its cell.
    pub choices: Vec<Sprite>,
}

/// A frame.
#[derive(Debug, PartialEq, Eq)]
pub struct DrawModel {
    /// The colour of each of the 64 tiles.
    pub tiles: Vec<Tile>,
    /// The cells to tint as destinations of the selected piece.
    pub indicated: Vec<(usize, usize)>,
    /// The image of the piece on each of the 64 cells, if one stands there.
    pub pieces: Vec<Option<String>>,
    /// The promotion picker, while it is open.
    pub promotion: Option<PromotionOverlay>,
}

/// The colour of the tile at cell (`x`, `y`): light where `x + y` is even.
pub open spec fn tile_color(x: int, y: int) -> Tile {
    if (x + y) % 2 == 0 {
        Tile::Light
    } else {
        Tile::Dark
    }
}

/// The file name of the image of a kind of piece.
pub open spec fn piece_file_name(piece: Piece) -> Seq<char> {
    match piece {
        Piece::Pawn => "pawn.png"@,
        Piece::Knight => "knight.png"@,
        Piece::Bishop => "bishop.png"@,
        Piece::Rook => "rook.png"@,
        Piece::Queen => "queen.png"@,
        Piece::King => "king.png"@,
    }
}

/// The directory of a side's images, with its closing slash; nothing for no
/// side.
pub open spec fn color_directory(color: Option<Color>) -> Seq<char> {
    match color {
        Some(Color::White) => "white/"@,
        Some(Color::Black) => "black/"@,
        None => Seq::empty(),
    }
}

/// The path of the image of a piece on the board.
pub open spec fn piece_image_path(color: Option<Color>, piece: Piece) -> Seq<char> {
    "assets/monochrome/"@ + color_directory(color) + piece_file_name(piece)
}

/// The path of the image of a piece on offer in the promotion picker.
pub open spec fn promotion_image_path(piece: Piece) -> Seq<char> {
    "assets/color/neutral/"@ + piece_file_name(piece)
}

/// The path of the image on cell (`x`, `y`), if a piece stands there.
pub open spec fn sprite_at(board: cozy_chess::Board, x: int, y: int) -> Option<Seq<char>> {
    match piece_on(board, square_index(x, y)) {
        Some(piece) => Some(piece_image_path(color_on(board, square_index(x, y)), piece)),
        None => None,
    }
}

/// The cells to tint: where the squares to mark for the selected piece are
/// shown, and none where nothing is selected.
pub open spec fn indicated_cells(m: BoardModel) -> Seq<(int, int)> {
    match m.selected {
        Some(from) => {
            let squares = indicated_squares(m.position, from);
            Seq::new(squares.len(), |k: int| (square_file(squares[k]), square_row(squares[k])))
        },
        None => Seq::empty(),
    }
}

/// The cell to highlight in the picker: the tracked cell, where it is one of
/// the picker's.
pub open spec fn picker_highlight(m: BoardModel) -> Option<(int, int)> {
    if picker_piece(m.hovered_tile) is Some {
        m.hovered_tile
    } else {
        None
    }
}

/// Cells held in a vector, as pairs of mathematical integers.
pub open spec fn cells_view(cells: Seq<(usize, usize)>) -> Seq<(int, int)> {
    Seq::new(cells.len(), |k: int| (cells[k].0 as int, cells[k].1 as int))
}

/// An image path held in an `Option`, as its characters.
pub open spec fn image_view(image: Option<String>) -> Option<Seq<char>> {
    match image {
        Some(path) => Some(path@),
        None => None,
    }
}

/// Whether `choices` are the four pieces of the picker, from file 2 to file 5
/// of its row, each with its image.
pub open spec fn is_picker(choices: Seq<Sprite>) -> bool {
    &&& choices.len() == 4
    &&& forall|i: int|
        0 <= i < 4 ==> (#[trigger] choices[i]).x == 2 + i && choices[i].y == 4
            && picker_piece(Some((2 + i, 4))) is Some && choices[i].image@
            == promotion_image_path(picker_piece(Some((2 + i, 4))).unwrap())
}

/// Whether a frame shows the board `m`.
pub open spec fn shows(model: DrawModel, m: BoardModel) -> bool {
    &&& model.tiles@.len() == 64
    &&& forall|j: int| 0 <= j < 64 ==> #[trigger] model.tiles@[j] == tile_color(j % 8, j / 8)
    &&& cells_view(model.indicated@) == indicated_cells(m)
    &&& model.pieces@.len() == 64
    &&& forall|j: int|
        0 <= j < 64 ==> image_view(#[trigger] model.pieces@[j]) == sprite_at(
            m.position,
            j % 8,
            j / 8,
        )
    &&& model.promotion is Some <==> m.state == State::Promoting
    &&& model.promotion matches Some(overlay) ==> cell_view(overlay.hovered) == picker_highlight(m)
        && is_picker(overlay.choices@)
}

/// The file name of the image of a kind of piece.
pub fn piece_file(piece: Piece) -> (name: &'static str)
    ensures
        name@ == piece_file_name(piece),
{
    match piece {
        Piece::Pawn => "pawn.png",
        Piece::Knight => "knight.png",
        Piece::Bishop => "bishop.png",
        Piece::Rook => "rook.png",
        Piece::Queen => "queen.png",
        Piece::King => "king.png",
    }
}

/// The path of the image of a piece on the board.
pub fn piece_image(color: Option<Color>, piece: Piece) -> (path: String)
    ensures
        path@ == piece_image_path(color, piece),
{
    let mut path = String::from_str("assets/monochrome/");
    match color {
        Some(Color::White) => {
            path.append("white/");
        },
        Some(Color::Black) => {
            path.append("black/");
        },
        None => {
            assert(path@ + Seq::<char>::empty() =~= path@);
        },
    }
    path.append(piece_file(piece));
    path
}

/// The path of the image of a piece on offer in the promotion picker.
pub fn promotion_image(piece: Piece) -> (path: String)
    ensures
        path@ == promotion_image_path(piece),
{
    let mut path = String::from_str("assets/color/neutral/");
    path.append(piece_file(piece));
    path
}

/// The colours of the 64 tiles.
pub fn checkerboard() -> (tiles: Vec<Tile>)
    ensures
        tiles@.len() == 64,
        forall|j: int| 0 <= j < 64 ==> #[trigger] tiles@[j] == tile_color(j % 8, j / 8),
{
    let mut tiles: Vec<Tile> = Vec::new();
    let mut j: usize = 0;
    while j < 64
        invariant
            j <= 64,
            tiles@.len() == j,
            forall|i: int| 0 <= i < j ==> #[trigger] tiles@[i] == tile_color(i % 8, i / 8),
        decreases 64 - j,
    {
        let x: usize = j % 8;
        let y: usize = j / 8;
        tiles.push(
            if (x + y) % 2 == 0 {
                Tile::Light
            } else {
                Tile::Dark
            },
        );
        j += 1;
    }
    tiles
}

/// The four pieces of the picker, each on its cell.
fn picker_choices() -> (choices: Vec<Sprite>)
    ensures
        is_picker(choices@),
{
    let mut choices: Vec<Sprite> = Vec::new();
    let mut x: usize = 2;
    while x < 6
        invariant
            2 <= x <= 6,
            choices@.len() == x - 2,
            forall|i: int|
                0 <= i < x - 2 ==> (#[trigger] choices@[i]).x == 2 + i && choices@[i].y == 4
                    && picker_piece(Some((2 + i, 4))) is Some && choices@[i].image@
                    == promotion_image_path(picker_piece(Some((2 + i, 4))).unwrap()),
        decreases 6 - x,
    {
        let piece = promotion_choice(Some((x, PICKER_ROW))).unwrap();
        choices.push(Sprite { x, y: PICKER_ROW, image: promotion_image(piece) });
        x += 1;
    }
    choices
}

impl VisualBoard {
    /// The image of the piece on each of the 64 cells, if one stands there.
    fn piece_sprites(&self) -> (pieces: Vec<Option<String>>)
        ensures
            pieces@.len() == 64,
            forall|j: int|
                0 <= j < 64 ==> image_view(#[trigger] pieces@[j]) == sprite_at(
                    self@.position,
                    j % 8,
                    j / 8,
                ),
    {
        let mut pieces: Vec<Option<String>> = Vec::new();
        let mut j: usize = 0;
        while j < 64
            invariant
                j <= 64,
                pieces@.len() == j,
                forall|i: int|
                    0 <= i < j ==> image_view(#[trigger] pieces@[i]) == sprite_at(
                        self@.position,
                        i % 8,
                        i / 8,
                    ),
            decreases 64 - j,
        {
            let square = coord_to_square(j % 8, j / 8);
            let image = match self.game().piece_at(square) {
                Some(piece) => Some(piece_image(self.game().color_at(square), piece)),
                None => None,
            };
            pieces.push(image);
            j += 1;
        }
        pieces
    }

    /// The cells to tint as destinations of the selected piece.
    fn indicated(&self) -> (cells: Vec<(usize, usize)>)
        ensures
            cells_view(cells@) == indicated_cells(self@),
    {
        let mut cells: Vec<(usize, usize)> = Vec::new();
        match self.selected() {
            Some(from) => {
                let squares = self.game().indicated_squares(from);
                let mut k: usize = 0;
                while k < squares.len()
                    invariant
                        k <= squares.len(),
                        cells@.len() == k,
                        forall|i: int|
                            0 <= i < k ==> (#[trigger] cells@[i]).0 == square_file(squares@[i]@)
                                && cells@[i].1 == square_row(squares@[i]@),
                    decreases squares.len() - k,
                {
                    cells.push(index_to_coord(squares[k].index()));
                    k += 1;
                }
                proof {
                    assert(squares_view(squares@).len() == squares@.len());
                    assert(cells_view(cells@) =~= indicated_cells(self@));
                }
            },
            None => {
                proof {
                    assert(cells_view(cells@) =~= indicated_cells(self@));
                }
            },
        }
        cells
    }

    /// The frame that shows this board.
    pub fn draw(&self) -> (model: DrawModel)
        ensures
            shows(model, self@),
    {
        let promotion = match self.state() {
            State::Promoting => {
                let hovered = match promotion_choice(self.hovered_tile()) {
                    Some(_) => self.hovered_tile(),
                    None => None,
                };
                Some(PromotionOverlay { hovered, choices: picker_choices() })
            },
            _ => None,
        };
        DrawModel {
            tiles: checkerboard(),
            indicated: self.indicated(),
            pieces: self.piece_sprites(),
            promotion,
        }
    }
}

} // verus!
