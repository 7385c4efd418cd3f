//! The state machine that turns pointer input into moves.
//!
//! A click either selects a square, tries a move from the selected square to
//! the clicked one, or, where that move would promote a pawn, opens the
//! promotion picker. While the picker is open the pointer is tracked, and a
//! click on one of its four cells plays the move with the piece chosen.

use vstd::prelude::*;
use crate::coords::{
    canvas_coord_to_square_coord, cell_at, cell_view, lemma_pixel_round_trip, square_at,
    square_from_point, square_view, Point, Square,
};
use crate::engine::{
    after_move, can_castle_both, is_start_position, played, requires_promotion, side_to_move,
    status, GameState,
};
use crate::pieces::{Color, GameStatus, Piece};

verus! {

/// What the board is waiting for.
#[derive(Clone, Copy, Debug, PartialEq, Eq, Structural)]
pub enum State {
    /// Clicks select squares and try moves.
    Playing,
    /// Input is ignored.
    Waiting,
    /// The promotion picker is open.
    Promoting,
}

/// What the pointer did, as the board needs to know it.
#[derive(Clone, Copy, Debug, PartialEq, Eq, Structural)]
pub enum Message {
    /// The left button was pressed at a point.
    Clicked(Point),
    /// The pointer moved to a point.
    CursorMoved(Point),
}

/// An event of the canvas, reduced to what matters here.
#[derive(Clone, Copy, Debug, PartialEq, Eq, Structural)]
pub enum PointerEvent {
    /// The left button was pressed.
    LeftPressed,
    /// The pointer moved to a point.
    CursorMoved(Point),
    /// Anything else.
    Other,
}

/// The width in pixels of a tile of a board made by [`VisualBoard::default`].
pub const DEFAULT_TILE_SIZE: u32 = 64;

/// The grid row of the promotion picker.
pub const PICKER_ROW: usize = 4;

/// The board as the user sees and drives it.
pub struct VisualBoard {
    tile_size: u32,
    game: GameState,
    selected: Option<Square>,
    promotion_square: Option<Square>,
    state: State,
    hovered_tile: Option<(usize, usize)>,
}

/// The mathematical picture of a [`VisualBoard`].
pub struct BoardModel {
    /// Width of a tile in pixels.
    pub tile_size: int,
    /// The position, as the engine holds it.
    pub position: cozy_chess::Board,
    /// The square whose piece the user is about to move.
    pub selected: Option<int>,
    /// The destination that waits for a choice of promotion piece.
    pub promotion_square: Option<int>,
    pub state: State,
    /// The grid cell under the pointer, as last tracked.
    pub hovered_tile: Option<(int, int)>,
}

impl BoardModel {
    /// Squares are among the 64, and an open picker has a move to finish.
    pub open spec fn wf(self) -> bool {
        &&& self.selected matches Some(s) ==> 0 <= s < 64
        &&& self.promotion_square matches Some(t) ==> 0 <= t < 64
        &&& self.state == State::Promoting ==> self.selected is Some && self.promotion_square
            is Some
    }
}

/// The piece offered by a cell of the promotion picker: row 4 offers, in files
/// 2 to 5, rook, knight, bishop and queen.
pub open spec fn picker_piece(cell: Option<(int, int)>) -> Option<Piece> {
    match cell {
        Some((file, row)) => if row != 4 {
            None
        } else if file == 2 {
            Some(Piece::Rook)
        } else if file == 3 {
            Some(Piece::Knight)
        } else if file == 4 {
            Some(Piece::Bishop)
        } else if file == 5 {
            Some(Piece::Queen)
        } else {
            None
        },
        None => None,
    }
}

/// The board after a click at `point`.
pub open spec fn click(m: BoardModel, point: Point) -> BoardModel {
    let target = square_at(point.x as int, point.y as int, m.tile_size);
    match m.state {
        State::Playing => match (m.selected, target) {
            (Some(from), Some(to)) => if requires_promotion(m.position, from, to) {
                BoardModel { promotion_square: Some(to), state: State::Promoting, ..m }
            } else {
                BoardModel {
                    position: after_move(m.position, from, to, None),
                    selected: target,
                    ..m
                }
            },
            _ => BoardModel { selected: target, ..m },
        },
        State::Waiting => m,
        State::Promoting => match picker_piece(m.hovered_tile) {
            Some(piece) => BoardModel {
                position: after_move(
                    m.position,
                    m.selected.unwrap(),
                    m.promotion_square.unwrap(),
                    Some(piece),
                ),
                selected: target,
                promotion_square: None,
                state: State::Playing,
                ..m
            },
            None => m,
        },
    }
}

/// The board after the pointer moved to `point`: the cell under it is tracked
/// while the picker is open, and nothing changes otherwise.
pub open spec fn hover(m: BoardModel, point: Point) -> BoardModel {
    if m.state == State::Promoting {
        BoardModel { hovered_tile: cell_at(point.x as int, point.y as int, m.tile_size), ..m }
    } else {
        m
    }
}

/// The board after a message.
pub open spec fn step(m: BoardModel, message: Message) -> BoardModel {
    match message {
        Message::Clicked(point) => click(m, point),
        Message::CursorMoved(point) => hover(m, point),
    }
}

/// The message that an event of the canvas gives rise to. `cursor` is where the
/// pointer is on the canvas, if it is on it. Pointer motion counts only while
/// the picker is open.
pub open spec fn message_for(state: State, event: PointerEvent, cursor: Option<Point>) -> Option<
    Message,
> {
    match (cursor, event) {
        (Some(position), PointerEvent::LeftPressed) => Some(Message::Clicked(position)),
        (Some(_), PointerEvent::CursorMoved(position)) => if state == State::Promoting {
            Some(Message::CursorMoved(position))
        } else {
            None
        },
        _ => None,
    }
}

/// The piece offered by a cell of the promotion picker, if the cell is one of
/// its four.
pub fn promotion_choice(cell: Option<(usize, usize)>) -> (piece: Option<Piece>)
    ensures
        piece == picker_piece(cell_view(cell)),
{
    match cell {
        Some((x, y)) => {
            if y != PICKER_ROW {
                None
            } else if x == 2 {
                Some(Piece::Rook)
            } else if x == 3 {
                Some(Piece::Knight)
            } else if x == 4 {
                Some(Piece::Bishop)
            } else if x == 5 {
                Some(Piece::Queen)
            } else {
                None
            }
        },
        None => None,
    }
}

/// What a click asks for, before the engine has been heard.
#[derive(Clone, Copy, Debug, PartialEq, Eq, Structural)]
pub enum Intent {
    /// Nothing.
    Ignore,
    /// The square under the click, if any, becomes the selection.
    Select,
    /// A move: where it promotes, the picker opens; else the move is tried and
    /// the clicked square becomes the selection.
    Move { from: Square, to: Square },
    /// The pending promotion is tried with the piece chosen, the picker closes
    /// and the square under the click, if any, becomes the selection.
    Promote { from: Square, to: Square, piece: Piece },
}

/// What a click asks for on a board in the given state, `target` being the
/// square under the click.
pub fn click_intent(
    state: State,
    selected: Option<Square>,
    promotion_square: Option<Square>,
    hovered_tile: Option<(usize, usize)>,
    target: Option<Square>,
) -> (intent: Intent)
    ensures
        intent == match state {
            State::Playing => match (selected, target) {
                (Some(from), Some(to)) => Intent::Move { from, to },
                _ => Intent::Select,
            },
            State::Waiting => Intent::Ignore,
            State::Promoting => match (
                picker_piece(cell_view(hovered_tile)),
                selected,
                promotion_square,
            ) {
                (Some(piece), Some(from), Some(to)) => Intent::Promote { from, to, piece },
                _ => Intent::Ignore,
            },
        },
{
    match state {
        State::Playing => match (selected, target) {
            (Some(from), Some(to)) => Intent::Move { from, to },
            _ => Intent::Select,
        },
        State::Waiting => Intent::Ignore,
        State::Promoting => match (promotion_choice(hovered_tile), selected, promotion_square) {
            (Some(piece), Some(from), Some(to)) => Intent::Promote { from, to, piece },
            _ => Intent::Ignore,
        },
    }
}

impl View for VisualBoard {
    type V = BoardModel;

    closed spec fn view(&self) -> BoardModel {
        BoardModel {
            tile_size: self.tile_size as int,
            position: self.game@,
            selected: square_view(self.selected),
            promotion_square: square_view(self.promotion_square),
            state: self.state,
            hovered_tile: cell_view(self.hovered_tile),
        }
    }
}

impl VisualBoard {
    #[verifier::type_invariant]
    spec fn well_formed(&self) -> bool {
        self@.wf()
    }

    /// Takes a message in. The board afterwards is the one that [`step`]
    /// describes.
    pub fn update(&mut self, message: Message)
        ensures
            final(self)@ == step(old(self)@, message),
            final(self)@.wf(),
    {
        proof {
            use_type_invariant(&*self);
        }
        match message {
            Message::Clicked(point) => {
                let target = square_from_point(point, self.tile_size);
                proof {
                    if target is Some {
                        lemma_pixel_round_trip(
                            point.x as int,
                            point.y as int,
                            self.tile_size as int,
                        );
                    }
                }
                match click_intent(
                    self.state,
                    self.selected,
                    self.promotion_square,
                    self.hovered_tile,
                    target,
                ) {
                    Intent::Ignore => {},
                    Intent::Select => {
                        self.selected = target;
                    },
                    Intent::Move { from, to } => {
                        if self.game.requires_promotion(from, to) {
                            self.promotion_square = Some(to);
                            self.state = State::Promoting;
                        } else {
                            self.game.try_commit(from, to, None);
                            self.selected = target;
                        }
                    },
                    Intent::Promote { from, to, piece } => {
                        self.game.try_commit(from, to, Some(piece));
                        self.state = State::Playing;
                        self.selected = target;
                        self.promotion_square = None;
                    },
                }
            },
            Message::CursorMoved(point) => {
                match self.state {
                    State::Promoting => {
                        self.hovered_tile = canvas_coord_to_square_coord(point, self.tile_size);
                    },
                    _ => {},
                }
            },
        }
    }

    /// The message, if any, that an event of the canvas gives rise to.
    pub fn on_event(&self, event: PointerEvent, cursor: Option<Point>) -> (message: Option<Message>)
        ensures
            message == message_for(self@.state, event, cursor),
    {
        match (cursor, event) {
            (Some(position), PointerEvent::LeftPressed) => Some(Message::Clicked(position)),
            (Some(_), PointerEvent::CursorMoved(position)) => {
                match self.state {
                    State::Promoting => Some(Message::CursorMoved(position)),
                    _ => None,
                }
            },
            _ => None,
        }
    }
}

/// What the side panel says about the game.
#[derive(Clone, Copy, Debug, PartialEq, Eq, Structural)]
pub struct Summary {
    pub selected: Option<Square>,
    pub status: GameStatus,
    pub to_play: Color,
    /// Whether White may still castle to both wings.
    pub white_can_castle: bool,
    /// Whether Black may still castle to both wings.
    pub black_can_castle: bool,
    pub state: State,
}

impl VisualBoard {
    /// The facts for the side panel.
    pub fn summary(&self) -> (summary: Summary)
        ensures
            square_view(summary.selected) == self@.selected,
            summary.status == status(self@.position),
            summary.to_play == side_to_move(self@.position),
            summary.white_can_castle == can_castle_both(self@.position, Color::White),
            summary.black_can_castle == can_castle_both(self@.position, Color::Black),
            summary.state == self@.state,
    {
        let white = self.game.castle_rights(Color::White);
        let black = self.game.castle_rights(Color::Black);
        Summary {
            selected: self.selected,
            status: self.game.status(),
            to_play: self.game.side_to_move(),
            white_can_castle: white.both(),
            black_can_castle: black.both(),
            state: self.state,
        }
    }

    /// Width of a tile in pixels.
    pub fn tile_size(&self) -> (tile_size: u32)
        ensures
            tile_size == self@.tile_size,
    {
        self.tile_size
    }

    /// The position.
    pub fn game(&self) -> (game: &GameState)
        ensures
            game@ == self@.position,
    {
        &self.game
    }

    /// The square whose piece the user is about to move.
    pub fn selected(&self) -> (square: Option<Square>)
        ensures
            square_view(square) == self@.selected,
    {
        self.selected
    }

    /// The destination that waits for a choice of promotion piece.
    pub fn promotion_square(&self) -> (square: Option<Square>)
        ensures
            square_view(square) == self@.promotion_square,
    {
        self.promotion_square
    }

    /// What the board is waiting for.
    pub fn state(&self) -> (state: State)
        ensures
            state == self@.state,
    {
        self.state
    }

    /// The grid cell under the pointer, as last tracked.
    pub fn hovered_tile(&self) -> (cell: Option<(usize, usize)>)
        ensures
            cell_view(cell) == self@.hovered_tile,
    {
        self.hovered_tile
    }
}

impl Default for VisualBoard {
    /// A board at the start of a game: tiles of 64 pixels, nothing selected,
    /// ready to play.
    fn default() -> (board: VisualBoard)
        ensures
            board@.tile_size == DEFAULT_TILE_SIZE,
            is_start_position(board@.position),
            board@.selected is None,
            board@.promotion_square is None,
            board@.state == State::Playing,
            board@.hovered_tile is None,
            board@.wf(),
    {
        VisualBoard {
            tile_size: DEFAULT_TILE_SIZE,
            game: GameState::new(),
            selected: None,
            promotion_square: None,
            state: State::Playing,
            hovered_tile: None,
        }
    }
}

/// Every message leaves a well-formed board well-formed.
pub proof fn lemma_step_keeps_wf(m: BoardModel, message: Message)
    requires
        m.wf(),
    ensures
        step(m, message).wf(),
{
    match message {
        Message::Clicked(point) => {
            if square_at(point.x as int, point.y as int, m.tile_size) is Some {
                lemma_pixel_round_trip(point.x as int, point.y as int, m.tile_size);
            }
        },
        Message::CursorMoved(_) => {},
    }
}

/// A waiting board ignores every message.
pub proof fn lemma_waiting_ignores(m: BoardModel, message: Message)
    requires
        m.state == State::Waiting,
    ensures
        step(m, message) == m,
{
}

/// Pointer motion changes nothing unless the picker is open.
pub proof fn lemma_motion_ignored_unless_promoting(m: BoardModel, point: Point)
    requires
        m.state != State::Promoting,
    ensures
        step(m, Message::CursorMoved(point)) == m,
{
}

/// With a pawn selected, a click on a square that the pawn reaches only by
/// promoting opens the picker for that square. The position and the selection
/// stay as they were.
pub proof fn lemma_promotion_opens_picker(m: BoardModel, point: Point)
    requires
        m.state == State::Playing,
        m.selected is Some,
        square_at(point.x as int, point.y as int, m.tile_size) is Some,
        requires_promotion(
            m.position,
            m.selected.unwrap(),
            square_at(point.x as int, point.y as int, m.tile_size).unwrap(),
        ),
    ensures
        step(m, Message::Clicked(point)) == (BoardModel {
            promotion_square: square_at(point.x as int, point.y as int, m.tile_size),
            state: State::Promoting,
            ..m
        }),
{
}

/// With nothing selected, a click on a pawn and then a click on a square that
/// the pawn reaches only by promoting selects the pawn and opens the picker
/// for that square, and the position stays as it was.
pub proof fn lemma_pawn_then_advance(m: BoardModel, pawn: Point, advance: Point)
    requires
        m.state == State::Playing,
        m.selected is None,
        square_at(pawn.x as int, pawn.y as int, m.tile_size) is Some,
        square_at(advance.x as int, advance.y as int, m.tile_size) is Some,
        requires_promotion(
            m.position,
            square_at(pawn.x as int, pawn.y as int, m.tile_size).unwrap(),
            square_at(advance.x as int, advance.y as int, m.tile_size).unwrap(),
        ),
    ensures
        step(step(m, Message::Clicked(pawn)), Message::Clicked(advance)) == (BoardModel {
            selected: square_at(pawn.x as int, pawn.y as int, m.tile_size),
            promotion_square: square_at(advance.x as int, advance.y as int, m.tile_size),
            state: State::Promoting,
            ..m
        }),
{
}

/// The picker offers rook, knight, bishop and queen in files 2 to 5 of row 4,
/// and nothing anywhere else.
pub proof fn lemma_picker_cells()
    ensures
        picker_piece(Some((2, 4))) == Some(Piece::Rook),
        picker_piece(Some((3, 4))) == Some(Piece::Knight),
        picker_piece(Some((4, 4))) == Some(Piece::Bishop),
        picker_piece(Some((5, 4))) == Some(Piece::Queen),
        picker_piece(None) is None,
        forall|file: int, row: int|
            #[trigger] picker_piece(Some((file, row))) is Some <==> row == 4 && 2 <= file <= 5,
{
}

/// While the picker is open, moving the pointer onto one of its cells and then
/// clicking tries the pending move with the piece of that cell, closes the
/// picker and selects the square under the click.
pub proof fn lemma_promotion_resolved(m: BoardModel, over: Point, press: Point)
    requires
        m.wf(),
        m.state == State::Promoting,
        picker_piece(cell_at(over.x as int, over.y as int, m.tile_size)) is Some,
    ensures
        step(step(m, Message::CursorMoved(over)), Message::Clicked(press)) == (BoardModel {
            position: after_move(
                m.position,
                m.selected.unwrap(),
                m.promotion_square.unwrap(),
                picker_piece(cell_at(over.x as int, over.y as int, m.tile_size)),
            ),
            selected: square_at(press.x as int, press.y as int, m.tile_size),
            promotion_square: None,
            state: State::Playing,
            hovered_tile: cell_at(over.x as int, over.y as int, m.tile_size),
            ..m
        }),
{
}

/// While the picker is open, a click with the pointer tracked off its cells
/// changes nothing.
pub proof fn lemma_click_off_picker_ignored(m: BoardModel, point: Point)
    requires
        m.state == State::Promoting,
        picker_piece(m.hovered_tile) is None,
    ensures
        step(m, Message::Clicked(point)) == m,
{
}

/// A click that asks for a move which the engine does not play leaves the
/// position as it was. Unless the click opened the picker, it changes the
/// selection to the clicked square and nothing else.
pub proof fn lemma_illegal_move_only_selects(m: BoardModel, point: Point)
    requires
        m.state == State::Playing,
        m.selected is Some,
        square_at(point.x as int, point.y as int, m.tile_size) is Some,
        played(
            m.position,
            m.selected.unwrap(),
            square_at(point.x as int, point.y as int, m.tile_size).unwrap(),
            None,
        ) is None,
    ensures
        step(m, Message::Clicked(point)).position == m.position,
        !requires_promotion(
            m.position,
            m.selected.unwrap(),
            square_at(point.x as int, point.y as int, m.tile_size).unwrap(),
        ) ==> step(m, Message::Clicked(point)) == (BoardModel {
            selected: square_at(point.x as int, point.y as int, m.tile_size),
            ..m
        }),
{
}

/// A click that lands off the board, or that finds nothing selected, tries no
/// move: it sets the selection to what is under the click and nothing else.
pub proof fn lemma_click_without_move(m: BoardModel, point: Point)
    requires
        m.state == State::Playing,
        m.selected is None || square_at(point.x as int, point.y as int, m.tile_size) is None,
    ensures
        step(m, Message::Clicked(point)) == (BoardModel {
            selected: square_at(point.x as int, point.y as int, m.tile_size),
            ..m
        }),
{
}

/// Moving the pointer to the same point again changes nothing more, and the
/// first motion changes at most the tracked cell, which while the picker is open
/// becomes the cell under the point.
pub proof fn lemma_hover_idempotent(m: BoardModel, point: Point)
    ensures
        step(step(m, Message::CursorMoved(point)), Message::CursorMoved(point)) == step(
            m,
            Message::CursorMoved(point),
        ),
        step(m, Message::CursorMoved(point)) == (BoardModel {
            hovered_tile: step(m, Message::CursorMoved(point)).hovered_tile,
            ..m
        }),
        m.state == State::Promoting ==> step(m, Message::CursorMoved(point)).hovered_tile
            == cell_at(point.x as int, point.y as int, m.tile_size),
{
}

} // verus!
