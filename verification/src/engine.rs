//! The boundary to the chess rules engine.
//!
//! The rules of chess are not decided here: the position is a `cozy_chess::Board`
//! and every question about it is put to that crate. What the engine answers is
//! not proved. Each answer has a name below, and the functions of [`GameState`]
//! say in terms of those names what they return.

use vstd::prelude::*;
use crate::coords::Square;
use crate::moves::{
    destinations, distinct_targets, flagged_destinations, flatten_moves, groups_view, in_groups,
    leads_to, lemma_destinations_cover_moves, lemma_targets_cover_moves, move_targets, pairs_view,
    promotes_to,
};
use crate::pieces::{Color, GameStatus, Piece};

verus! {

/// `cozy_chess::Board`, a chess position. Nothing of its inside is known here:
/// what the functions below say of a position, they say by the names that
/// follow.
#[verifier::external_type_specification]
#[verifier::external_body]
pub struct ExBoard(cozy_chess::Board);

/// The kind of piece that the engine reports on a square of a position.
pub uninterp spec fn piece_on(board: cozy_chess::Board, square: int) -> Option<Piece>;

/// The side whose piece the engine reports on a square of a position.
pub uninterp spec fn color_on(board: cozy_chess::Board, square: int) -> Option<Color>;

/// The legal moves that the engine generates for the piece on `from`, in the
/// groups and in the order in which it reports them. A move is its destination
/// square and, where the move promotes a pawn, the engine's number for the
/// piece that the pawn becomes.
pub uninterp spec fn move_groups(board: cozy_chess::Board, from: int) -> Seq<
    Seq<(usize, Option<usize>)>,
>;

/// The position that the engine reaches by a move, if it finds the move legal.
pub uninterp spec fn played(
    board: cozy_chess::Board,
    from: int,
    to: int,
    promotion: Option<Piece>,
) -> Option<cozy_chess::Board>;

/// The side that the engine reports as the one to move.
pub uninterp spec fn side_to_move(board: cozy_chess::Board) -> Color;

/// The files of the rooks with which a side may still castle short and long,
/// in that order, as the engine reports them.
pub uninterp spec fn castle_rights(board: cozy_chess::Board, color: Color) -> (
    Option<usize>,
    Option<usize>,
);

/// The status that the engine reports for a position.
pub uninterp spec fn status(board: cozy_chess::Board) -> GameStatus;

/// The kind of piece on a square at the start of a game.
pub open spec fn start_piece(square: int) -> Option<Piece> {
    let rank = square / 8;
    let file = square % 8;
    if rank == 1 || rank == 6 {
        Some(Piece::Pawn)
    } else if rank == 0 || rank == 7 {
        if file == 0 || file == 7 {
            Some(Piece::Rook)
        } else if file == 1 || file == 6 {
            Some(Piece::Knight)
        } else if file == 2 || file == 5 {
            Some(Piece::Bishop)
        } else if file == 3 {
            Some(Piece::Queen)
        } else {
            Some(Piece::King)
        }
    } else {
        None
    }
}

/// The side that owns a square at the start of a game.
pub open spec fn start_color(square: int) -> Option<Color> {
    let rank = square / 8;
    if rank == 0 || rank == 1 {
        Some(Color::White)
    } else if rank == 6 || rank == 7 {
        Some(Color::Black)
    } else {
        None
    }
}

/// Whether a position shows the pieces where a game starts, with White to move.
pub open spec fn is_start_position(board: cozy_chess::Board) -> bool {
    &&& forall|square: int|
        0 <= square < 64 ==> #[trigger] piece_on(board, square) == start_piece(square)
    &&& forall|square: int|
        0 <= square < 64 ==> #[trigger] color_on(board, square) == start_color(square)
    &&& side_to_move(board) == Color::White
}

/// All legal moves of the piece on `from`, group after group.
pub open spec fn moves_from(board: cozy_chess::Board, from: int) -> Seq<(usize, Option<usize>)> {
    move_groups(board, from).flatten()
}

/// The legal destinations of the piece on `from`.
pub open spec fn legal_destinations(board: cozy_chess::Board, from: int) -> Seq<(int, bool)> {
    destinations(moves_from(board, from))
}

/// The squares to mark for the piece on `from`: the destinations of the first
/// group of moves that the engine reports for it, each once.
pub open spec fn indicated_squares(board: cozy_chess::Board, from: int) -> Seq<int> {
    let groups = move_groups(board, from);
    if groups.len() == 0 {
        Seq::empty()
    } else {
        let targets = move_targets(groups[0]);
        Seq::new(targets.len(), |k: int| targets[k] as int)
    }
}

/// Whether the piece on `from` is a pawn that reaches `to` only by promoting.
pub open spec fn requires_promotion(board: cozy_chess::Board, from: int, to: int) -> bool {
    piece_on(board, from) == Some(Piece::Pawn) && legal_destinations(board, from).contains(
        (to, true),
    )
}

/// The position after an attempt to move: the one the move leads to if it is
/// legal, the same position if it is not.
pub open spec fn after_move(
    board: cozy_chess::Board,
    from: int,
    to: int,
    promotion: Option<Piece>,
) -> cozy_chess::Board {
    match played(board, from, to, promotion) {
        Some(next) => next,
        None => board,
    }
}

/// Whether a side may still castle to both wings.
pub open spec fn can_castle_both(board: cozy_chess::Board, color: Color) -> bool {
    castle_rights(board, color).0 is Some && castle_rights(board, color).1 is Some
}

/// `<cozy_chess::Board as Default>::default`. Its documentation gives the
/// position as `rnbqkbnr/pppppppp/8/8/8/8/PPPPPPPP/RNBQKBNR w KQkq - 0 1`; the
/// contract claims that `piece_on`, `color_on` and `side_to_move` report that
/// placement and White to move.
#[verifier::external_body]
fn board_default() -> (board: cozy_chess::Board)
    ensures
        is_start_position(board),
{
    cozy_chess::Board::default()
}

/// `cozy_chess::Board::piece_on`, with the square made by `Square::index`, which
/// panics from 64 on. The contract names the answer.
#[verifier::external_body]
fn board_piece_on(board: &cozy_chess::Board, square: usize) -> (piece: Option<Piece>)
    requires
        square < 64,
    ensures
        piece == piece_on(*board, square as int),
{
    match board.piece_on(cozy_chess::Square::index(square))? {
        cozy_chess::Piece::Pawn => Some(Piece::Pawn),
        cozy_chess::Piece::Knight => Some(Piece::Knight),
        cozy_chess::Piece::Bishop => Some(Piece::Bishop),
        cozy_chess::Piece::Rook => Some(Piece::Rook),
        cozy_chess::Piece::Queen => Some(Piece::Queen),
        cozy_chess::Piece::King => Some(Piece::King),
    }
}

/// `cozy_chess::Board::color_on`. The contract names the answer.
#[verifier::external_body]
fn board_color_on(board: &cozy_chess::Board, square: usize) -> (color: Option<Color>)
    requires
        square < 64,
    ensures
        color == color_on(*board, square as int),
{
    match board.color_on(cozy_chess::Square::index(square))? {
        cozy_chess::Color::White => Some(Color::White),
        cozy_chess::Color::Black => Some(Color::Black),
    }
}

/// `cozy_chess::Board::generate_moves_for`, asked for the one square `from` and
/// never stopped early; each `PieceMoves` that it reports is unpacked into its
/// moves by that type's iterator. The contract names the groups and claims that
/// every destination is one of the 64 squares, which `cozy_chess::Square` being
/// an enum of 64 variants gives.
#[verifier::external_body]
fn board_move_groups(board: &cozy_chess::Board, from: usize) -> (groups: Vec<
    Vec<(usize, Option<usize>)>,
>)
    requires
        from < 64,
    ensures
        groups_view(groups) == move_groups(*board, from as int),
        forall|g: int, i: int|
            0 <= g < groups@.len() && 0 <= i < groups@[g]@.len() ==> (#[trigger] groups@[g]@[i]).0
                < 64,
{
    let mut groups = Vec::new();
    board.generate_moves_for(
        cozy_chess::Square::index(from).bitboard(),
        |group| {
            groups.push(
                group.into_iter().map(|m| (m.to as usize, m.promotion.map(|p| p as usize))).collect(),
            );
            false
        },
    );
    groups
}

/// `cozy_chess::Board::try_play`, which plays the move if it is legal and leaves
/// the board as it was if not. The contract names the position reached and
/// claims that the answer is `true` exactly when the move was played. It
/// claims too that the call does not panic: `try_play` plays only what its own
/// `is_legal` has accepted.
#[verifier::external_body]
fn board_try_play(
    board: &mut cozy_chess::Board,
    from: usize,
    to: usize,
    promotion: Option<Piece>,
) -> (ok: bool)
    requires
        from < 64,
        to < 64,
    ensures
        ok == played(*old(board), from as int, to as int, promotion).is_some(),
        *final(board) == after_move(*old(board), from as int, to as int, promotion),
    no_unwind
{
    let promotion = match promotion {
        None => None,
        Some(Piece::Pawn) => Some(cozy_chess::Piece::Pawn),
        Some(Piece::Knight) => Some(cozy_chess::Piece::Knight),
        Some(Piece::Bishop) => Some(cozy_chess::Piece::Bishop),
        Some(Piece::Rook) => Some(cozy_chess::Piece::Rook),
        Some(Piece::Queen) => Some(cozy_chess::Piece::Queen),
        Some(Piece::King) => Some(cozy_chess::Piece::King),
    };
    let from = cozy_chess::Square::index(from);
    let to = cozy_chess::Square::index(to);
    board.try_play(cozy_chess::Move { from, to, promotion }).is_ok()
}

/// `cozy_chess::Board::side_to_move`. The contract names the answer.
#[verifier::external_body]
fn board_side_to_move(board: &cozy_chess::Board) -> (color: Color)
    ensures
        color == side_to_move(*board),
{
    match board.side_to_move() {
        cozy_chess::Color::White => Color::White,
        cozy_chess::Color::Black => Color::Black,
    }
}

/// `cozy_chess::Board::castle_rights`, its two rook files as numbers, short
/// before long. The contract names the answer.
#[verifier::external_body]
fn board_castle_rights(board: &cozy_chess::Board, color: Color) -> (rights: (
    Option<usize>,
    Option<usize>,
))
    ensures
        rights == castle_rights(*board, color),
{
    let rights = board.castle_rights(
        match color {
            Color::White => cozy_chess::Color::White,
            Color::Black => cozy_chess::Color::Black,
        },
    );
    (rights.short.map(|f| f as usize), rights.long.map(|f| f as usize))
}

/// `cozy_chess::Board::status`. The contract names the answer.
#[verifier::external_body]
fn board_status(board: &cozy_chess::Board) -> (status: GameStatus)
    ensures
        status == self::status(*board),
{
    match board.status() {
        cozy_chess::GameStatus::Won => GameStatus::Won,
        cozy_chess::GameStatus::Drawn => GameStatus::Drawn,
        cozy_chess::GameStatus::Ongoing => GameStatus::Ongoing,
    }
}

/// A square that a piece may legally move to.
#[derive(Clone, Copy, Debug, PartialEq, Eq, Structural)]
pub struct Destination {
    pub square: Square,
    /// Whether the move there needs a choice of promotion piece.
    pub requires_promotion: bool,
}

/// The destinations held in a vector, as pairs of square index and flag.
pub open spec fn destinations_view(destinations: Seq<Destination>) -> Seq<(int, bool)> {
    Seq::new(destinations.len(), |k: int| (destinations[k].square@, destinations[k].requires_promotion))
}

/// The squares held in a vector, as their indices.
pub open spec fn squares_view(squares: Seq<Square>) -> Seq<int> {
    Seq::new(squares.len(), |k: int| squares[k]@)
}

/// The rooks with which a side may still castle, each by its file (0 for the
/// a-file).
#[derive(Clone, Copy, Debug, PartialEq, Eq, Structural)]
pub struct CastleRights {
    pub short: Option<usize>,
    pub long: Option<usize>,
}

impl CastleRights {
    /// Whether castling is still allowed to both wings.
    pub fn both(&self) -> (both: bool)
        ensures
            both == (self.short is Some && self.long is Some),
    {
        self.long.is_some() && self.short.is_some()
    }
}

/// Whether `to` is among the destinations and flagged as a promotion.
pub fn promotes(destinations: &Vec<Destination>, to: Square) -> (found: bool)
    ensures
        found == destinations_view(destinations@).contains((to@, true)),
{
    let ghost all = destinations_view(destinations@);
    let mut k: usize = 0;
    while k < destinations.len()
        invariant
            k <= destinations.len(),
            all == destinations_view(destinations@),
            forall|j: int| 0 <= j < k ==> all[j] != (to@, true),
        decreases destinations.len() - k,
    {
        if destinations[k].requires_promotion && destinations[k].square.index() == to.index() {
            proof {
                assert(all[k as int] == (to@, true));
            }
            return true;
        }
        k += 1;
    }
    false
}

/// A move needs a promotion choice exactly when a pawn stands on `from` and
/// the engine generates for it a move to `to` that promotes.
pub proof fn lemma_requires_promotion_by_moves(board: cozy_chess::Board, from: int, to: int)
    ensures
        requires_promotion(board, from, to) <==> piece_on(board, from) == Some(Piece::Pawn)
            && promotes_to(moves_from(board, from), to),
{
    let moves = moves_from(board, from);
    lemma_destinations_cover_moves(moves);
    assert(destinations(moves).contains((to, true)) <==> leads_to(moves, to) && promotes_to(
        moves,
        to,
    ));
    if promotes_to(moves, to) {
        let i = choose|i: int|
            0 <= i < moves.len() && (#[trigger] moves[i]).0 == to && moves[i].1 is Some;
        assert(moves[i].0 == to);
    }
}

/// The position of a game. It changes only by [`GameState::try_commit`].
pub struct GameState {
    board: cozy_chess::Board,
}

impl View for GameState {
    type V = cozy_chess::Board;

    closed spec fn view(&self) -> cozy_chess::Board {
        self.board
    }
}

impl GameState {
    /// The position at the start of a game.
    pub fn new() -> (game: GameState)
        ensures
            is_start_position(game@),
    {
        GameState { board: board_default() }
    }

    /// The kind of piece on a square, if one stands there.
    pub fn piece_at(&self, square: Square) -> (piece: Option<Piece>)
        ensures
            piece == piece_on(self@, square@),
    {
        board_piece_on(&self.board, square.index())
    }

    /// The side whose piece stands on a square, if one stands there.
    pub fn color_at(&self, square: Square) -> (color: Option<Color>)
        ensures
            color == color_on(self@, square@),
    {
        board_color_on(&self.board, square.index())
    }

    /// The legal destinations of the piece on a square, each once.
    pub fn legal_destinations(&self, square: Square) -> (found: Vec<Destination>)
        ensures
            destinations_view(found@) == legal_destinations(self@, square@),
    {
        let groups = board_move_groups(&self.board, square.index());
        let moves = flatten_moves(&groups);
        let flagged = flagged_destinations(&moves);
        proof {
            lemma_targets_cover_moves(moves@);
            assert forall|k: int| 0 <= k < flagged@.len() implies (#[trigger] flagged@[k]).0
                < 64 by {
                assert(pairs_view(flagged@).len() == flagged@.len());
                assert(destinations(moves@).len() == move_targets(moves@).len());
                let to = move_targets(moves@)[k];
                assert(destinations(moves@)[k].0 == to);
                assert(pairs_view(flagged@)[k].0 == flagged@[k].0);
                assert(move_targets(moves@).contains(to));
                let j = choose|j: int| 0 <= j < moves@.len() && (#[trigger] moves@[j]).0 == to;
                assert(in_groups(groups_view(groups), moves@[j]));
            }
        }
        let mut found: Vec<Destination> = Vec::new();
        let mut k: usize = 0;
        while k < flagged.len()
            invariant
                k <= flagged.len(),
                forall|j: int| 0 <= j < flagged@.len() ==> (#[trigger] flagged@[j]).0 < 64,
                found@.len() == k,
                forall|j: int|
                    0 <= j < k ==> (#[trigger] found@[j]).square@ == flagged@[j].0
                        && found@[j].requires_promotion == flagged@[j].1,
            decreases flagged.len() - k,
        {
            let square = Square::new(flagged[k].0).unwrap();
            found.push(Destination { square, requires_promotion: flagged[k].1 });
            k += 1;
        }
        proof {
            assert(destinations_view(found@) =~= pairs_view(flagged@));
        }
        found
    }

    /// The squares to mark for the piece on a square: the destinations of the
    /// first group of moves that the engine reports for it.
    pub fn indicated_squares(&self, square: Square) -> (found: Vec<Square>)
        ensures
            squares_view(found@) == indicated_squares(self@, square@),
    {
        let groups = board_move_groups(&self.board, square.index());
        let mut found: Vec<Square> = Vec::new();
        if groups.len() == 0 {
            proof {
                assert(squares_view(found@) =~= Seq::<int>::empty());
            }
            return found;
        }
        let targets = distinct_targets(&groups[0]);
        proof {
            lemma_targets_cover_moves(groups@[0]@);
            assert forall|k: int| 0 <= k < targets@.len() implies targets@[k] < 64 by {
                assert(targets@.contains(targets@[k]));
                let i = choose|i: int|
                    0 <= i < groups@[0]@.len() && (#[trigger] groups@[0]@[i]).0 == targets@[k];
                assert(groups@[0]@[i].0 < 64);
            }
        }
        let mut k: usize = 0;
        while k < targets.len()
            invariant
                k <= targets.len(),
                forall|j: int| 0 <= j < targets@.len() ==> targets@[j] < 64,
                found@.len() == k,
                forall|j: int| 0 <= j < k ==> (#[trigger] found@[j])@ == targets@[j],
            decreases targets.len() - k,
        {
            found.push(Square::new(targets[k]).unwrap());
            k += 1;
        }
        proof {
            assert(squares_view(found@) =~= indicated_squares(self@, square@));
        }
        found
    }

    /// Whether the piece on `from` is a pawn that reaches `to` only by promoting.
    pub fn requires_promotion(&self, from: Square, to: Square) -> (required: bool)
        ensures
            required == requires_promotion(self@, from@, to@),
    {
        match self.piece_at(from) {
            Some(Piece::Pawn) => promotes(&self.legal_destinations(from), to),
            _ => false,
        }
    }

    /// Tries to play a move, with the promotion piece where the move needs one.
    /// A legal move is played and `true` returned; an illegal one changes
    /// nothing and `false` is returned.
    pub fn try_commit(&mut self, from: Square, to: Square, promotion: Option<Piece>) -> (ok: bool)
        ensures
            ok == played(old(self)@, from@, to@, promotion).is_some(),
            final(self)@ == after_move(old(self)@, from@, to@, promotion),
            !ok ==> final(self)@ == old(self)@,
        no_unwind
    {
        board_try_play(&mut self.board, from.index(), to.index(), promotion)
    }

    /// The side to move.
    pub fn side_to_move(&self) -> (color: Color)
        ensures
            color == side_to_move(self@),
    {
        board_side_to_move(&self.board)
    }

    /// The castling rights of a side.
    pub fn castle_rights(&self, color: Color) -> (rights: CastleRights)
        ensures
            (rights.short, rights.long) == castle_rights(self@, color),
    {
        let rights = board_castle_rights(&self.board, color);
        CastleRights { short: rights.0, long: rights.1 }
    }

    /// Whether the game goes on, and how it ended if not.
    pub fn status(&self) -> (status: GameStatus)
        ensures
            status == self::status(self@),
    {
        board_status(&self.board)
    }
}

} // verus!
