use chessboard::coords::Square;
use chessboard::engine::{CastleRights, Destination, GameState};
use chessboard::pieces::{Color, GameStatus, Piece};

fn sq(name: &str) -> Square {
    let bytes = name.as_bytes();
    let file = (bytes[0] - b'a') as usize;
    let rank = (bytes[1] - b'1') as usize;
    Square::new(rank * 8 + file).unwrap()
}

fn play(game: &mut GameState, moves: &[(&str, &str)]) {
    for (from, to) in moves {
        assert!(game.try_commit(sq(from), sq(to), None), "{from}{to} should be legal");
    }
}

fn placement(game: &GameState) -> Vec<(Option<Color>, Option<Piece>)> {
    (0..64).map(|i| {
        let square = Square::new(i).unwrap();
        (game.color_at(square), game.piece_at(square))
    }).collect()
}

fn plain(squares: &[&str]) -> Vec<Destination> {
    squares.iter().map(|name| Destination { square: sq(name), requires_promotion: false }).collect()
}

const TO_THE_SEVENTH: [(&str, &str); 8] = [
    ("a2", "a4"), ("b7", "b5"), ("a4", "b5"), ("a7", "a6"),
    ("b5", "a6"), ("b8", "c6"), ("a6", "a7"), ("a8", "b8"),
];

#[test]
fn a_new_game_shows_the_start_position() {
    let game = GameState::new();
    let back = [
        Piece::Rook, Piece::Knight, Piece::Bishop, Piece::Queen,
        Piece::King, Piece::Bishop, Piece::Knight, Piece::Rook,
    ];
    for file in 0..8usize {
        let at = |rank: usize| Square::new(rank * 8 + file).unwrap();
        assert_eq!(game.piece_at(at(0)), Some(back[file]));
        assert_eq!(game.color_at(at(0)), Some(Color::White));
        assert_eq!(game.piece_at(at(1)), Some(Piece::Pawn));
        assert_eq!(game.color_at(at(1)), Some(Color::White));
        for rank in 2..6 {
            assert_eq!(game.piece_at(at(rank)), None);
            assert_eq!(game.color_at(at(rank)), None);
        }
        assert_eq!(game.piece_at(at(6)), Some(Piece::Pawn));
        assert_eq!(game.color_at(at(6)), Some(Color::Black));
        assert_eq!(game.piece_at(at(7)), Some(back[file]));
        assert_eq!(game.color_at(at(7)), Some(Color::Black));
    }
    assert_eq!(game.side_to_move(), Color::White);
    assert_eq!(game.status(), GameStatus::Ongoing);
}

#[test]
fn a_new_game_allows_castling_to_both_wings() {
    let game = GameState::new();
    let both = CastleRights { short: Some(7), long: Some(0) };
    assert_eq!(game.castle_rights(Color::White), both);
    assert_eq!(game.castle_rights(Color::Black), both);
}

#[test]
fn a_king_move_gives_up_castling() {
    let mut game = GameState::new();
    play(&mut game, &[("e2", "e4"), ("e7", "e5"), ("e1", "e2")]);
    assert_eq!(game.castle_rights(Color::White), CastleRights { short: None, long: None });
    assert_eq!(game.castle_rights(Color::Black), CastleRights { short: Some(7), long: Some(0) });
}

#[test]
fn a_rook_move_gives_up_one_wing() {
    let mut game = GameState::new();
    play(&mut game, &[("h2", "h4"), ("a7", "a5"), ("h1", "h3")]);
    assert_eq!(game.castle_rights(Color::White), CastleRights { short: None, long: Some(0) });
}

#[test]
fn a_legal_move_is_played() {
    let mut game = GameState::new();
    assert!(game.try_commit(sq("e2"), sq("e4"), None));
    assert_eq!(game.piece_at(sq("e2")), None);
    assert_eq!(game.color_at(sq("e2")), None);
    assert_eq!(game.piece_at(sq("e4")), Some(Piece::Pawn));
    assert_eq!(game.color_at(sq("e4")), Some(Color::White));
    assert_eq!(game.side_to_move(), Color::Black);
}

#[test]
fn an_illegal_move_changes_nothing() {
    let mut game = GameState::new();
    let before = placement(&game);
    assert!(!game.try_commit(sq("e2"), sq("e5"), None));
    assert!(!game.try_commit(sq("e7"), sq("e5"), None));
    assert!(!game.try_commit(sq("e4"), sq("e5"), None));
    assert!(!game.try_commit(sq("e2"), sq("e2"), None));
    assert!(!game.try_commit(sq("a1"), sq("h8"), None));
    assert!(!game.try_commit(sq("e2"), sq("e4"), Some(Piece::Queen)));
    assert_eq!(placement(&game), before);
    assert_eq!(game.side_to_move(), Color::White);
}

#[test]
fn destinations_of_a_pawn_at_the_start() {
    let game = GameState::new();
    assert_eq!(game.legal_destinations(sq("e2")), plain(&["e3", "e4"]));
    assert_eq!(game.indicated_squares(sq("e2")), vec![sq("e3"), sq("e4")]);
}

#[test]
fn destinations_of_a_knight_at_the_start() {
    let game = GameState::new();
    assert_eq!(game.legal_destinations(sq("b1")), plain(&["a3", "c3"]));
    assert_eq!(game.indicated_squares(sq("b1")), vec![sq("a3"), sq("c3")]);
}

#[test]
fn no_destinations_without_a_move() {
    let game = GameState::new();
    // A blocked piece, an empty square, a piece of the side that is not to move.
    for name in ["e1", "a1", "e4", "e7", "g8"] {
        assert_eq!(game.legal_destinations(sq(name)), vec![]);
        assert_eq!(game.indicated_squares(sq(name)), vec![]);
    }
}

#[test]
fn promoting_destinations_are_flagged_once() {
    let mut game = GameState::new();
    play(&mut game, &TO_THE_SEVENTH);
    let found = game.legal_destinations(sq("a7"));
    assert_eq!(
        found,
        vec![
            Destination { square: sq("a8"), requires_promotion: true },
            Destination { square: sq("b8"), requires_promotion: true },
        ]
    );
    assert_eq!(game.indicated_squares(sq("a7")), vec![sq("a8"), sq("b8")]);
}

#[test]
fn promotion_is_required_only_for_the_pawn_on_the_seventh() {
    let mut game = GameState::new();
    assert!(!game.requires_promotion(sq("e2"), sq("e4")));
    assert!(!game.requires_promotion(sq("e2"), sq("e8")));
    play(&mut game, &TO_THE_SEVENTH);
    assert!(game.requires_promotion(sq("a7"), sq("a8")));
    assert!(game.requires_promotion(sq("a7"), sq("b8")));
    assert!(!game.requires_promotion(sq("a7"), sq("c8")));
    assert!(!game.requires_promotion(sq("b2"), sq("b3")));
    assert!(!game.requires_promotion(sq("a1"), sq("a6")));
    assert!(!game.requires_promotion(sq("e4"), sq("e5")));
}

#[test]
fn a_promotion_needs_its_piece() {
    let mut game = GameState::new();
    play(&mut game, &TO_THE_SEVENTH);
    let before = placement(&game);
    assert!(!game.try_commit(sq("a7"), sq("a8"), None));
    assert!(!game.try_commit(sq("a7"), sq("a8"), Some(Piece::King)));
    assert!(!game.try_commit(sq("a7"), sq("a8"), Some(Piece::Pawn)));
    assert_eq!(placement(&game), before);
}

#[test]
fn a_promotion_puts_the_chosen_piece_on_the_board() {
    for piece in [Piece::Knight, Piece::Bishop, Piece::Rook, Piece::Queen] {
        let mut game = GameState::new();
        play(&mut game, &TO_THE_SEVENTH);
        assert!(game.try_commit(sq("a7"), sq("a8"), Some(piece)));
        assert_eq!(game.piece_at(sq("a8")), Some(piece));
        assert_eq!(game.color_at(sq("a8")), Some(Color::White));
        assert_eq!(game.piece_at(sq("a7")), None);
        assert_eq!(game.side_to_move(), Color::Black);
    }
}

#[test]
fn only_the_first_group_of_moves_is_indicated() {
    let mut game = GameState::new();
    play(&mut game, &[("e2", "e4"), ("a7", "a6"), ("e4", "e5"), ("d7", "d5")]);
    // The pawn on e5 may advance or take the pawn on d5 in passing; the engine
    // reports the capture in a group of its own, after the advance.
    assert_eq!(game.legal_destinations(sq("e5")), plain(&["e6", "d6"]));
    assert_eq!(game.indicated_squares(sq("e5")), vec![sq("e6")]);
    assert!(game.try_commit(sq("e5"), sq("d6"), None));
    assert_eq!(game.piece_at(sq("d5")), None);
    assert_eq!(game.piece_at(sq("d6")), Some(Piece::Pawn));
}

#[test]
fn castling_is_a_move_of_the_king_onto_its_rook() {
    let mut game = GameState::new();
    play(&mut game, &[("e2", "e4"), ("e7", "e5"), ("g1", "f3"), ("b8", "c6"), ("f1", "c4"), ("f8", "c5")]);
    assert_eq!(game.legal_destinations(sq("e1")), plain(&["f1", "h1", "e2"]));
    assert!(game.try_commit(sq("e1"), sq("h1"), None));
    assert_eq!(game.piece_at(sq("g1")), Some(Piece::King));
    assert_eq!(game.piece_at(sq("f1")), Some(Piece::Rook));
    assert_eq!(game.piece_at(sq("e1")), None);
    assert_eq!(game.piece_at(sq("h1")), None);
}

#[test]
fn checkmate_is_a_win() {
    let mut game = GameState::new();
    play(&mut game, &[("f2", "f3"), ("e7", "e5"), ("g2", "g4")]);
    assert_eq!(game.status(), GameStatus::Ongoing);
    play(&mut game, &[("d8", "h4")]);
    assert_eq!(game.status(), GameStatus::Won);
    assert_eq!(game.side_to_move(), Color::White);
}

#[test]
fn stalemate_is_a_draw() {
    let mut game = GameState::new();
    play(&mut game, &[
        ("c2", "c4"), ("h7", "h5"), ("h2", "h4"), ("a7", "a5"), ("d1", "a4"),
        ("a8", "a6"), ("a4", "a5"), ("a6", "h6"), ("a5", "c7"), ("f7", "f6"),
        ("c7", "d7"), ("e8", "f7"), ("d7", "b7"), ("d8", "d3"), ("b7", "b8"),
        ("d3", "h7"), ("b8", "c8"), ("f7", "g6"), ("c8", "e6"),
    ]);
    assert_eq!(game.status(), GameStatus::Drawn);
}
