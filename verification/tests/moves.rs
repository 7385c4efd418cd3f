use chessboard::coords::Square;
use chessboard::engine::{promotes, CastleRights, Destination};
use chessboard::moves::{distinct_targets, flagged_destinations, flatten_moves, has_promotion_to};

fn promoting_pawn() -> Vec<(usize, Option<usize>)> {
    // A pawn on a7 that may step to a8 or take on b8, as four moves each.
    vec![
        (56, Some(1)), (56, Some(2)), (56, Some(3)), (56, Some(4)),
        (57, Some(1)), (57, Some(2)), (57, Some(3)), (57, Some(4)),
    ]
}

#[test]
fn groups_are_flattened_in_order() {
    let groups = vec![vec![(20, None), (28, None)], vec![], vec![(19, None)], vec![(28, Some(4))]];
    assert_eq!(
        flatten_moves(&groups),
        vec![(20, None), (28, None), (19, None), (28, Some(4))]
    );
    assert_eq!(flatten_moves(&vec![]), vec![]);
    assert_eq!(flatten_moves(&vec![vec![], vec![]]), vec![]);
    assert_eq!(flatten_moves(&vec![vec![(3, Some(0))]]), vec![(3, Some(0))]);
}

#[test]
fn targets_are_listed_once_in_order_of_first_occurrence() {
    assert_eq!(distinct_targets(&promoting_pawn()), vec![56, 57]);
    assert_eq!(distinct_targets(&vec![(5, None), (3, None), (5, None), (9, None), (3, None)]), vec![5, 3, 9]);
    assert_eq!(distinct_targets(&vec![(7, None)]), vec![7]);
    assert_eq!(distinct_targets(&vec![]), vec![]);
    assert_eq!(distinct_targets(&vec![(200, None), (200, Some(9))]), vec![200]);
}

#[test]
fn a_promotion_is_found_only_at_its_destination() {
    let moves = vec![(20, None), (56, Some(4)), (28, None), (56, None)];
    assert!(has_promotion_to(&moves, 56));
    assert!(!has_promotion_to(&moves, 20));
    assert!(!has_promotion_to(&moves, 28));
    assert!(!has_promotion_to(&moves, 57));
    assert!(!has_promotion_to(&vec![], 0));
    assert!(has_promotion_to(&vec![(0, Some(0))], 0));
}

#[test]
fn destinations_are_flagged_by_their_promotions() {
    assert_eq!(flagged_destinations(&promoting_pawn()), vec![(56, true), (57, true)]);
    assert_eq!(flagged_destinations(&vec![(20, None), (28, None)]), vec![(20, false), (28, false)]);
    assert_eq!(
        flagged_destinations(&vec![(20, None), (56, None), (20, None), (56, Some(2))]),
        vec![(20, false), (56, true)]
    );
    assert_eq!(flagged_destinations(&vec![]), vec![]);
}

#[test]
fn a_promoting_destination_is_looked_up_by_its_square() {
    let square = |index: usize| Square::new(index).unwrap();
    let found = vec![
        Destination { square: square(40), requires_promotion: false },
        Destination { square: square(56), requires_promotion: true },
    ];
    assert!(promotes(&found, square(56)));
    assert!(!promotes(&found, square(40)));
    assert!(!promotes(&found, square(57)));
    assert!(!promotes(&vec![], square(56)));
}

#[test]
fn both_wings_need_both_rooks() {
    assert!(CastleRights { short: Some(7), long: Some(0) }.both());
    assert!(!CastleRights { short: None, long: Some(0) }.both());
    assert!(!CastleRights { short: Some(7), long: None }.both());
    assert!(!CastleRights { short: None, long: None }.both());
}
