//! Legal moves as the engine hands them out, and the squares they lead to.
//!
//! The engine reports the moves of a piece in groups. A move is held as its
//! destination, the index of a square, and, where the move promotes a pawn, the
//! engine's number for the piece that the pawn becomes. Nothing here asks the
//! engine anything: these functions work on what it has handed out.

use vstd::prelude::*;

verus! {

/// The groups of moves that the engine handed out, each as a sequence.
pub open spec fn groups_view(groups: Vec<Vec<(usize, Option<usize>)>>) -> Seq<
    Seq<(usize, Option<usize>)>,
> {
    Seq::new(groups@.len(), |g: int| groups@[g]@)
}

/// Whether a move stands in one of the groups.
pub open spec fn in_groups(
    groups: Seq<Seq<(usize, Option<usize>)>>,
    m: (usize, Option<usize>),
) -> bool {
    exists|g: int, i: int| 0 <= g < groups.len() && 0 <= i < groups[g].len() && #[trigger] groups[g][i] == m
}

/// The squares that the given moves lead to, each once, in the order in which
/// they first occur.
pub open spec fn move_targets(moves: Seq<(usize, Option<usize>)>) -> Seq<usize> {
    moves.map_values(|m: (usize, Option<usize>)| m.0).remove_duplicates(Seq::empty())
}

/// Whether one of the given moves leads to `to`.
pub open spec fn leads_to(moves: Seq<(usize, Option<usize>)>, to: int) -> bool {
    exists|i: int| 0 <= i < moves.len() && (#[trigger] moves[i]).0 == to
}

/// Whether one of the given moves leads to `to` and promotes.
pub open spec fn promotes_to(moves: Seq<(usize, Option<usize>)>, to: int) -> bool {
    exists|i: int| 0 <= i < moves.len() && (#[trigger] moves[i]).0 == to && moves[i].1 is Some
}

/// The destinations of the given moves: each square that a move leads to, once,
/// with the flag that says whether a move to it promotes.
pub open spec fn destinations(moves: Seq<(usize, Option<usize>)>) -> Seq<(int, bool)> {
    let targets = move_targets(moves);
    Seq::new(targets.len(), |k: int| (targets[k] as int, promotes_to(moves, targets[k] as int)))
}

/// Flagged squares held in machine integers, as pairs of index and flag.
pub open spec fn pairs_view(pairs: Seq<(usize, bool)>) -> Seq<(int, bool)> {
    Seq::new(pairs.len(), |k: int| (pairs[k].0 as int, pairs[k].1))
}

/// The moves of all groups in one vector, group after group.
pub fn flatten_moves(groups: &Vec<Vec<(usize, Option<usize>)>>) -> (moves: Vec<
    (usize, Option<usize>),
>)
    ensures
        moves@ == groups_view(*groups).flatten(),
        forall|j: int| 0 <= j < moves@.len() ==> in_groups(groups_view(*groups), #[trigger] moves@[j]),
{
    let ghost all = groups_view(*groups);
    let mut moves: Vec<(usize, Option<usize>)> = Vec::new();
    let mut g: usize = 0;
    proof {
        assert(all.take(0) =~= Seq::empty());
    }
    while g < groups.len()
        invariant
            g <= groups.len(),
            all == groups_view(*groups),
            moves@ == all.take(g as int).flatten(),
            forall|j: int| 0 <= j < moves@.len() ==> in_groups(all, #[trigger] moves@[j]),
        decreases groups.len() - g,
    {
        let group = &groups[g];
        let ghost before = moves@;
        let mut i: usize = 0;
        while i < group.len()
            invariant
                i <= group.len(),
                g < groups.len(),
                all == groups_view(*groups),
                group@ == all[g as int],
                moves@ == before + group@.take(i as int),
                forall|j: int| 0 <= j < moves@.len() ==> in_groups(all, #[trigger] moves@[j]),
            decreases group.len() - i,
        {
            moves.push(group[i]);
            proof {
                assert(group@.take(i + 1) =~= group@.take(i as int).push(group@[i as int]));
                assert(all[g as int][i as int] == group@[i as int]);
            }
            i += 1;
        }
        proof {
            assert(group@.take(i as int) =~= group@);
            assert(all.take(g + 1) =~= all.take(g as int).push(group@));
            all.take(g as int).lemma_flatten_push(group@);
        }
        g += 1;
    }
    proof {
        assert(all.take(g as int) =~= all);
    }
    moves
}

/// Whether a square is among the given ones.
fn holds_square(squares: &Vec<usize>, square: usize) -> (found: bool)
    ensures
        found == squares@.contains(square),
{
    let mut k: usize = 0;
    while k < squares.len()
        invariant
            k <= squares.len(),
            forall|j: int| 0 <= j < k ==> squares@[j] != square,
        decreases squares.len() - k,
    {
        if squares[k] == square {
            return true;
        }
        k += 1;
    }
    false
}

/// The squares that the given moves lead to, each once, in the order in which
/// they first occur.
pub fn distinct_targets(moves: &Vec<(usize, Option<usize>)>) -> (targets: Vec<usize>)
    ensures
        targets@ == move_targets(moves@),
{
    let ghost all = moves@.map_values(|m: (usize, Option<usize>)| m.0);
    let mut targets: Vec<usize> = Vec::new();
    let mut i: usize = 0;
    proof {
        assert(all.skip(0) =~= all);
    }
    while i < moves.len()
        invariant
            i <= moves.len(),
            all == moves@.map_values(|m: (usize, Option<usize>)| m.0),
            all.remove_duplicates(Seq::empty()) == all.skip(i as int).remove_duplicates(targets@),
        decreases moves.len() - i,
    {
        let to: usize = moves[i].0;
        proof {
            assert(all.skip(i as int)[0] == to);
            assert(all.skip(i as int).skip(1) =~= all.skip(i + 1));
        }
        if !holds_square(&targets, to) {
            let ghost before = targets@;
            targets.push(to);
            proof {
                assert(targets@ =~= before + seq![to]);
            }
        }
        i += 1;
    }
    targets
}

/// Whether one of the given moves leads to `to` and promotes.
pub fn has_promotion_to(moves: &Vec<(usize, Option<usize>)>, to: usize) -> (found: bool)
    ensures
        found == promotes_to(moves@, to as int),
{
    let mut i: usize = 0;
    while i < moves.len()
        invariant
            i <= moves.len(),
            forall|j: int| 0 <= j < i ==> !((#[trigger] moves@[j]).0 == to && moves@[j].1 is Some),
        decreases moves.len() - i,
    {
        if moves[i].0 == to && moves[i].1.is_some() {
            return true;
        }
        i += 1;
    }
    false
}

/// The destinations of the given moves: each square that a move leads to, once,
/// in the order in which the squares first occur, with the flag that says
/// whether a move to it promotes.
pub fn flagged_destinations(moves: &Vec<(usize, Option<usize>)>) -> (found: Vec<(usize, bool)>)
    ensures
        pairs_view(found@) == destinations(moves@),
{
    let targets = distinct_targets(moves);
    let mut found: Vec<(usize, bool)> = Vec::new();
    let mut k: usize = 0;
    while k < targets.len()
        invariant
            k <= targets.len(),
            targets@ == move_targets(moves@),
            found@.len() == k,
            forall|j: int|
                0 <= j < k ==> (#[trigger] found@[j]) == (
                    targets@[j],
                    promotes_to(moves@, targets@[j] as int),
                ),
        decreases targets.len() - k,
    {
        let to: usize = targets[k];
        found.push((to, has_promotion_to(moves, to)));
        k += 1;
    }
    proof {
        assert(pairs_view(found@) =~= destinations(moves@));
    }
    found
}

/// Dropping repeats from a sequence, after values already seen without repeats,
/// leaves no repeats.
proof fn lemma_remove_duplicates_distinct<A>(values: Seq<A>, seen: Seq<A>)
    requires
        seen.no_duplicates(),
    ensures
        values.remove_duplicates(seen).no_duplicates(),
    decreases values.len(),
{
    if values.len() == 0 {
    } else if seen.contains(values[0]) {
        lemma_remove_duplicates_distinct(values.skip(1), seen);
    } else {
        let next = seen + seq![values[0]];
        assert forall|i: int, j: int| 0 <= i < next.len() && 0 <= j < next.len() && i != j implies next[i]
            != next[j] by {
            if i < seen.len() && j < seen.len() {
                assert(seen[i] != seen[j]);
            } else if i < seen.len() {
                assert(seen.contains(seen[i]));
            } else {
                assert(seen.contains(seen[j]));
            }
        }
        lemma_remove_duplicates_distinct(values.skip(1), next);
    }
}

/// The targets of some moves are the squares that the moves lead to, and none
/// of them is listed twice.
pub proof fn lemma_targets_cover_moves(moves: Seq<(usize, Option<usize>)>)
    ensures
        move_targets(moves).no_duplicates(),
        forall|to: usize| #[trigger] move_targets(moves).contains(to) <==> leads_to(moves, to as int),
{
    let all = moves.map_values(|m: (usize, Option<usize>)| m.0);
    lemma_remove_duplicates_distinct(all, Seq::empty());
    all.lemma_remove_duplicates_properties(Seq::empty());
    assert(all + Seq::<usize>::empty() =~= all);
    assert forall|to: usize| #[trigger] move_targets(moves).contains(to) <==> leads_to(moves, to as int) by {
        if move_targets(moves).contains(to) {
            assert(all.contains(to));
            let i = choose|i: int| 0 <= i < all.len() && all[i] == to;
            assert(moves[i].0 == to);
        }
        if leads_to(moves, to as int) {
            let i = choose|i: int| 0 <= i < moves.len() && (#[trigger] moves[i]).0 == to;
            assert(all[i] == to);
            assert(all.contains(to));
        }
    }
}

/// A square is a destination exactly when one of the moves leads to it; its
/// flag says whether one of the moves to it promotes; and no square is listed
/// twice.
pub proof fn lemma_destinations_cover_moves(moves: Seq<(usize, Option<usize>)>)
    ensures
        forall|to: int, flag: bool|
            #[trigger] destinations(moves).contains((to, flag)) <==> leads_to(moves, to) && flag
                == promotes_to(moves, to),
        forall|j: int, k: int|
            0 <= j < k < destinations(moves).len() ==> destinations(moves)[j].0 != destinations(
                moves,
            )[k].0,
{
    lemma_targets_cover_moves(moves);
    let targets = move_targets(moves);
    let found = destinations(moves);
    assert forall|to: int, flag: bool| #[trigger]
        found.contains((to, flag)) <==> leads_to(moves, to) && flag == promotes_to(
            moves,
            to,
        ) by {
        if found.contains((to, flag)) {
            let k = choose|k: int| 0 <= k < found.len() && found[k] == (to, flag);
            assert(targets.contains(targets[k]));
        }
        if leads_to(moves, to) && flag == promotes_to(moves, to) {
            let i = choose|i: int| 0 <= i < moves.len() && (#[trigger] moves[i]).0 == to;
            assert(leads_to(moves, moves[i].0 as int));
            assert(targets.contains(moves[i].0));
            let k = choose|k: int| 0 <= k < targets.len() && targets[k] == moves[i].0;
            assert(found[k] == (to, flag));
        }
    }
}

} // verus!
