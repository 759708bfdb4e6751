//! Alpha-beta equivalence on explicit game trees.
use brainstorm::gametree::GameTree;
use brainstorm::gametree::minimax_plain;
use brainstorm::gametree::alphabeta;

fn sample_tree() -> GameTree {
    GameTree::Branch(vec![
        GameTree::Leaf(3),
        GameTree::Branch(vec![GameTree::Leaf(-5), GameTree::Leaf(10)]),
        GameTree::Leaf(7),
    ])
}

#[test]
fn plain_minimax_on_sample_tree() {
    let t = sample_tree();
    // maximizing root: max(3, min(-5, 10), 7) = 7
    assert_eq!(minimax_plain(&t, true), 7);
    // minimizing root: min(3, max(-5, 10), 7) = 3
    assert_eq!(minimax_plain(&t, false), 3);
}

#[test]
fn full_window_alphabeta_equals_plain_minimax() {
    let t = sample_tree();
    assert_eq!(alphabeta(&t, i64::MIN, i64::MAX, true), minimax_plain(&t, true));
    assert_eq!(alphabeta(&t, i64::MIN, i64::MAX, false), minimax_plain(&t, false));
}

#[test]
fn full_window_alphabeta_on_deeper_tree() {
    let t = GameTree::Branch(vec![
        GameTree::Branch(vec![
            GameTree::Branch(vec![GameTree::Leaf(1), GameTree::Leaf(9)]),
            GameTree::Leaf(-2),
        ]),
        GameTree::Branch(vec![
            GameTree::Leaf(4),
            GameTree::Branch(vec![GameTree::Leaf(0), GameTree::Leaf(6)]),
        ]),
        GameTree::Leaf(5),
    ]);
    assert_eq!(alphabeta(&t, i64::MIN, i64::MAX, true), minimax_plain(&t, true));
    assert_eq!(alphabeta(&t, i64::MIN, i64::MAX, false), minimax_plain(&t, false));
}

#[test]
fn childless_branch_keeps_the_starting_extreme() {
    let t = GameTree::Branch(vec![]);
    assert_eq!(minimax_plain(&t, true), i64::MIN);
    assert_eq!(minimax_plain(&t, false), i64::MAX);
    assert_eq!(alphabeta(&t, i64::MIN, i64::MAX, true), i64::MIN);
}

#[test]
fn narrow_window_still_exact_inside_it() {
    let t = sample_tree();
    // true value 7 lies inside (0, 100)
    assert_eq!(alphabeta(&t, 0, 100, true), 7);
}
