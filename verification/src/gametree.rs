//! Alpha-beta pruning proved equivalent to plain minimax.  The real
//! search runs over an opaque board, so the law is stated where it can
//! be checked completely: on explicit game trees, with the same fold
//! logic the driver uses.  `alphabeta` carries the classic window
//! contract, and with the full window it returns exactly the plain
//! minimax value: pruning changes how many nodes are visited, never the
//! root score.
use vstd::prelude::*;
use crate::score::SCORE_MIN;
use crate::score::SCORE_MAX;
use crate::score::worst_score_for;
use crate::decisions::fold_step;

verus! {

/// An explicit game tree: a scored leaf, or a node whose children are
/// the positions one move away, in move order.
pub enum GameTree {
    Leaf(i64),
    Branch(Vec<GameTree>),
}

/// The plain minimax value of a tree; a childless branch keeps the
/// starting extreme, as the driver's fold does.
pub open spec fn tree_value(t: GameTree, maximizing: bool) -> int
    decreases t, 1int, 0int,
{
    match t {
        GameTree::Leaf(v) => v as int,
        GameTree::Branch(cs) => prefix_value(cs@, cs@.len() as int, maximizing),
    }
}

/// The minimax fold over the first `k` children of a branch.
pub open spec fn prefix_value(cs: Seq<GameTree>, k: int, maximizing: bool) -> int
    decreases cs, 0int, k,
{
    if k <= 0 || k > cs.len() {
        if maximizing {
            SCORE_MIN as int
        } else {
            SCORE_MAX as int
        }
    } else {
        let prev = prefix_value(cs, k - 1, maximizing);
        let child = tree_value(cs[k - 1], !maximizing);
        if maximizing {
            if child > prev {
                child
            } else {
                prev
            }
        } else {
            if child < prev {
                child
            } else {
                prev
            }
        }
    }
}

/// Every tree value fits in the score range.
pub proof fn lemma_tree_value_bounds(t: GameTree, maximizing: bool)
    ensures
        SCORE_MIN as int <= tree_value(t, maximizing) <= SCORE_MAX as int,
    decreases t, 1int, 0int,
{
    match t {
        GameTree::Leaf(_) => {},
        GameTree::Branch(cs) => {
            lemma_prefix_value_bounds(cs@, cs@.len() as int, maximizing);
        },
    }
}

proof fn lemma_prefix_value_bounds(cs: Seq<GameTree>, k: int, maximizing: bool)
    ensures
        SCORE_MIN as int <= prefix_value(cs, k, maximizing) <= SCORE_MAX as int,
    decreases cs, 0int, k,
{
    if k <= 0 || k > cs.len() {
    } else {
        lemma_prefix_value_bounds(cs, k - 1, maximizing);
        lemma_tree_value_bounds(cs[k - 1], !maximizing);
    }
}

/// The fold over a longer prefix only moves toward the folding side's
/// extreme.
proof fn lemma_prefix_value_monotone(cs: Seq<GameTree>, j: int, k: int, maximizing: bool)
    requires
        0 <= j <= k <= cs.len(),
    ensures
        maximizing ==> prefix_value(cs, j, true) <= prefix_value(cs, k, true),
        !maximizing ==> prefix_value(cs, j, false) >= prefix_value(cs, k, false),
    decreases k - j,
{
    if j < k {
        lemma_prefix_value_monotone(cs, j, k - 1, maximizing);
    }
}

/// Plain minimax without pruning: visits every node and returns the
/// exact tree value.
#[verifier::loop_isolation(false)]
pub fn minimax_plain(t: &GameTree, maximizing: bool) -> (r: i64)
    ensures
        r as int == tree_value(*t, maximizing),
    decreases *t,
{
    match t {
        GameTree::Leaf(v) => *v,
        GameTree::Branch(cs) => {
            let mut value = worst_score_for(maximizing);
            let mut i: usize = 0;
            while i < cs.len()
                invariant
                    i <= cs@.len(),
                    value as int == prefix_value(cs@, i as int, maximizing),
                decreases cs@.len() - i,
            {
                proof {
                    assert(*cs == (*t)->Branch_0);
                    assert(decreases_to!(*t => (*t)->Branch_0));
                    assert(decreases_to!((*t)->Branch_0 => (*t)->Branch_0@));
                    assert(decreases_to!((*t)->Branch_0@ => (*t)->Branch_0@[i as int]));
                    assert(decreases_to!(*t => cs@[i as int]));
                }
                let e = minimax_plain(&cs[i], !maximizing);
                if maximizing {
                    if e > value {
                        value = e;
                    }
                } else {
                    if e < value {
                        value = e;
                    }
                }
                i += 1;
            }
            value
        },
    }
}

/// Alpha-beta search of a tree.  Within the window it returns the
/// exact minimax value; outside it fails soft, bounded by the window
/// edge and the true value.  With the full window — pruning disabled
/// at the root — the result equals plain minimax exactly.
#[verifier::loop_isolation(false)]
pub fn alphabeta(t: &GameTree, alpha: i64, beta: i64, maximizing: bool) -> (r: i64)
    requires
        alpha < beta,
    ensures
        tree_value(*t, maximizing) <= alpha ==> tree_value(*t, maximizing) <= r <= alpha,
        tree_value(*t, maximizing) >= beta ==> beta <= r <= tree_value(*t, maximizing),
        alpha < tree_value(*t, maximizing) < beta ==> r == tree_value(*t, maximizing),
        alpha == SCORE_MIN && beta == SCORE_MAX ==> r == tree_value(*t, maximizing),
    decreases *t,
{
    proof {
        lemma_tree_value_bounds(*t, maximizing);
    }
    match t {
        GameTree::Leaf(v) => *v,
        GameTree::Branch(cs) => {
            let ghost n = cs@.len() as int;
            let mut value = worst_score_for(maximizing);
            let mut cur_alpha = alpha;
            let mut cur_beta = beta;
            let mut i: usize = 0;
            let mut cut = false;
            while i < cs.len() && !cut
                invariant
                    i <= cs@.len(),
                    n == cs@.len(),
                    alpha < beta,
                    maximizing ==> cur_beta == beta,
                    !maximizing ==> cur_alpha == alpha,
                    maximizing ==> cur_alpha == (if value > alpha {
                        value
                    } else {
                        alpha
                    }),
                    !maximizing ==> cur_beta == (if value < beta {
                        value
                    } else {
                        beta
                    }),
                    !cut ==> cur_alpha < cur_beta,
                    maximizing ==> value as int <= max_int(
                        alpha as int,
                        prefix_value(cs@, i as int, true),
                    ),
                    maximizing ==> value as int >= min_int(
                        prefix_value(cs@, i as int, true),
                        beta as int,
                    ),
                    !maximizing ==> value as int >= min_int(
                        beta as int,
                        prefix_value(cs@, i as int, false),
                    ),
                    !maximizing ==> value as int <= max_int(
                        prefix_value(cs@, i as int, false),
                        alpha as int,
                    ),
                    cut && maximizing ==> value >= beta && prefix_value(cs@, i as int, true)
                        >= beta,
                    cut && !maximizing ==> value <= alpha && prefix_value(cs@, i as int, false)
                        <= alpha,
                decreases cs@.len() - i,
            {
                proof {
                    assert(*cs == (*t)->Branch_0);
                    assert(decreases_to!(*t => (*t)->Branch_0));
                    assert(decreases_to!((*t)->Branch_0 => (*t)->Branch_0@));
                    assert(decreases_to!((*t)->Branch_0@ => (*t)->Branch_0@[i as int]));
                    assert(decreases_to!(*t => cs@[i as int]));
                    lemma_prefix_value_bounds(cs@, i as int, maximizing);
                    lemma_tree_value_bounds(cs@[i as int], !maximizing);
                }
                let e = alphabeta(&cs[i], cur_alpha, cur_beta, !maximizing);
                let (v, a, b, c) = fold_step(maximizing, value, cur_alpha, cur_beta, e);
                value = v;
                cur_alpha = a;
                cur_beta = b;
                cut = c;
                i += 1;
            }
            proof {
                let pv = prefix_value(cs@, i as int, maximizing);
                lemma_prefix_value_monotone(cs@, i as int, n, maximizing);
                lemma_prefix_value_bounds(cs@, n, maximizing);
            }
            value
        },
    }
}

/// Larger of two mathematical integers.
pub open spec fn max_int(a: int, b: int) -> int {
    if a > b {
        a
    } else {
        b
    }
}

/// Smaller of two mathematical integers.
pub open spec fn min_int(a: int, b: int) -> int {
    if a < b {
        a
    } else {
        b
    }
}

} // verus!
