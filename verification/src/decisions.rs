//! The pure decisions of the search driver: what a node does before
//! expanding (cancellation, memo hit, mate, stalemate, repetition, leaf),
//! how one child result folds into the alpha-beta window, and how root
//! results reduce to a best move.  Each function is exact, so the laws
//! about terminal scores, stale memo entries and repetition draws are
//! proved here once and hold wherever the driver runs.
use vstd::prelude::*;
use crate::score::SCORE_MAX;
use crate::score::SCORE_MIN;
use crate::score::SCORE_DRAW;
use crate::score::spec_worst_for;
use crate::score::worst_score_for;

verus! {

/// What a node does after its short-circuit checks.
#[derive(PartialEq, Eq, Structural, Clone, Copy, Debug)]
pub enum NodeVerdict {
    /// Return this score without expanding.
    Cut(i64),
    /// Depth is exhausted: score the position with the evaluator.
    EvaluateLeaf,
    /// Expand the node over its ordered legal moves.
    Expand,
}

/// A memo entry may be trusted only if it was computed at least as deep
/// as the depth now requested; shallower entries are stale.
pub open spec fn spec_cache_usable(cached: Option<(i64, u32)>, depth: u32) -> bool {
    match cached {
        Some(e) => e.1 >= depth,
        Option::None => false,
    }
}

/// The score stored in a memo entry (zero when there is none).
pub open spec fn spec_cached_score(cached: Option<(i64, u32)>) -> i64 {
    match cached {
        Some(e) => e.0,
        Option::None => 0,
    }
}

/// The short-circuit decision of a search node, checked in this order:
/// cancellation, memo hit, checkmate, stalemate, threefold repetition,
/// exhausted depth.  An aborted or mated node scores the sentinel that
/// favors the opponent of the side to move (`maximizing` tracks the side
/// to move: true at White nodes).
pub open spec fn spec_node_verdict(
    stopped: bool,
    cached: Option<(i64, u32)>,
    checkmate: bool,
    stalemate: bool,
    rep_count: u32,
    depth: u32,
    maximizing: bool,
) -> NodeVerdict {
    if stopped {
        NodeVerdict::Cut(spec_worst_for(maximizing))
    } else if spec_cache_usable(cached, depth) {
        NodeVerdict::Cut(spec_cached_score(cached))
    } else if checkmate {
        NodeVerdict::Cut(spec_worst_for(maximizing))
    } else if stalemate {
        NodeVerdict::Cut(SCORE_DRAW)
    } else if rep_count >= 3 {
        NodeVerdict::Cut(SCORE_DRAW)
    } else if depth == 0 {
        NodeVerdict::EvaluateLeaf
    } else {
        NodeVerdict::Expand
    }
}

/// Exec mirror of [`spec_node_verdict`].
pub fn node_verdict(
    stopped: bool,
    cached: Option<(i64, u32)>,
    checkmate: bool,
    stalemate: bool,
    rep_count: u32,
    depth: u32,
    maximizing: bool,
) -> (v: NodeVerdict)
    ensures
        v == spec_node_verdict(stopped, cached, checkmate, stalemate, rep_count, depth, maximizing),
{
    if stopped {
        return NodeVerdict::Cut(worst_score_for(maximizing));
    }
    if let Some(e) = cached {
        if e.1 >= depth {
            return NodeVerdict::Cut(e.0);
        }
    }
    if checkmate {
        NodeVerdict::Cut(worst_score_for(maximizing))
    } else if stalemate {
        NodeVerdict::Cut(SCORE_DRAW)
    } else if rep_count >= 3 {
        NodeVerdict::Cut(SCORE_DRAW)
    } else if depth == 0 {
        NodeVerdict::EvaluateLeaf
    } else {
        NodeVerdict::Expand
    }
}

/// Terminal correctness: with no cancellation and no trustable memo
/// entry, a checkmated node scores the extreme favoring the opponent and
/// a stalemate scores the neutral draw, at every depth, whatever the
/// repetition count.
pub proof fn lemma_terminal_correctness(
    cached: Option<(i64, u32)>,
    rep_count: u32,
    depth: u32,
    maximizing: bool,
)
    requires
        !spec_cache_usable(cached, depth),
    ensures
        spec_node_verdict(false, cached, true, false, rep_count, depth, maximizing)
            == NodeVerdict::Cut(spec_worst_for(maximizing)),
        spec_node_verdict(false, cached, false, true, rep_count, depth, maximizing)
            == NodeVerdict::Cut(SCORE_DRAW),
{
}

/// Depth zero reaches the evaluator: with no cancellation, no memo
/// entry for the position, and none of the terminal cases holding, an
/// exhausted node hands the position to the evaluator.
pub proof fn lemma_depth_zero_evaluates(rep_count: u32, maximizing: bool)
    requires
        rep_count < 3,
    ensures
        spec_node_verdict(false, Option::None, false, false, rep_count, 0, maximizing)
            == NodeVerdict::EvaluateLeaf,
{
}

/// Memo soundness against staleness: an entry recorded at a shallower
/// depth than requested changes nothing; the node decides exactly as it
/// would with no entry at all.
pub proof fn lemma_stale_cache_ignored(
    stopped: bool,
    entry: (i64, u32),
    checkmate: bool,
    stalemate: bool,
    rep_count: u32,
    depth: u32,
    maximizing: bool,
)
    requires
        entry.1 < depth,
    ensures
        spec_node_verdict(stopped, Some(entry), checkmate, stalemate, rep_count, depth, maximizing)
            == spec_node_verdict(
            stopped,
            Option::None,
            checkmate,
            stalemate,
            rep_count,
            depth,
            maximizing,
        ),
{
}

/// Repetition draw: a position already seen three times scores exactly
/// the neutral draw at every depth, regardless of what the evaluator
/// would say, as long as no cancellation, memo hit or terminal case
/// preempts it.
pub proof fn lemma_repetition_draw(rep_count: u32, depth: u32, maximizing: bool)
    requires
        rep_count >= 3,
    ensures
        spec_node_verdict(false, Option::None, false, false, rep_count, depth, maximizing)
            == NodeVerdict::Cut(SCORE_DRAW),
{
}

/// One alpha-beta fold step: the running value and the window after one
/// child's score arrives, and whether the window closed (a cutoff).
/// Maximizing nodes raise `value` and `alpha`; minimizing nodes lower
/// `value` and `beta`.
pub open spec fn spec_fold_step(
    maximizing: bool,
    value: i64,
    alpha: i64,
    beta: i64,
    eval: i64,
) -> (i64, i64, i64, bool) {
    if maximizing {
        let v = if eval > value {
            eval
        } else {
            value
        };
        let a = if eval > alpha {
            eval
        } else {
            alpha
        };
        (v, a, beta, beta <= a)
    } else {
        let v = if eval < value {
            eval
        } else {
            value
        };
        let b = if eval < beta {
            eval
        } else {
            beta
        };
        (v, alpha, b, b <= alpha)
    }
}

/// Exec mirror of [`spec_fold_step`]: returns the new running value,
/// the new alpha, the new beta, and the cutoff flag.
pub fn fold_step(maximizing: bool, value: i64, alpha: i64, beta: i64, eval: i64) -> (r: (
    i64,
    i64,
    i64,
    bool,
))
    ensures
        r == spec_fold_step(maximizing, value, alpha, beta, eval),
{
    if maximizing {
        let v: i64 = if eval > value {
            eval
        } else {
            value
        };
        let a: i64 = if eval > alpha {
            eval
        } else {
            alpha
        };
        (v, a, beta, beta <= a)
    } else {
        let v: i64 = if eval < value {
            eval
        } else {
            value
        };
        let b: i64 = if eval < beta {
            eval
        } else {
            beta
        };
        (v, alpha, b, b <= alpha)
    }
}

/// The root reduction, scanning `(score, move)` results in generation
/// order from index `i` with the running best so far: a strictly better
/// score takes over (so ties keep the first seen), and a result carrying
/// the sentinel of an aborted child stops the scan.
pub open spec fn spec_select_from(
    results: Seq<(i64, u16)>,
    i: int,
    cur_score: i64,
    cur_idx: Option<int>,
    maximizing: bool,
) -> (i64, Option<int>, bool)
    decreases results.len() - i,
{
    if i < 0 || i >= results.len() {
        (cur_score, cur_idx, false)
    } else {
        let e = results[i].0;
        let better = (maximizing && e > cur_score) || (!maximizing && e < cur_score);
        let ns = if better {
            e
        } else {
            cur_score
        };
        let ni = if better {
            Some(i)
        } else {
            cur_idx
        };
        if (maximizing && e == SCORE_MAX) || (!maximizing && e == SCORE_MIN) {
            (ns, ni, true)
        } else {
            spec_select_from(results, i + 1, ns, ni, maximizing)
        }
    }
}

/// The root reduction over a whole result list, starting from the
/// extreme that any real score beats.
pub open spec fn spec_select(results: Seq<(i64, u16)>, maximizing: bool) -> (
    i64,
    Option<int>,
    bool,
) {
    spec_select_from(results, 0, spec_worst_for(maximizing), Option::None, maximizing)
}

/// Widens an index option for comparison with the spec-level reduction.
pub open spec fn spec_idx(o: Option<usize>) -> Option<int> {
    match o {
        Some(k) => Some(k as int),
        Option::None => Option::None,
    }
}

/// Exec mirror of [`spec_select`]: the best score, the index of the
/// chosen result if any strictly beat the starting extreme, and whether
/// the scan stopped on an aborted-child sentinel.
pub fn select_best(results: &Vec<(i64, u16)>, maximizing: bool) -> (r: (i64, Option<usize>, bool))
    ensures
        (r.0, spec_idx(r.1), r.2) == spec_select(results@, maximizing),
        r.1 matches Some(k) ==> k < results@.len(),
{
    let mut i: usize = 0;
    let mut score: i64 = worst_score_for(maximizing);
    let mut idx: Option<usize> = Option::None;
    let mut aborted = false;
    while i < results.len() && !aborted
        invariant
            i <= results@.len(),
            !aborted ==> spec_select_from(results@, i as int, score, spec_idx(idx), maximizing)
                == spec_select(results@, maximizing),
            aborted ==> (score, spec_idx(idx), true) == spec_select(results@, maximizing),
            idx matches Some(k) ==> k < results@.len(),
        decreases results@.len() - i,
    {
        let e = results[i].0;
        let better = (maximizing && e > score) || (!maximizing && e < score);
        if better {
            score = e;
            idx = Some(i);
        }
        if (maximizing && e == SCORE_MAX) || (!maximizing && e == SCORE_MIN) {
            aborted = true;
        }
        i += 1;
    }
    (score, idx, aborted)
}

} // verus!
