//! The search driver: alpha-beta minimax over the board collaborator,
//! and the iterative-deepening coordinator that fans root moves out to
//! parallel workers, reduces their scores, reports progress per depth,
//! and honors the cancellation contract.
//!
//! The stop flag, the clock and the shared stores are all free to
//! change under a running search, so `minimax` itself promises nothing
//! about its score; every decision it takes is the exact logic of
//! `decisions`, verified for each value those sources can hand back.
use vstd::prelude::*;
use rayon::iter::IntoParallelRefIterator;
use rayon::iter::ParallelIterator;
use crate::board::spec_board_moves;
use crate::board::spec_board_checkmate;
use crate::board::spec_board_stalemate;
use crate::board::board_legal_moves;
use crate::board::board_fen;
use crate::board::board_white_to_move;
use crate::board::board_is_checkmate;
use crate::board::board_is_stalemate;
use crate::board::board_duplicate;
use crate::board::board_play_move;
use crate::clock::budget_elapsed;
use crate::decisions::NodeVerdict;
use crate::decisions::node_verdict;
use crate::decisions::spec_cache_usable;
use crate::decisions::spec_cached_score;
use crate::decisions::fold_step;
use crate::decisions::select_best;
use crate::encoding::board_to_bitboard;
use crate::encoding::spec_board_features;
use crate::ordering::order_moves;
use crate::score::SCORE_MIN;
use crate::score::SCORE_MAX;
use crate::score::SCORE_DRAW;
use crate::score::spec_worst_for;
use crate::score::spec_scaled_cp;
use crate::score::scaled_cp;
use crate::score::worst_score_for;
use crate::tables::TranspositionTable;
use crate::tables::KillerTable;
use crate::tables::RepetitionLedger;
use crate::tables::StopFlag;
use crate::tables::NodeCounter;

verus! {

/// The search context of a game session: the evaluator and the shared
/// stores, cheap to clone and safe to share across workers.
pub struct SearchAlgorithm<F> {
    /// Scores a position's feature vector; positive favors White.
    pub evaluator: F,
    /// Memo of `(score, depth)` per position key.
    pub transposition_table: TranspositionTable,
    /// Last cutoff move per depth.
    pub killer_moves: KillerTable,
    /// The shared stop signal.
    pub should_stop: StopFlag,
    /// Occurrences of each position key in real play.
    pub position_count: RepetitionLedger,
    /// Nodes visited, for progress reporting.
    pub node_count: NodeCounter,
}

/// One progress record, emitted after a completed depth.
#[derive(PartialEq, Eq, Structural, Clone, Copy, Debug)]
pub struct DepthReport {
    /// The depth that completed.
    pub depth: u32,
    /// The raw best score at that depth.
    pub score: i64,
    /// The display-scaled score.
    pub cp_score: i64,
    /// The best move found so far, raw-encoded.
    pub best_move: u16,
    /// Nodes visited so far in this search.
    pub nodes: usize,
}

/// What a whole iterative-deepening search produced.
#[derive(Clone, Debug)]
pub struct SearchOutcome {
    /// The chosen move, present whenever the root has any legal move.
    pub best_move: Option<u16>,
    /// One record per completed depth.
    pub progress: Vec<DepthReport>,
}

/// What one search node actually read from the sources that race with
/// the search: the stop signal and the clock (folded into `stopped`),
/// the transposition table, and the repetition ledger — plus the
/// position the node ran on.  `minimax` hands this record back as ghost
/// information, so its contract can say exactly which score each
/// reading forces even though no reading can be predicted.
pub struct NodeReads {
    /// The position the node ran on.
    pub board: pleco::Board,
    /// The cancellation check's answer at node entry.
    pub stopped: bool,
    /// The memo entry the transposition table handed back.
    pub cached: Option<(i64, u32)>,
    /// The occurrence count the repetition ledger handed back.
    pub rep_count: u32,
}

impl<F: Fn(Vec<u8>) -> i64 + Send + Sync> SearchAlgorithm<F> {
    /// The evaluator accepts every feature vector.
    pub open spec fn wf(&self) -> bool {
        forall|v: Vec<u8>| #[trigger] call_requires(self.evaluator, (v,))
    }

    /// A fresh search context around an evaluator, an optional shared
    /// stop signal, and the game's repetition ledger.
    pub fn new(evaluator: F, should_stop: Option<StopFlag>, position_count: RepetitionLedger) -> (r:
        Self)
        requires
            forall|v: Vec<u8>| #[trigger] call_requires(evaluator, (v,)),
        ensures
            r.wf(),
    {
        let stop = match should_stop {
            Some(s) => s,
            Option::None => StopFlag::new(),
        };
        SearchAlgorithm {
            evaluator,
            transposition_table: TranspositionTable::new(),
            killer_moves: KillerTable::new(),
            should_stop: stop,
            position_count,
            node_count: NodeCounter::new(),
        }
    }

    /// Starts a new game: forgets every memoized position score.
    pub fn reset_game(&self) {
        self.transposition_table.clear();
    }

    /// Whether this search should wind down: an explicit stop request,
    /// or an exhausted time budget.
    fn cancelled(&self, start_time: &std::time::Instant, max_time: u128) -> bool {
        self.should_stop.is_set() || budget_elapsed(start_time, max_time)
    }

    /// Scores an exhausted node: exactly an output of the evaluator on
    /// this position's feature encoding, with nothing added, dropped or
    /// rescaled.  With a deterministic evaluator this pins the score of
    /// every depth-zero search that reaches the evaluator.
    pub fn evaluate_leaf(&self, board: &pleco::Board) -> (r: i64)
        requires
            self.wf(),
        ensures
            exists|v: Vec<u8>|
                v@ == spec_board_features(*board) && call_ensures(self.evaluator, (v,), r),
    {
        let features = board_to_bitboard(board);
        let ghost encoded = features;
        let r = (self.evaluator)(features);
        proof {
            assert(encoded@ == spec_board_features(*board) && call_ensures(
                self.evaluator,
                (encoded,),
                r,
            ));
        }
        r
    }

    /// Alpha-beta minimax.  At each node, in order: cancellation check,
    /// memo lookup, checkmate, stalemate, threefold repetition, then
    /// the evaluator at depth zero; otherwise the node expands over its
    /// ordered moves, folding child scores through the alpha-beta
    /// window, recording cutoff moves, and memoizing its value.
    ///
    /// The stop signal, the clock and the shared stores race with the
    /// search, so no single score can be promised up front.  Instead
    /// the node reports what it read (the ghost half of the result),
    /// and the contract pins the score each reading forces: the abort
    /// sentinel when stopped, the memoized score on a usable hit, the
    /// mate and draw scores, and exactly an evaluator output at depth
    /// zero.
    pub fn minimax(
        &self,
        board: &pleco::Board,
        depth: u32,
        max_time: u128,
        start_time: &std::time::Instant,
        alpha: i64,
        beta: i64,
        maximizing: bool,
        best_move: Option<u16>,
    ) -> (r: (i64, Ghost<NodeReads>))
        requires
            self.wf(),
        ensures
            r.1@.board == *board,
            r.1@.stopped ==> r.0 == spec_worst_for(maximizing),
            !r.1@.stopped && spec_cache_usable(r.1@.cached, depth) ==> r.0 == spec_cached_score(
                r.1@.cached,
            ),
            !r.1@.stopped && !spec_cache_usable(r.1@.cached, depth) && spec_board_checkmate(*board)
                ==> r.0 == spec_worst_for(maximizing),
            !r.1@.stopped && !spec_cache_usable(r.1@.cached, depth) && !spec_board_checkmate(*board)
                && spec_board_stalemate(*board) ==> r.0 == SCORE_DRAW,
            !r.1@.stopped && !spec_cache_usable(r.1@.cached, depth) && !spec_board_checkmate(*board)
                && !spec_board_stalemate(*board) && r.1@.rep_count >= 3 ==> r.0 == SCORE_DRAW,
            !r.1@.stopped && !spec_cache_usable(r.1@.cached, depth) && !spec_board_checkmate(*board)
                && !spec_board_stalemate(*board) && r.1@.rep_count < 3 && depth == 0 ==> (exists|
                v: Vec<u8>,
            |
                v@ == spec_board_features(*board) && call_ensures(self.evaluator, (v,), r.0)),
        decreases depth,
    {
        self.node_count.add_one();
        let stopped = self.cancelled(start_time, max_time);
        let key = board_fen(board);
        let cached = self.transposition_table.probe(&key);
        let checkmate = board_is_checkmate(board);
        let stalemate = board_is_stalemate(board);
        let rep_count = self.position_count.count(&key);
        let ghost reads = NodeReads { board: *board, stopped, cached, rep_count };
        match node_verdict(stopped, cached, checkmate, stalemate, rep_count, depth, maximizing) {
            NodeVerdict::Cut(score) => (score, Ghost(reads)),
            NodeVerdict::EvaluateLeaf => (self.evaluate_leaf(board), Ghost(reads)),
            NodeVerdict::Expand => {
                let killer = self.killer_moves.hint(depth);
                let ordered = order_moves(board, killer, best_move);
                let mut value = worst_score_for(maximizing);
                let mut cur_alpha = alpha;
                let mut cur_beta = beta;
                let mut i: usize = 0;
                while i < ordered.len()
                    invariant
                        self.wf(),
                        depth >= 1,
                        i <= ordered@.len(),
                        forall|k: int|
                            0 <= k < ordered@.len() ==> spec_board_moves(*board).contains(
                                #[trigger] ordered@[k],
                            ),
                        reads.board == *board,
                        !reads.stopped,
                        !spec_cache_usable(reads.cached, depth),
                        !spec_board_checkmate(*board),
                        !spec_board_stalemate(*board),
                        reads.rep_count < 3,
                    decreases ordered@.len() - i,
                {
                    if self.cancelled(start_time, max_time) {
                        return (worst_score_for(maximizing), Ghost(reads));
                    }
                    let m = ordered[i];
                    let mut child = board_duplicate(board);
                    board_play_move(&mut child, m);
                    let eval = self.minimax(
                        &child,
                        depth - 1,
                        max_time,
                        start_time,
                        cur_alpha,
                        cur_beta,
                        !maximizing,
                        best_move,
                    ).0;
                    let (v, a, b, cut) = fold_step(maximizing, value, cur_alpha, cur_beta, eval);
                    value = v;
                    cur_alpha = a;
                    cur_beta = b;
                    if cut {
                        self.killer_moves.record(depth, m);
                        break ;
                    }
                    i += 1;
                }
                self.transposition_table.store(key, value, depth);
                (value, Ghost(reads))
            },
        }
    }

    /// Scores one root move in an independently owned copy of the
    /// position: the worker body of the per-depth parallel fan-out.
    /// The ghost record reports what the child node read (its board is
    /// the position after the move), and the clauses say what each
    /// reading forces, with the roles flipped: the child of a
    /// maximizing root minimizes.
    pub fn eval_root_move(
        &self,
        board: &pleco::Board,
        m: u16,
        child_depth: u32,
        max_time: u128,
        start_time: &std::time::Instant,
        maximizing: bool,
        best_move: Option<u16>,
    ) -> (r: (i64, Ghost<NodeReads>))
        requires
            self.wf(),
            spec_board_moves(*board).contains(m),
        ensures
            r.1@.stopped ==> r.0 == spec_worst_for(!maximizing),
            !r.1@.stopped && spec_cache_usable(r.1@.cached, child_depth) ==> r.0
                == spec_cached_score(r.1@.cached),
            !r.1@.stopped && !spec_cache_usable(r.1@.cached, child_depth) && spec_board_checkmate(
                r.1@.board,
            ) ==> r.0 == spec_worst_for(!maximizing),
            !r.1@.stopped && !spec_cache_usable(r.1@.cached, child_depth) && !spec_board_checkmate(
                r.1@.board,
            ) && spec_board_stalemate(r.1@.board) ==> r.0 == SCORE_DRAW,
            !r.1@.stopped && !spec_cache_usable(r.1@.cached, child_depth) && !spec_board_checkmate(
                r.1@.board,
            ) && !spec_board_stalemate(r.1@.board) && r.1@.rep_count >= 3 ==> r.0 == SCORE_DRAW,
            !r.1@.stopped && !spec_cache_usable(r.1@.cached, child_depth) && !spec_board_checkmate(
                r.1@.board,
            ) && !spec_board_stalemate(r.1@.board) && r.1@.rep_count < 3 && child_depth == 0 ==> (
            exists|v: Vec<u8>|
                v@ == spec_board_features(r.1@.board) && call_ensures(self.evaluator, (v,), r.0)),
    {
        let mut child = board_duplicate(board);
        board_play_move(&mut child, m);
        self.minimax(
            &child,
            child_depth,
            max_time,
            start_time,
            SCORE_MIN,
            SCORE_MAX,
            !maximizing,
            best_move,
        )
    }

    /// Iterative deepening: for each depth from 1 up, scores every root
    /// move concurrently, reduces the results to a best move, hands a
    /// progress record to the side-channel sink as the depth completes,
    /// and stops early on cancellation or when a root result carries an
    /// aborted-child sentinel.  Always returns a legal move when the
    /// root has one (falling back to the first generated move), `None`
    /// exactly when the root has none, and the chosen move is the one
    /// of the last progress record whenever any depth completed.
    pub fn search<S: Fn(DepthReport)>(
        &self,
        board: &pleco::Board,
        max_depth: u32,
        max_time: u128,
        progress_sink: S,
    ) -> (r: SearchOutcome)
        requires
            self.wf(),
            forall|d: DepthReport| #[trigger] call_requires(progress_sink, (d,)),
        ensures
            r.best_move matches Some(m) ==> spec_board_moves(*board).contains(m),
            r.best_move is Some <==> spec_board_moves(*board).len() > 0,
            forall|k: int|
                0 <= k < r.progress@.len() ==> spec_board_moves(*board).contains(
                    (#[trigger] r.progress@[k]).best_move,
                ),
            forall|k: int|
                0 <= k < r.progress@.len() ==> 1 <= (#[trigger] r.progress@[k]).depth <= max_depth,
            forall|k: int|
                0 <= k < r.progress@.len() ==> (#[trigger] r.progress@[k]).cp_score
                    == spec_scaled_cp(r.progress@[k].score),
            forall|i: int, j: int|
                0 <= i < j < r.progress@.len() ==> r.progress@[i].depth < r.progress@[j].depth,
            r.progress@.len() > 0 ==> r.best_move == Some(r.progress@.last().best_move),
    {
        self.should_stop.reset();
        let start_time = std::time::Instant::now();
        let maximizing = board_white_to_move(board);
        let root_moves = board_legal_moves(board);
        let mut progress: Vec<DepthReport> = Vec::new();
        if root_moves.len() == 0 {
            return SearchOutcome { best_move: Option::None, progress };
        }
        let mut best: Option<u16> = Option::None;
        let mut depth: u32 = 1;
        while depth <= max_depth
            invariant_except_break
                forall|k: int| 0 <= k < progress@.len() ==> (#[trigger] progress@[k]).depth < depth,
            invariant
                self.wf(),
                1 <= depth,
                root_moves@ == spec_board_moves(*board),
                root_moves@.len() > 0,
                best matches Some(m) ==> root_moves@.contains(m),
                forall|k: int|
                    0 <= k < progress@.len() ==> root_moves@.contains(
                        (#[trigger] progress@[k]).best_move,
                    ),
                forall|k: int|
                    0 <= k < progress@.len() ==> 1 <= (#[trigger] progress@[k]).depth <= max_depth,
                forall|k: int|
                    0 <= k < progress@.len() ==> (#[trigger] progress@[k]).cp_score
                        == spec_scaled_cp(progress@[k].score),
                forall|i: int, j: int|
                    0 <= i < j < progress@.len() ==> progress@[i].depth < progress@[j].depth,
                progress@.len() > 0 ==> best == Some(progress@.last().best_move),
                forall|d: DepthReport| #[trigger] call_requires(progress_sink, (d,)),
            decreases max_depth - depth,
        {
            if self.cancelled(&start_time, max_time) {
                break ;
            }
            let results = par_root_scores(
                self,
                board,
                &root_moves,
                depth - 1,
                max_time,
                &start_time,
                maximizing,
                best,
            );
            if self.cancelled(&start_time, max_time) {
                // discard this depth's results; keep the previous best
                break ;
            }
            let (best_score, idx, aborted) = select_best(&results, maximizing);
            if let Some(k) = idx {
                best = Some(results[k].1);
            }
            if let Some(bm) = best {
                let report = DepthReport {
                    depth,
                    score: best_score,
                    cp_score: scaled_cp(best_score),
                    best_move: bm,
                    nodes: self.node_count.read(),
                };
                progress_sink(report);
                progress.push(report);
            }
            if aborted {
                break ;
            }
            if depth == max_depth {
                break ;
            }
            depth += 1;
        }
        self.node_count.reset();
        let chosen = match best {
            Some(m) => m,
            Option::None => root_moves[0],
        };
        SearchOutcome { best_move: Some(chosen), progress }
    }
}

/// Relies on rayon's parallel iterators (`par_iter().map().collect()`):
/// the closure runs once per root move, possibly on other threads, and
/// the collected results keep the input order, pairing each score with
/// its move.
#[verifier::external_body]
fn par_root_scores<F: Fn(Vec<u8>) -> i64 + Send + Sync>(
    algo: &SearchAlgorithm<F>,
    board: &pleco::Board,
    moves: &Vec<u16>,
    child_depth: u32,
    max_time: u128,
    start_time: &std::time::Instant,
    maximizing: bool,
    best_move: Option<u16>,
) -> (r: Vec<(i64, u16)>)
    requires
        algo.wf(),
        forall|k: int| 0 <= k < moves@.len() ==> spec_board_moves(*board).contains(
            #[trigger] moves@[k],
        ),
    ensures
        r@.len() == moves@.len(),
        forall|k: int| 0 <= k < r@.len() ==> (#[trigger] r@[k]).1 == moves@[k],
{
    moves.par_iter().map(|m: &u16| {
        let s = algo.eval_root_move(board, *m, child_depth, max_time, start_time, maximizing, best_move);
        (s.0, *m)
    }).collect()
}

} // verus!
