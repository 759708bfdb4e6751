//! The search driver: terminal scores, leaf evaluation, memo handling,
//! repetition draws, cancellation, and a full opening search.
use brainstorm::driver::SearchAlgorithm;
use brainstorm::tables::RepetitionLedger;
use brainstorm::tables::StopFlag;
use pleco::Board;
use std::time::Instant;

const BIG_TIME: u128 = 1_000_000_000;

fn fixed_eval(score: i64) -> impl Fn(Vec<u8>) -> i64 + Send + Sync {
    move |_v: Vec<u8>| score
}

/// A deterministic material count over the feature encoding: pawn 100,
/// knight and bishop 300, rook 500, queen 900, White minus Black.
fn material_eval() -> impl Fn(Vec<u8>) -> i64 + Send + Sync {
    |v: Vec<u8>| {
        let block_worth = [100i64, 500, 300, 300, 900, 0];
        let mut score = 0i64;
        for block in 0..12 {
            let worth = block_worth[block % 6];
            let sign = if block < 6 { 1 } else { -1 };
            for sq in 0..64 {
                if v[block * 64 + sq] == 1 {
                    score += sign * worth;
                }
            }
        }
        score
    }
}

fn fresh(score: i64) -> SearchAlgorithm<impl Fn(Vec<u8>) -> i64 + Send + Sync> {
    SearchAlgorithm::new(fixed_eval(score), None, RepetitionLedger::new())
}

// fool's mate: White is checkmated, White to move
const MATED_FEN: &str = "rnb1kbnr/pppp1ppp/8/4p3/6Pq/5P2/PPPPP2P/RNBQKBNR w KQkq - 1 3";

// Black to move is stalemated
const STALEMATE_FEN: &str = "7k/5Q2/6K1/8/8/8/8/8 b - - 0 1";

#[test]
fn checkmate_scores_the_opponents_extreme() {
    let board = Board::from_fen(MATED_FEN).unwrap();
    assert!(board.checkmate());
    for depth in [0u32, 1, 3] {
        let algo = fresh(42);
        let start = Instant::now();
        // White to move and mated: the extreme favoring Black
        let score = algo.minimax(&board, depth, BIG_TIME, &start, i64::MIN, i64::MAX, true, None).0;
        assert_eq!(score, i64::MIN);
    }
}

#[test]
fn stalemate_scores_neutral() {
    let board = Board::from_fen(STALEMATE_FEN).unwrap();
    assert!(board.stalemate());
    for depth in [0u32, 1, 3] {
        let algo = fresh(42);
        let start = Instant::now();
        let score = algo.minimax(&board, depth, BIG_TIME, &start, i64::MIN, i64::MAX, false, None).0;
        assert_eq!(score, 0);
    }
}

#[test]
fn depth_zero_returns_the_evaluator_output() {
    let board = Board::start_pos();
    let algo = fresh(42);
    let start = Instant::now();
    let score = algo.minimax(&board, 0, BIG_TIME, &start, i64::MIN, i64::MAX, true, None).0;
    assert_eq!(score, 42);
}

#[test]
fn same_position_same_depth_same_score() {
    let board = Board::start_pos();
    let start = Instant::now();
    let first = fresh(17).minimax(&board, 2, BIG_TIME, &start, i64::MIN, i64::MAX, true, None).0;
    let second = fresh(17).minimax(&board, 2, BIG_TIME, &start, i64::MIN, i64::MAX, true, None).0;
    assert_eq!(first, second);
}

#[test]
fn stale_memo_entry_changes_nothing() {
    let board = Board::start_pos();
    let start = Instant::now();
    let baseline = fresh(17).minimax(&board, 2, BIG_TIME, &start, i64::MIN, i64::MAX, true, None).0;
    let algo = fresh(17);
    // a shallower entry for the root must be ignored at depth 2
    algo.transposition_table.store(board.fen(), 999_999, 0);
    let with_stale = algo.minimax(&board, 2, BIG_TIME, &start, i64::MIN, i64::MAX, true, None).0;
    assert_eq!(with_stale, baseline);
}

#[test]
fn fresh_memo_entry_is_returned() {
    let board = Board::start_pos();
    let algo = fresh(17);
    algo.transposition_table.store(board.fen(), 1234, 5);
    let start = Instant::now();
    let score = algo.minimax(&board, 2, BIG_TIME, &start, i64::MIN, i64::MAX, true, None).0;
    assert_eq!(score, 1234);
}

#[test]
fn reset_game_clears_the_memo() {
    let board = Board::start_pos();
    let algo = fresh(17);
    algo.transposition_table.store(board.fen(), 1234, 5);
    algo.reset_game();
    let start = Instant::now();
    let score = algo.minimax(&board, 0, BIG_TIME, &start, i64::MIN, i64::MAX, true, None).0;
    assert_eq!(score, 17);
}

#[test]
fn threefold_repetition_scores_neutral() {
    let board = Board::start_pos();
    let ledger = RepetitionLedger::new();
    ledger.note(&board.fen());
    ledger.note(&board.fen());
    ledger.note(&board.fen());
    let algo = SearchAlgorithm::new(fixed_eval(42), None, ledger);
    let start = Instant::now();
    for depth in [1u32, 2] {
        let score = algo.minimax(&board, depth, BIG_TIME, &start, i64::MIN, i64::MAX, true, None).0;
        assert_eq!(score, 0);
    }
}

#[test]
fn two_repetitions_do_not_draw() {
    let board = Board::start_pos();
    let ledger = RepetitionLedger::new();
    ledger.note(&board.fen());
    ledger.note(&board.fen());
    let algo = SearchAlgorithm::new(fixed_eval(42), None, ledger);
    let start = Instant::now();
    let score = algo.minimax(&board, 0, BIG_TIME, &start, i64::MIN, i64::MAX, true, None).0;
    assert_eq!(score, 42);
}

#[test]
fn stop_signal_aborts_a_node_immediately() {
    let board = Board::start_pos();
    let stop = StopFlag::new();
    stop.request_stop();
    let algo = SearchAlgorithm::new(fixed_eval(42), Some(stop), RepetitionLedger::new());
    let start = Instant::now();
    // a huge depth returns at once with the sentinel favoring Black
    let score = algo.minimax(&board, 1_000_000, BIG_TIME, &start, i64::MIN, i64::MAX, true, None).0;
    assert_eq!(score, i64::MIN);
}

#[test]
fn exhausted_time_budget_returns_a_legal_move_promptly() {
    let board = Board::start_pos();
    let legal: Vec<u16> = board.generate_moves().iter().map(|m| m.get_raw()).collect();
    let algo = fresh(42);
    let begun = Instant::now();
    // zero budget: every depth is cancelled before its results apply
    let outcome = algo.search(&board, 1_000_000, 0, |_r| {});
    assert!(begun.elapsed().as_secs() < 10);
    let best = outcome.best_move.expect("the opening position has moves");
    assert!(legal.contains(&best));
}

#[test]
fn search_on_a_moveless_position_returns_none() {
    let board = Board::from_fen(MATED_FEN).unwrap();
    let algo = fresh(42);
    let outcome = algo.search(&board, 2, BIG_TIME, |_r| {});
    assert!(outcome.best_move.is_none());
    assert!(outcome.progress.is_empty());
}

#[test]
fn opening_search_to_depth_three() {
    let board = Board::start_pos();
    let legal: Vec<u16> = board.generate_moves().iter().map(|m| m.get_raw()).collect();
    assert_eq!(legal.len(), 20);
    let algo = SearchAlgorithm::new(material_eval(), None, RepetitionLedger::new());
    let (report_tx, report_rx) = std::sync::mpsc::channel();
    let outcome = algo.search(&board, 3, BIG_TIME, move |r| report_tx.send(r).unwrap());
    let best = outcome.best_move.expect("the opening position has moves");
    // the side channel got the same records, as each depth completed
    let streamed: Vec<_> = report_rx.try_iter().collect();
    assert_eq!(streamed, outcome.progress);
    // the chosen move is the last completed depth's best
    assert_eq!(best, outcome.progress.last().unwrap().best_move);
    assert!(legal.contains(&best));
    let depth3 = outcome
        .progress
        .iter()
        .find(|r| r.depth == 3)
        .expect("depth 3 completed");
    assert!(depth3.score > i64::MIN && depth3.score < i64::MAX);
    assert!(depth3.cp_score > i64::MIN && depth3.cp_score < i64::MAX);
    assert!(legal.contains(&depth3.best_move));
    assert!(depth3.nodes > 0);
}
