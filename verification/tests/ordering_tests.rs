//! Move ordering: hint priority and the capture heuristic.
use brainstorm::ordering::order_moves;
use brainstorm::ordering::mvv_lva_score;
use brainstorm::pieces::PieceType;
use brainstorm::pieces::piece_value;
use pleco::Board;

fn raw_move(board: &Board, uci: &str) -> u16 {
    for m in board.generate_moves().iter() {
        if m.to_string() == uci {
            return m.get_raw();
        }
    }
    panic!("move {} is not legal here", uci);
}

#[test]
fn best_hint_first_killer_second() {
    let board = Board::start_pos();
    let best = raw_move(&board, "e2e4");
    let killer = raw_move(&board, "b1c3");
    let ordered = order_moves(&board, Some(killer), Some(best));
    assert_eq!(ordered.len(), 20);
    assert_eq!(ordered[0], best);
    assert_eq!(ordered[1], killer);
}

#[test]
fn best_hint_alone_leads() {
    let board = Board::start_pos();
    let best = raw_move(&board, "g1f3");
    let ordered = order_moves(&board, None, Some(best));
    assert_eq!(ordered[0], best);
}

#[test]
fn killer_hint_alone_leads() {
    let board = Board::start_pos();
    let killer = raw_move(&board, "d2d4");
    let ordered = order_moves(&board, Some(killer), None);
    assert_eq!(ordered[0], killer);
}

#[test]
fn capture_ranks_before_quiet_moves() {
    // after 1. e4 d5, the pawn capture e4xd5 is the only capture
    let board = Board::from_fen("rnbqkbnr/ppp1pppp/8/3p4/4P3/8/PPPP1PPP/RNBQKBNR w KQkq - 0 2")
        .unwrap();
    let capture = raw_move(&board, "e4d5");
    let ordered = order_moves(&board, None, None);
    assert_eq!(ordered[0], capture);
}

#[test]
fn order_keeps_every_legal_move() {
    let board = Board::start_pos();
    let mut raw: Vec<u16> = board.generate_moves().iter().map(|m| m.get_raw()).collect();
    let mut ordered = order_moves(&board, None, None);
    raw.sort();
    ordered.sort();
    assert_eq!(raw, ordered);
}

#[test]
fn mvv_lva_values() {
    // queen taken by pawn: 1000 * 9 - 1
    assert_eq!(mvv_lva_score(PieceType::Q, PieceType::P), 8999);
    // pawn taken by queen: 1000 * 1 - 9
    assert_eq!(mvv_lva_score(PieceType::P, PieceType::Q), 991);
    // quiet move scores zero
    assert_eq!(mvv_lva_score(PieceType::Empty, PieceType::N), 0);
}

#[test]
fn piece_values_match_the_heuristic() {
    assert_eq!(piece_value(PieceType::P), 1);
    assert_eq!(piece_value(PieceType::N), 3);
    assert_eq!(piece_value(PieceType::B), 3);
    assert_eq!(piece_value(PieceType::R), 5);
    assert_eq!(piece_value(PieceType::Q), 9);
    assert_eq!(piece_value(PieceType::K), 1000);
    assert_eq!(piece_value(PieceType::Empty), 0);
}
