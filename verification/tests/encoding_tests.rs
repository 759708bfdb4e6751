//! The feature encoding and its piece-block layout.
use brainstorm::encoding::board_to_bitboard;
use brainstorm::encoding::encode_features;
use brainstorm::pieces::Piece;
use brainstorm::pieces::piece_from_code;
use brainstorm::pieces::piece_to_offset;
use brainstorm::score::scaled_cp;
use pleco::Board;

#[test]
fn offsets_follow_the_block_layout() {
    assert_eq!(piece_to_offset(Piece::WhitePawn), 0);
    assert_eq!(piece_to_offset(Piece::WhiteRook), 64);
    assert_eq!(piece_to_offset(Piece::WhiteKnight), 128);
    assert_eq!(piece_to_offset(Piece::WhiteBishop), 192);
    assert_eq!(piece_to_offset(Piece::WhiteQueen), 256);
    assert_eq!(piece_to_offset(Piece::WhiteKing), 320);
    assert_eq!(piece_to_offset(Piece::BlackPawn), 384);
    assert_eq!(piece_to_offset(Piece::BlackRook), 448);
    assert_eq!(piece_to_offset(Piece::BlackKnight), 512);
    assert_eq!(piece_to_offset(Piece::BlackBishop), 576);
    assert_eq!(piece_to_offset(Piece::BlackQueen), 640);
    assert_eq!(piece_to_offset(Piece::BlackKing), 704);
}

#[test]
fn piece_codes_decode_like_the_collaborator() {
    assert_eq!(piece_from_code(0), Piece::Empty);
    assert_eq!(piece_from_code(1), Piece::WhitePawn);
    assert_eq!(piece_from_code(6), Piece::WhiteKing);
    assert_eq!(piece_from_code(7), Piece::Empty);
    assert_eq!(piece_from_code(8), Piece::Empty);
    assert_eq!(piece_from_code(9), Piece::BlackPawn);
    assert_eq!(piece_from_code(14), Piece::BlackKing);
    assert_eq!(piece_from_code(15), Piece::Empty);
}

#[test]
fn start_position_encoding() {
    let v = board_to_bitboard(&Board::start_pos());
    assert_eq!(v.len(), 775);
    // White pawns fill their second rank inside the pawn block
    for sq in 8..16 {
        assert_eq!(v[sq], 1, "white pawn slot {}", sq);
    }
    // rooks a1 and h1, block base 64
    assert_eq!(v[64], 1);
    assert_eq!(v[64 + 7], 1);
    // knights b1 and g1, block base 128
    assert_eq!(v[128 + 1], 1);
    assert_eq!(v[128 + 6], 1);
    // bishops c1 and f1, queen d1, king e1
    assert_eq!(v[192 + 2], 1);
    assert_eq!(v[192 + 5], 1);
    assert_eq!(v[256 + 3], 1);
    assert_eq!(v[320 + 4], 1);
    // Black pawns on their seventh rank
    for sq in 48..56 {
        assert_eq!(v[384 + sq], 1, "black pawn slot {}", sq);
    }
    // Black king e8
    assert_eq!(v[704 + 60], 1);
    // White to move, no check, all four castling rights
    assert_eq!(v[768], 1);
    assert_eq!(v[769], 0);
    assert_eq!(v[770], 0);
    assert_eq!(&v[771..775], &[1, 1, 1, 1]);
    // 32 pieces, the turn flag, four castling flags
    let ones: usize = v.iter().map(|&b| b as usize).sum();
    assert_eq!(ones, 37);
}

#[test]
fn black_to_move_and_check_flags() {
    // Black to move and in check
    let board = Board::from_fen("rnbqkbnr/ppp2ppp/8/1B1pp3/4P3/8/PPPP1PPP/RNBQK1NR b KQkq - 1 3")
        .unwrap();
    assert!(board.in_check());
    let v = board_to_bitboard(&board);
    assert_eq!(v[768], 0, "Black to move");
    assert_eq!(v[769], 0, "White is not in check");
    assert_eq!(v[770], 1, "Black is in check");
}

#[test]
fn encode_features_ignores_bad_placements() {
    // square out of range and an unknown piece code light no slot
    let places = vec![(70u8, 1u8), (3u8, 8u8), (3u8, 1u8)];
    let v = encode_features(&places, true, false, false, false, false, false);
    let ones: usize = v.iter().map(|&b| b as usize).sum();
    // only the real white pawn on square 3, plus the turn flag
    assert_eq!(ones, 2);
    assert_eq!(v[3], 1);
    assert_eq!(v[768], 1);
}

#[test]
fn display_scaling_is_exact_until_it_saturates() {
    assert_eq!(scaled_cp(0), 0);
    assert_eq!(scaled_cp(4), 10_000);
    assert_eq!(scaled_cp(-4), -10_000);
    assert_eq!(scaled_cp(i64::MAX), i64::MAX);
    assert_eq!(scaled_cp(i64::MIN), i64::MIN);
    assert_eq!(scaled_cp(i64::MAX / 2), i64::MAX);
    assert_eq!(scaled_cp(i64::MIN / 2), i64::MIN);
}
