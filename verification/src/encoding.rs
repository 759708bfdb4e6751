//! The fixed 775-slot feature encoding of a position that the leaf
//! evaluator scores: twelve 64-square one-hot blocks of piece
//! placement, then side to move, check flags, and the four castling
//! rights, each as 0 or 1.
use vstd::prelude::*;
use crate::pieces::Piece;
use crate::pieces::spec_piece_from_code;
use crate::pieces::piece_from_code;
use crate::pieces::spec_piece_offset;
use crate::pieces::piece_to_offset;
use crate::board::spec_piece_places;
use crate::board::spec_white_to_move;
use crate::board::spec_board_in_check;
use crate::board::spec_castle_right;
use crate::board::board_piece_places;
use crate::board::board_white_to_move;
use crate::board::board_is_in_check;
use crate::board::board_castle_right;

verus! {

/// Total width of the encoding.
pub const FEATURE_LEN: usize = 775;

/// The encoding slot of a placed piece: its block's base plus its
/// square.
pub open spec fn spec_feature_index(sq: u8, code: u8) -> int {
    spec_piece_offset(spec_piece_from_code(code)) + sq
}

/// Whether some reported placement lights slot `i` of the piece blocks.
pub open spec fn spec_place_sets(places: Seq<(u8, u8)>, i: int) -> bool {
    exists|k: int|
        0 <= k < places.len() && (#[trigger] places[k]).0 < 64 && spec_piece_from_code(places[k].1)
            != Piece::Empty && spec_feature_index(places[k].0, places[k].1) == i
}

/// 1 for true, 0 for false.
pub open spec fn spec_bit(b: bool) -> u8 {
    if b {
        1
    } else {
        0
    }
}

/// The whole feature vector, slot by slot, as a function of what the
/// board reports: piece placements, side to move, check, and the four
/// castling rights in the order White king side, White queen side,
/// Black king side, Black queen side.
pub open spec fn spec_features(
    places: Seq<(u8, u8)>,
    white_turn: bool,
    in_check: bool,
    cwk: bool,
    cwq: bool,
    cbk: bool,
    cbq: bool,
) -> Seq<u8> {
    Seq::new(
        775,
        |i: int|
            if i < 768 {
                spec_bit(spec_place_sets(places, i))
            } else if i == 768 {
                spec_bit(white_turn)
            } else if i == 769 {
                spec_bit(in_check && white_turn)
            } else if i == 770 {
                spec_bit(in_check && !white_turn)
            } else if i == 771 {
                spec_bit(cwk)
            } else if i == 772 {
                spec_bit(cwq)
            } else if i == 773 {
                spec_bit(cbk)
            } else {
                spec_bit(cbq)
            },
    )
}

/// Builds the feature vector from plain values.  Placements with an
/// out-of-range square or an unknown piece code light no slot.
pub fn encode_features(
    places: &Vec<(u8, u8)>,
    white_turn: bool,
    in_check: bool,
    cwk: bool,
    cwq: bool,
    cbk: bool,
    cbq: bool,
) -> (r: Vec<u8>)
    ensures
        r@ == spec_features(places@, white_turn, in_check, cwk, cwq, cbk, cbq),
        r@.len() == 775,
{
    let mut r: Vec<u8> = Vec::new();
    let mut i: usize = 0;
    while i < FEATURE_LEN
        invariant
            i <= 775,
            r@.len() == i,
            forall|j: int| 0 <= j < i ==> r@[j] == 0,
        decreases 775 - i,
    {
        r.push(0);
        i += 1;
    }
    let mut k: usize = 0;
    while k < places.len()
        invariant
            k <= places@.len(),
            r@.len() == 775,
            forall|j: int|
                0 <= j < 768 ==> r@[j] == spec_bit(
                    spec_place_sets(places@.subrange(0, k as int), j),
                ),
            forall|j: int| 768 <= j < 775 ==> r@[j] == 0,
        decreases places@.len() - k,
    {
        let (sq, code) = places[k];
        let piece = piece_from_code(code);
        if sq < 64 && !matches!(piece, Piece::Empty) {
            let off = piece_to_offset(piece);
            let idx: usize = off as usize + sq as usize;
            assert(idx == spec_feature_index(sq, code));
            r[idx] = 1;
        }
        proof {
            let prev = places@.subrange(0, k as int);
            let cur = places@.subrange(0, k as int + 1);
            assert(prev =~= cur.drop_last());
            assert(cur.last() == places@[k as int]);
            assert forall|j: int| 0 <= j < 768 implies r@[j] == spec_bit(
                spec_place_sets(cur, j),
            ) by {
                if spec_place_sets(cur, j) {
                    let w = choose|w: int|
                        0 <= w < cur.len() && (#[trigger] cur[w]).0 < 64 && spec_piece_from_code(
                            cur[w].1,
                        ) != Piece::Empty && spec_feature_index(cur[w].0, cur[w].1) == j;
                    if w < k {
                        assert(prev[w] == cur[w]);
                        assert(spec_place_sets(prev, j));
                    }
                } else {
                    assert(!spec_place_sets(prev, j)) by {
                        if spec_place_sets(prev, j) {
                            let w = choose|w: int|
                                0 <= w < prev.len() && (#[trigger] prev[w]).0 < 64
                                    && spec_piece_from_code(prev[w].1) != Piece::Empty
                                    && spec_feature_index(prev[w].0, prev[w].1) == j;
                            assert(cur[w] == prev[w]);
                        }
                    }
                }
            }
        }
        k += 1;
    }
    assert(places@.subrange(0, places@.len() as int) =~= places@);
    r[768] = if white_turn {
        1
    } else {
        0
    };
    r[769] = if in_check && white_turn {
        1
    } else {
        0
    };
    r[770] = if in_check && !white_turn {
        1
    } else {
        0
    };
    r[771] = if cwk {
        1
    } else {
        0
    };
    r[772] = if cwq {
        1
    } else {
        0
    };
    r[773] = if cbk {
        1
    } else {
        0
    };
    r[774] = if cbq {
        1
    } else {
        0
    };
    assert(r@ =~= spec_features(places@, white_turn, in_check, cwk, cwq, cbk, cbq));
    r
}

/// The expected feature vector of a board, over what the board names.
pub open spec fn spec_board_features(b: pleco::Board) -> Seq<u8> {
    spec_features(
        spec_piece_places(b),
        spec_white_to_move(b),
        spec_board_in_check(b),
        spec_castle_right(b, true, true),
        spec_castle_right(b, true, false),
        spec_castle_right(b, false, true),
        spec_castle_right(b, false, false),
    )
}

/// Reads a position's piece placement, turn, check and castling rights
/// and builds its feature vector.
pub fn board_to_bitboard(board: &pleco::Board) -> (r: Vec<u8>)
    ensures
        r@ == spec_board_features(*board),
        r@.len() == 775,
{
    let places = board_piece_places(board);
    let white_turn = board_white_to_move(board);
    let in_check = board_is_in_check(board);
    let cwk = board_castle_right(board, true, true);
    let cwq = board_castle_right(board, true, false);
    let cbk = board_castle_right(board, false, true);
    let cbq = board_castle_right(board, false, false);
    encode_features(&places, white_turn, in_check, cwk, cwq, cbk, cbq)
}

} // verus!
