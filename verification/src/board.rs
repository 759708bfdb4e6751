//! Trusted boundary around the board/move collaborator (the `pleco`
//! crate).  The board value is opaque; what the search reads from it is
//! named by uninterpreted spec functions, and each wrapper below relays
//! one call of the collaborator and states its result over those names.
//!
//! Moves cross the boundary as their raw 16-bit encoding (source square
//! in bits 0..6, destination square in bits 6..12, flags above), pieces
//! as the collaborator's nibble codes, positions as their canonical FEN
//! key string.
use vstd::prelude::*;

verus! {

#[verifier::external_type_specification]
#[verifier::external_body]
pub struct ExBoard(pleco::Board);

/// The legal moves of the position, raw-encoded, in generation order.
pub uninterp spec fn spec_board_moves(b: pleco::Board) -> Seq<u16>;

/// The canonical FEN key of the position; equal positions have equal
/// keys.
pub uninterp spec fn spec_board_key(b: pleco::Board) -> Seq<char>;

/// Whether White is the side to move.
pub uninterp spec fn spec_white_to_move(b: pleco::Board) -> bool;

/// Whether the side to move has no legal move and is in check.
pub uninterp spec fn spec_board_checkmate(b: pleco::Board) -> bool;

/// Whether the position counts as a stalemate for the side to move.
pub uninterp spec fn spec_board_stalemate(b: pleco::Board) -> bool;

/// Whether the side to move is in check.
pub uninterp spec fn spec_board_in_check(b: pleco::Board) -> bool;

/// The nibble code of the piece on a square (0 for an empty square).
pub uninterp spec fn spec_piece_code_at(b: pleco::Board, sq: u8) -> u8;

/// The occupied squares with their piece codes, in ascending square
/// order.
pub uninterp spec fn spec_piece_places(b: pleco::Board) -> Seq<(u8, u8)>;

/// Whether a side still has the given castling right (king side when
/// `kingside`, else queen side).
pub uninterp spec fn spec_castle_right(b: pleco::Board, white: bool, kingside: bool) -> bool;

/// The source square of a raw move.
pub open spec fn spec_move_src(m: u16) -> u8 {
    (m & 63) as u8
}

/// The destination square of a raw move.
pub open spec fn spec_move_dest(m: u16) -> u8 {
    ((m >> 6) & 63) as u8
}

/// Exec mirror of [`spec_move_src`].
pub fn move_src(m: u16) -> (r: u8)
    ensures
        r == spec_move_src(m),
        r < 64,
{
    proof {
        assert((m & 63) < 64) by (bit_vector);
    }
    (m & 63) as u8
}

/// Exec mirror of [`spec_move_dest`].
pub fn move_dest(m: u16) -> (r: u8)
    ensures
        r == spec_move_dest(m),
        r < 64,
{
    proof {
        assert(((m >> 6) & 63) < 64) by (bit_vector);
    }
    ((m >> 6) & 63) as u8
}

/// Relies on `pleco::Board::generate_moves`: the legal moves of the
/// position in generation order, a set — the generator yields each
/// move once; `BitMove::get_raw` hands out each move's raw 16 bits.
#[verifier::external_body]
pub(crate) fn board_legal_moves(b: &pleco::Board) -> (r: Vec<u16>)
    ensures
        r@ == spec_board_moves(*b),
        r@.no_duplicates(),
{
    b.generate_moves().iter().map(|m| m.get_raw()).collect()
}

/// Relies on `pleco::Board::fen`: the canonical FEN serialization of
/// the position, a pure function of the position.
#[verifier::external_body]
pub(crate) fn board_fen(b: &pleco::Board) -> (r: String)
    ensures
        r@ == spec_board_key(*b),
{
    b.fen()
}

/// Relies on `pleco::Board::turn`: which side is to move.
#[verifier::external_body]
pub(crate) fn board_white_to_move(b: &pleco::Board) -> (r: bool)
    ensures
        r == spec_white_to_move(*b),
{
    matches!(b.turn(), pleco::Player::White)
}

/// Relies on `pleco::Board::checkmate`: the side to move has no legal
/// move while in check.
#[verifier::external_body]
pub(crate) fn board_is_checkmate(b: &pleco::Board) -> (r: bool)
    ensures
        r == spec_board_checkmate(*b),
{
    b.checkmate()
}

/// Relies on `pleco::Board::stalemate`: the side to move is not in
/// check and has no legal move (or the fifty-move rule has run out).
#[verifier::external_body]
pub(crate) fn board_is_stalemate(b: &pleco::Board) -> (r: bool)
    ensures
        r == spec_board_stalemate(*b),
{
    b.stalemate()
}

/// Relies on `pleco::Board::in_check`: the side to move is in check.
#[verifier::external_body]
pub(crate) fn board_is_in_check(b: &pleco::Board) -> (r: bool)
    ensures
        r == spec_board_in_check(*b),
{
    b.in_check()
}

/// Relies on `pleco::Board::piece_at_sq`: the piece standing on the
/// square, reported as its nibble code.
#[verifier::external_body]
pub(crate) fn board_piece_code_at(b: &pleco::Board, sq: u8) -> (r: u8)
    requires
        sq < 64,
    ensures
        r == spec_piece_code_at(*b, sq),
{
    b.piece_at_sq(pleco::SQ(sq)) as u8
}

/// Relies on `pleco::Board::get_piece_locations`: every occupied square
/// with its piece, walked in ascending square order.
#[verifier::external_body]
pub(crate) fn board_piece_places(b: &pleco::Board) -> (r: Vec<(u8, u8)>)
    ensures
        r@ == spec_piece_places(*b),
{
    b.get_piece_locations().into_iter().map(|(sq, p)| (sq.0, p as u8)).collect()
}

/// Relies on `pleco::Board::can_castle`: whether the side keeps the
/// given castling right.
#[verifier::external_body]
pub(crate) fn board_castle_right(b: &pleco::Board, white: bool, kingside: bool) -> (r: bool)
    ensures
        r == spec_castle_right(*b, white, kingside),
{
    let player = if white {
        pleco::Player::White
    } else {
        pleco::Player::Black
    };
    let side = if kingside {
        pleco::core::CastleType::KingSide
    } else {
        pleco::core::CastleType::QueenSide
    };
    b.can_castle(player, side)
}

/// Relies on `pleco::Board::parallel_clone`: an independently owned
/// copy of the same position, safe to hand to another search worker.
#[verifier::external_body]
pub(crate) fn board_duplicate(b: &pleco::Board) -> (r: pleco::Board)
    ensures
        spec_board_moves(r) == spec_board_moves(*b),
        spec_board_key(r) == spec_board_key(*b),
        spec_white_to_move(r) == spec_white_to_move(*b),
        spec_board_checkmate(r) == spec_board_checkmate(*b),
        spec_board_stalemate(r) == spec_board_stalemate(*b),
        spec_board_in_check(r) == spec_board_in_check(*b),
        forall|sq: u8|
            sq < 64 ==> #[trigger] spec_piece_code_at(r, sq) == spec_piece_code_at(*b, sq),
        spec_piece_places(r) == spec_piece_places(*b),
        forall|w: bool, k: bool| #[trigger]
            spec_castle_right(r, w, k) == spec_castle_right(*b, w, k),
{
    b.parallel_clone()
}

/// Relies on `pleco::Board::apply_move`: plays one legal move on the
/// board; the move must come from the position's legal move list.
#[verifier::external_body]
pub(crate) fn board_play_move(b: &mut pleco::Board, m: u16)
    requires
        spec_board_moves(*old(b)).contains(m),
{
    b.apply_move(pleco::BitMove::new(m));
}

} // verus!
