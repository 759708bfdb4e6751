//! Pieces, their heuristic values, and their slots in the feature
//! encoding.  The board collaborator reports pieces as small integer
//! codes; everything downstream works on these enums.
use vstd::prelude::*;

verus! {

/// A colored piece, or `Empty` for a bare square.
#[derive(PartialEq, Eq, Structural, Clone, Copy, Debug)]
pub enum Piece {
    Empty,
    WhitePawn,
    WhiteKnight,
    WhiteBishop,
    WhiteRook,
    WhiteQueen,
    WhiteKing,
    BlackPawn,
    BlackKnight,
    BlackBishop,
    BlackRook,
    BlackQueen,
    BlackKing,
}

/// A piece kind without color.
#[derive(PartialEq, Eq, Structural, Clone, Copy, Debug)]
pub enum PieceType {
    Empty,
    P,
    N,
    B,
    R,
    Q,
    K,
}

/// Decodes the board collaborator's nibble code for a piece: `0` is an
/// empty square, `1..=6` are White pawn, knight, bishop, rook, queen and
/// king, `9..=14` the Black pieces in the same order.  Codes outside that
/// range decode to `Empty`.
pub open spec fn spec_piece_from_code(code: u8) -> Piece {
    if code == 1 {
        Piece::WhitePawn
    } else if code == 2 {
        Piece::WhiteKnight
    } else if code == 3 {
        Piece::WhiteBishop
    } else if code == 4 {
        Piece::WhiteRook
    } else if code == 5 {
        Piece::WhiteQueen
    } else if code == 6 {
        Piece::WhiteKing
    } else if code == 9 {
        Piece::BlackPawn
    } else if code == 10 {
        Piece::BlackKnight
    } else if code == 11 {
        Piece::BlackBishop
    } else if code == 12 {
        Piece::BlackRook
    } else if code == 13 {
        Piece::BlackQueen
    } else if code == 14 {
        Piece::BlackKing
    } else {
        Piece::Empty
    }
}

/// Exec mirror of [`spec_piece_from_code`].
pub fn piece_from_code(code: u8) -> (p: Piece)
    ensures
        p == spec_piece_from_code(code),
{
    match code {
        1 => Piece::WhitePawn,
        2 => Piece::WhiteKnight,
        3 => Piece::WhiteBishop,
        4 => Piece::WhiteRook,
        5 => Piece::WhiteQueen,
        6 => Piece::WhiteKing,
        9 => Piece::BlackPawn,
        10 => Piece::BlackKnight,
        11 => Piece::BlackBishop,
        12 => Piece::BlackRook,
        13 => Piece::BlackQueen,
        14 => Piece::BlackKing,
        _ => Piece::Empty,
    }
}

/// The kind of a piece, color erased.
pub open spec fn spec_type_of(p: Piece) -> PieceType {
    match p {
        Piece::Empty => PieceType::Empty,
        Piece::WhitePawn => PieceType::P,
        Piece::WhiteKnight => PieceType::N,
        Piece::WhiteBishop => PieceType::B,
        Piece::WhiteRook => PieceType::R,
        Piece::WhiteQueen => PieceType::Q,
        Piece::WhiteKing => PieceType::K,
        Piece::BlackPawn => PieceType::P,
        Piece::BlackKnight => PieceType::N,
        Piece::BlackBishop => PieceType::B,
        Piece::BlackRook => PieceType::R,
        Piece::BlackQueen => PieceType::Q,
        Piece::BlackKing => PieceType::K,
    }
}

/// Exec mirror of [`spec_type_of`].
pub fn type_of_piece(p: Piece) -> (t: PieceType)
    ensures
        t == spec_type_of(p),
{
    match p {
        Piece::Empty => PieceType::Empty,
        Piece::WhitePawn | Piece::BlackPawn => PieceType::P,
        Piece::WhiteKnight | Piece::BlackKnight => PieceType::N,
        Piece::WhiteBishop | Piece::BlackBishop => PieceType::B,
        Piece::WhiteRook | Piece::BlackRook => PieceType::R,
        Piece::WhiteQueen | Piece::BlackQueen => PieceType::Q,
        Piece::WhiteKing | Piece::BlackKing => PieceType::K,
    }
}

/// Heuristic worth of a piece kind for capture ordering: pawn 1, knight
/// and bishop 3, rook 5, queen 9.  The king's 1000 is a defensive guard
/// value only, since a king capture is never legal.  Empty squares are
/// worth 0.
pub open spec fn spec_piece_value(t: PieceType) -> i32 {
    match t {
        PieceType::P => 1,
        PieceType::N => 3,
        PieceType::B => 3,
        PieceType::R => 5,
        PieceType::Q => 9,
        PieceType::K => 1000,
        PieceType::Empty => 0,
    }
}

/// Exec mirror of [`spec_piece_value`].
pub fn piece_value(t: PieceType) -> (v: i32)
    ensures
        v == spec_piece_value(t),
        0 <= v <= 1000,
{
    match t {
        PieceType::P => 1,
        PieceType::N => 3,
        PieceType::B => 3,
        PieceType::R => 5,
        PieceType::Q => 9,
        PieceType::K => 1000,
        PieceType::Empty => 0,
    }
}

/// Base index of a piece's 64-square one-hot block in the feature
/// encoding; blocks run pawn, rook, knight, bishop, queen, king for
/// White, then the same for Black.
pub open spec fn spec_piece_offset(p: Piece) -> i32 {
    match p {
        Piece::WhitePawn => 0,
        Piece::WhiteRook => 64,
        Piece::WhiteKnight => 128,
        Piece::WhiteBishop => 192,
        Piece::WhiteQueen => 256,
        Piece::WhiteKing => 320,
        Piece::BlackPawn => 384,
        Piece::BlackRook => 448,
        Piece::BlackKnight => 512,
        Piece::BlackBishop => 576,
        Piece::BlackQueen => 640,
        Piece::BlackKing => 704,
        Piece::Empty => 0,
    }
}

/// Exec mirror of [`spec_piece_offset`].  An empty square has no slot in
/// the encoding, so `Empty` is excluded rather than mapped.
pub fn piece_to_offset(piece: Piece) -> (off: i32)
    requires
        piece != Piece::Empty,
    ensures
        off == spec_piece_offset(piece),
        0 <= off <= 704,
        off % 64 == 0,
{
    match piece {
        Piece::WhitePawn => 0,
        Piece::WhiteRook => 64,
        Piece::WhiteKnight => 128,
        Piece::WhiteBishop => 192,
        Piece::WhiteQueen => 256,
        Piece::WhiteKing => 320,
        Piece::BlackPawn => 384,
        Piece::BlackRook => 448,
        Piece::BlackKnight => 512,
        Piece::BlackBishop => 576,
        Piece::BlackQueen => 640,
        Piece::BlackKing => 704,
        Piece::Empty => 0,
    }
}

} // verus!
