//! Decision core of a chess engine: alpha-beta minimax search with a
//! transposition table, killer-move ordering, iterative deepening over
//! parallel root workers, and cooperative cancellation under a time or
//! depth budget.  Board representation, move generation and the leaf
//! evaluator are outside collaborators reached through a narrow trusted
//! boundary; everything that decides is verified.

pub mod pieces;
pub mod score;
pub mod board;
pub mod clock;
pub mod tables;
pub mod decisions;
pub mod driver;
pub mod encoding;
pub mod gametree;
pub mod ordering;
