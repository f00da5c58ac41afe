//! A chess engine built on 64-bit bitboards: position representation with
//! full move legality (captures, en passant, castling, promotion, check
//! detection), a legal-move generator, a material evaluator, and a
//! fixed-depth alpha-beta search, with helpers for splitting root-level
//! search work across a group of peer workers.

pub mod bitboard;
pub mod bits;
pub mod chessboard;
pub mod evaluator;
pub mod min_max;
pub mod next_move_generator;
pub mod exceptions;
pub mod laws;
pub mod piece;
pub mod player;
