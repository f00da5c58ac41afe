//! Error kinds raised at the three levels of the engine: bitboard-level
//! bookkeeping, per-piece geometry checks, and whole-move validation.

use vstd::prelude::*;

verus! {

#[derive(Debug, Clone, Copy, PartialEq, Eq, Structural)]
pub enum BitboardError {
    InvalidSquare,
    SquareOccupied,
    SquareEmpty,
    PieceNotFound,
    InvalidPromotion,
    InvalidCastling,
}

#[derive(Debug, Clone, Copy, PartialEq, Eq, Structural)]
pub enum PieceError {
    OutOfBounds,
    InvalidMove,
    NoPiece,
}

#[derive(Debug, Clone, Copy, PartialEq, Eq, Structural)]
pub enum MoveError {
    InvalidMove,
    InvalidPiece,
    InvalidSquare,
    SquareOccupied,
    SquareEmpty,
    KingInCheck,
    PieceNotFound,
}

} // verus!
