//! A 64-bit board of the 64 squares: bit `i` set means square `i` is
//! occupied. `file = i % 8` (0 = a .. 7 = h), `rank = i / 8` (0 = rank 1
//! .. 7 = rank 8).

use vstd::prelude::*;

use crate::bits::{bit, popcnt, popcnt_below, with_bit, without_bit};

verus! {

#[derive(Copy, Clone, Debug)]
pub struct Bitboard {
    pub board: u64,
}

impl Bitboard {
    /// The empty board.
    pub fn new() -> (r: Bitboard)
        ensures
            r.board == 0u64,
    {
        Bitboard { board: 0 }
    }

    /// The board holding exactly the given bits.
    pub fn from(board: u64) -> (r: Bitboard)
        ensures
            r.board == board,
    {
        Bitboard { board }
    }

    /// Occupy one square.
    pub fn set_square(&mut self, square: u64)
        requires
            square < 64,
        ensures
            final(self).board == with_bit(old(self).board, square),
    {
        self.board = self.board | (1u64 << square);
    }

    /// Free one square.
    pub fn clear_square(&mut self, square: u64)
        requires
            square < 64,
        ensures
            final(self).board == without_bit(old(self).board, square),
    {
        self.board = self.board & !(1u64 << square);
    }

    /// Whether the square is occupied.
    pub fn get_square(&self, square: u64) -> (r: bool)
        requires
            square < 64,
        ensures
            r == bit(self.board, square),
    {
        (self.board & (1u64 << square)) != 0
    }

    pub fn get_board(&self) -> (r: u64)
        ensures
            r == self.board,
    {
        self.board
    }

    pub fn set_board(&mut self, board: u64)
        ensures
            final(self).board == board,
    {
        self.board = board;
    }

    /// How many squares the board occupies.
    pub fn get_num_squares(&self) -> (r: u64)
        ensures
            r == popcnt(self.board),
            r <= 64,
    {
        let mut count: u64 = 0;
        let mut i: u64 = 0;
        while i < 64
            invariant
                i <= 64,
                count == popcnt_below(self.board, i as int),
                count <= i,
            decreases 64 - i,
        {
            if (self.board & (1u64 << i)) != 0 {
                count = count + 1;
            }
            i = i + 1;
        }
        count
    }

    /// Whether the square is free.
    pub fn is_square_empty(&self, square: u64) -> (r: bool)
        requires
            square < 64,
        ensures
            r == !bit(self.board, square),
    {
        !self.get_square(square)
    }
}

} // verus!
