//! Static evaluation: material count per side with a fixed bonus for
//! White, the side the engine plays.

use vstd::prelude::*;

use crate::chessboard::{side_of, Chessboard};
use crate::piece::PieceType;
use crate::player::{spec_piece_at, PlayerColor};

verus! {

pub const PAWN_VALUE: i64 = 1;

pub const KNIGHT_VALUE: i64 = 3;

pub const BISHOP_VALUE: i64 = 3;

pub const ROOK_VALUE: i64 = 5;

pub const QUEEN_VALUE: i64 = 9;

pub const KING_VALUE: i64 = 0;

pub const WHITE_ADVANTAGE: i64 = 10;

/// Total material worth of the side's pieces on squares `0 .. n`.
pub open spec fn spec_material_below(pos: Chessboard, color: PlayerColor, n: int) -> int
    decreases n,
{
    if n <= 0 {
        0
    } else {
        spec_material_below(pos, color, n - 1) + spec_piece_at(
            side_of(pos, color),
            (n - 1) as u64,
        ).spec_value()
    }
}

/// Total material worth of the side's pieces.
pub open spec fn spec_material(pos: Chessboard, color: PlayerColor) -> int {
    spec_material_below(pos, color, 64)
}

/// The static score of the position for the given side: material
/// difference, with the fixed bonus counted on White's side.
pub open spec fn spec_evaluate(pos: Chessboard, color: PlayerColor) -> int {
    let white_material = spec_material(pos, PlayerColor::White) + WHITE_ADVANTAGE;
    let black_material = spec_material(pos, PlayerColor::Black);
    match color {
        PlayerColor::White => white_material - black_material,
        PlayerColor::Black => black_material - white_material,
    }
}

proof fn lemma_material_below_bounds(pos: Chessboard, color: PlayerColor, n: int)
    requires
        0 <= n <= 64,
    ensures
        0 <= spec_material_below(pos, color, n) <= 9 * n,
    decreases n,
{
    if n > 0 {
        lemma_material_below_bounds(pos, color, n - 1);
    }
}

/// Sum the material worth of every piece the side keeps on the board.
fn calculate_material(state: &Chessboard, player_color: PlayerColor) -> (r: i64)
    ensures
        r == spec_material(*state, player_color),
        0 <= r <= 576,
{
    let mut material_value: i64 = 0;
    let mut index: u64 = 0;
    while index < 64
        invariant
            index <= 64,
            material_value == spec_material_below(*state, player_color, index as int),
            0 <= material_value <= 9 * index,
        decreases 64 - index,
    {
        let piece_type = state.get_piece_type_color(player_color, index);

        material_value = material_value + match piece_type {
            PieceType::Pawn => PAWN_VALUE,
            PieceType::Knight => KNIGHT_VALUE,
            PieceType::Bishop => BISHOP_VALUE,
            PieceType::Rook => ROOK_VALUE,
            PieceType::Queen => QUEEN_VALUE,
            PieceType::King => KING_VALUE,
            PieceType::Empty => 0,
        };

        index = index + 1;
    }
    material_value
}

/// The static score of the position for the given side.
pub fn evaluate(state: &Chessboard, player_color: PlayerColor) -> (r: i64)
    ensures
        r == spec_evaluate(*state, player_color),
        -600 <= r <= 600,
{
    let white_material = calculate_material(state, PlayerColor::White) + WHITE_ADVANTAGE;
    let black_material = calculate_material(state, PlayerColor::Black);

    match player_color {
        PlayerColor::White => white_material - black_material,
        PlayerColor::Black => black_material - white_material,
    }
}

} // verus!
