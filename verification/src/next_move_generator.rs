//! The legal-move generator: for every own piece, the candidate
//! destinations from the attack tables, kept when `perform_move`
//! accepts them on a scratch copy. Legality is thereby decided by the
//! same code that executes moves.

use vstd::prelude::*;

use crate::bits::bit;
use crate::chessboard::{colors_ok, side_of, spec_occ, spec_perform_move, Chessboard};
use crate::piece::{bishop_hit, get_bishop_moves, get_king_moves, get_knight_moves, get_pawn_moves,
    get_queen_moves, get_rook_moves, king_hit, knight_hit, pawn_move_hit, queen_hit, rook_hit};
use crate::player::PlayerColor;

verus! {

/// The candidate-destination test the generator applies to a piece of
/// `color` on `from`: the kind boards are consulted in the generator's
/// fixed order (pawns, bishops, king, queen, rooks, knights).
pub open spec fn move_candidate_hit(pos: Chessboard, color: PlayerColor, from: u64, to: u64) -> bool {
    let s = side_of(pos, color);
    if bit(s.pawns.board, from) {
        pawn_move_hit(spec_occ(pos), from, color, to)
    } else if bit(s.bishops.board, from) {
        bishop_hit(spec_occ(pos), from, to)
    } else if bit(s.king.board, from) {
        king_hit(from, to)
    } else if bit(s.queen.board, from) {
        queen_hit(spec_occ(pos), from, to)
    } else if bit(s.rooks.board, from) {
        rook_hit(spec_occ(pos), from, to)
    } else if bit(s.knights.board, from) {
        knight_hit(from, to)
    } else {
        false
    }
}

/// Whether the generator emits the move: a candidate destination
/// whose execution the move rules accept.
pub open spec fn gen_legal(pos: Chessboard, color: PlayerColor, from: u64, to: u64) -> bool {
    move_candidate_hit(pos, color, from, to) && spec_perform_move(pos, from, to, color) is Ok
}

/// The emitted moves among the first `n` of the 64 * 64 (from, to)
/// pairs, in ascending (from, to) order.
pub open spec fn gen_seq_up_to(pos: Chessboard, color: PlayerColor, n: int) -> Seq<(u64, u64)>
    decreases n,
{
    if n <= 0 {
        Seq::empty()
    } else {
        let from = ((n - 1) / 64) as u64;
        let to = ((n - 1) % 64) as u64;
        gen_seq_up_to(pos, color, n - 1) + if gen_legal(pos, color, from, to) {
            seq![(from, to)]
        } else {
            Seq::empty()
        }
    }
}

/// Every move the generator emits, in ascending (from, to) order.
pub open spec fn spec_generated_moves(pos: Chessboard, color: PlayerColor) -> Seq<(u64, u64)> {
    gen_seq_up_to(pos, color, 4096int)
}

/// Each emitted move is accepted by the move rules.
pub proof fn lemma_generated_moves_legal(pos: Chessboard, color: PlayerColor, n: int)
    requires
        0 <= n <= 4096,
    ensures
        forall|j: int|
            0 <= j < gen_seq_up_to(pos, color, n).len() ==> {
                let m = #[trigger] gen_seq_up_to(pos, color, n)[j];
                gen_legal(pos, color, m.0, m.1) && m.0 < 64 && m.1 < 64
            },
    decreases n,
{
    if n > 0 {
        lemma_generated_moves_legal(pos, color, n - 1);
        let s0 = gen_seq_up_to(pos, color, n - 1);
        let s = gen_seq_up_to(pos, color, n);
        let from = ((n - 1) / 64) as u64;
        let to = ((n - 1) % 64) as u64;
        assert(0 <= (n - 1) / 64 < 64 && 0 <= (n - 1) % 64 < 64) by (nonlinear_arith)
            requires
                0 < n <= 4096,
        ;
        assert forall|j: int|
            0 <= j < s.len() implies {
            let m = #[trigger] s[j];
            gen_legal(pos, color, m.0, m.1) && m.0 < 64 && m.1 < 64
        } by {
            if j < s0.len() {
                assert(s[j] == s0[j]);
                assert(s0[j] == gen_seq_up_to(pos, color, n - 1)[j]);
            } else {
                assert(s[j] == ((from, to)));
            }
        }
    }
}

/// All moves of the side the generator finds legal, ascending by
/// origin square and then by destination square.
pub fn generate_next_moves(chessboard: &Chessboard, player_color: PlayerColor) -> (r: Vec<
    (u64, u64),
>)
    requires
        colors_ok(*chessboard),
        chessboard.white.king.board != 0,
        chessboard.black.king.board != 0,
    ensures
        r@ == spec_generated_moves(*chessboard, player_color),
{
    match player_color {
        PlayerColor::White => generate_white_moves(chessboard),
        PlayerColor::Black => generate_black_moves(chessboard),
    }
}

fn generate_white_moves(chessboard: &Chessboard) -> (r: Vec<(u64, u64)>)
    requires
        colors_ok(*chessboard),
        chessboard.white.king.board != 0,
        chessboard.black.king.board != 0,
    ensures
        r@ == spec_generated_moves(*chessboard, PlayerColor::White),
{
    let mut result: Vec<(u64, u64)> = Vec::new();

    let mut square: u64 = 0;
    while square < 64
        invariant
            square <= 64,
            colors_ok(*chessboard),
            chessboard.white.king.board != 0,
            chessboard.black.king.board != 0,
            result@ == gen_seq_up_to(*chessboard, PlayerColor::White, 64 * square as int),
        decreases 64 - square,
    {
        let potential_move = if chessboard.white.pawns.get_square(square) {
            get_pawn_moves(square, PlayerColor::White, chessboard.get_board())
        } else if chessboard.white.bishops.get_square(square) {
            get_bishop_moves(square, chessboard.get_board())
        } else if chessboard.white.king.get_square(square) {
            get_king_moves(square)
        } else if chessboard.white.queen.get_square(square) {
            get_queen_moves(square, chessboard.get_board())
        } else if chessboard.white.rooks.get_square(square) {
            get_rook_moves(square, chessboard.get_board())
        } else if chessboard.white.knights.get_square(square) {
            get_knight_moves(square)
        } else {
            0
        };

        proof {
            crate::bits::lemma_bit_basics();
        }
        add_moves(square, potential_move, chessboard, PlayerColor::White, &mut result);
        square = square + 1;
    }

    result
}

fn generate_black_moves(chessboard: &Chessboard) -> (r: Vec<(u64, u64)>)
    requires
        colors_ok(*chessboard),
        chessboard.white.king.board != 0,
        chessboard.black.king.board != 0,
    ensures
        r@ == spec_generated_moves(*chessboard, PlayerColor::Black),
{
    let mut result: Vec<(u64, u64)> = Vec::new();

    let mut square: u64 = 0;
    while square < 64
        invariant
            square <= 64,
            colors_ok(*chessboard),
            chessboard.white.king.board != 0,
            chessboard.black.king.board != 0,
            result@ == gen_seq_up_to(*chessboard, PlayerColor::Black, 64 * square as int),
        decreases 64 - square,
    {
        let potential_move = if chessboard.black.pawns.get_square(square) {
            get_pawn_moves(square, PlayerColor::Black, chessboard.get_board())
        } else if chessboard.black.bishops.get_square(square) {
            get_bishop_moves(square, chessboard.get_board())
        } else if chessboard.black.king.get_square(square) {
            get_king_moves(square)
        } else if chessboard.black.queen.get_square(square) {
            get_queen_moves(square, chessboard.get_board())
        } else if chessboard.black.rooks.get_square(square) {
            get_rook_moves(square, chessboard.get_board())
        } else if chessboard.black.knights.get_square(square) {
            get_knight_moves(square)
        } else {
            0
        };

        proof {
            crate::bits::lemma_bit_basics();
        }
        add_moves(square, potential_move, chessboard, PlayerColor::Black, &mut result);
        square = square + 1;
    }

    result
}

/// Try every destination bit of the candidate board on a scratch copy
/// of the position and record the moves that succeed.
#[verifier::rlimit(100)]
fn add_moves(
    original: u64,
    new_position_mask: u64,
    chessboard: &Chessboard,
    player_color: PlayerColor,
    result: &mut Vec<(u64, u64)>,
)
    requires
        original < 64,
        colors_ok(*chessboard),
        chessboard.white.king.board != 0,
        chessboard.black.king.board != 0,
        forall|t: u64|
            t < 64 ==> #[trigger] bit(new_position_mask, t) == move_candidate_hit(
                *chessboard,
                player_color,
                original,
                t,
            ),
        old(result)@ == gen_seq_up_to(*chessboard, player_color, 64 * original as int),
    ensures
        final(result)@ == gen_seq_up_to(*chessboard, player_color, 64 * (original + 1) as int),
{
    let mut target: u64 = 0;
    while target < 64
        invariant
            target <= 64,
            original < 64,
            colors_ok(*chessboard),
            chessboard.white.king.board != 0,
            chessboard.black.king.board != 0,
            forall|t: u64|
                t < 64 ==> #[trigger] bit(new_position_mask, t) == move_candidate_hit(
                    *chessboard,
                    player_color,
                    original,
                    t,
                ),
            result@ == gen_seq_up_to(
                *chessboard,
                player_color,
                64 * original as int + target as int,
            ),
        decreases 64 - target,
    {
        proof {
            assert(bit(new_position_mask, target) == move_candidate_hit(
                *chessboard,
                player_color,
                original,
                target,
            ));
        }
        if (new_position_mask & (1u64 << target)) != 0 {
            let mut new_chessboard = chessboard.clone();

            if new_chessboard.perform_move_idx(original, target, player_color).is_ok() {
                result.push((original, target));
                proof {
                    assert(gen_legal(*chessboard, player_color, original, target));
                }
            } else {
                proof {
                    assert(!gen_legal(*chessboard, player_color, original, target));
                }
            }
        } else {
            proof {
                assert(!move_candidate_hit(*chessboard, player_color, original, target));
                assert(!gen_legal(*chessboard, player_color, original, target));
            }
        }
        proof {
            let n = 64 * original as int + target as int + 1;
            assert(((n - 1) / 64) as u64 == original && ((n - 1) % 64) as u64 == target) by (
            nonlinear_arith)
                requires
                    original < 64,
                    target < 64,
                    n == 64 * original as int + target as int + 1,
            ;
            assert(result@ =~= gen_seq_up_to(*chessboard, player_color, n));
        }
        target = target + 1;
    }
}

} // verus!
