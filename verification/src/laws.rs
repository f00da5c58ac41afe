//! The engine's invariants and laws, stated and proved once for every
//! position and every move the move rules accept: well-formed boards,
//! disjoint sides, one king each, pawns off the edge ranks, the square
//! name round trip, and the exact acceptance conditions of the double
//! pawn push, castling and en passant.

use vstd::prelude::*;

use crate::bits::{bit, lemma_bit_basics, lemma_bit_ext, lemma_popcnt_one_unique,
    lemma_popcnt_single};
use crate::chessboard::{colors_ok, opp_of, side_of, spec_en_passant_victim, spec_finished,
    spec_initial_position, spec_occ, spec_parse_square, spec_perform_move, spec_self_check,
    spec_square_name, Chessboard};
use crate::exceptions::MoveError;
use crate::piece::{lemma_square_decomp, rank_of, spec_attacked, spec_castling_signature,
    spec_diagonal_step, spec_en_passant_ok, PieceType};
use crate::player::{king_start, left_rook_start, one_king, pawn_ranks_ok, right_rook_start,
    side_wf, spec_after_capture, spec_after_move, spec_after_promotion, spec_initial_player,
    spec_piece_at, wf_at, Player, PlayerColor};

verus! {

/// A well-formed position: both sides read consistently and no square
/// is occupied by both colors at once.
pub open spec fn pos_wf(pos: Chessboard) -> bool {
    &&& side_wf(pos.white)
    &&& side_wf(pos.black)
    &&& forall|i: u64|
        i < 64 ==> !(#[trigger] bit(pos.white.pieces.board, i) && bit(pos.black.pieces.board, i))
}

/// On a well-formed side the all-pieces board is the union of the six
/// per-kind boards, and those boards are pairwise disjoint.
pub proof fn lemma_side_union(p: Player)
    requires
        side_wf(p),
    ensures
        p.pieces.board == p.pawns.board | p.knights.board | p.bishops.board | p.rooks.board
            | p.queen.board | p.king.board,
        p.pawns.board & p.knights.board == 0,
        p.pawns.board & p.bishops.board == 0,
        p.pawns.board & p.rooks.board == 0,
        p.pawns.board & p.queen.board == 0,
        p.pawns.board & p.king.board == 0,
        p.knights.board & p.bishops.board == 0,
        p.knights.board & p.rooks.board == 0,
        p.knights.board & p.queen.board == 0,
        p.knights.board & p.king.board == 0,
        p.bishops.board & p.rooks.board == 0,
        p.bishops.board & p.queen.board == 0,
        p.bishops.board & p.king.board == 0,
        p.rooks.board & p.queen.board == 0,
        p.rooks.board & p.king.board == 0,
        p.queen.board & p.king.board == 0,
{
    lemma_bit_basics();
    let union = p.pawns.board | p.knights.board | p.bishops.board | p.rooks.board | p.queen.board
        | p.king.board;
    assert forall|i: u64| i < 64 implies bit(p.pieces.board, i) == bit(union, i) by {
        assert(wf_at(p, i));
    };
    lemma_bit_ext(p.pieces.board, union);
    assert forall|i: u64| i < 64 implies !bit(p.pawns.board & p.knights.board, i) by {
        assert(wf_at(p, i));
    };
    lemma_bit_ext(p.pawns.board & p.knights.board, 0);
    assert forall|i: u64| i < 64 implies !bit(p.pawns.board & p.bishops.board, i) by {
        assert(wf_at(p, i));
    };
    lemma_bit_ext(p.pawns.board & p.bishops.board, 0);
    assert forall|i: u64| i < 64 implies !bit(p.pawns.board & p.rooks.board, i) by {
        assert(wf_at(p, i));
    };
    lemma_bit_ext(p.pawns.board & p.rooks.board, 0);
    assert forall|i: u64| i < 64 implies !bit(p.pawns.board & p.queen.board, i) by {
        assert(wf_at(p, i));
    };
    lemma_bit_ext(p.pawns.board & p.queen.board, 0);
    assert forall|i: u64| i < 64 implies !bit(p.pawns.board & p.king.board, i) by {
        assert(wf_at(p, i));
    };
    lemma_bit_ext(p.pawns.board & p.king.board, 0);
    assert forall|i: u64| i < 64 implies !bit(p.knights.board & p.bishops.board, i) by {
        assert(wf_at(p, i));
    };
    lemma_bit_ext(p.knights.board & p.bishops.board, 0);
    assert forall|i: u64| i < 64 implies !bit(p.knights.board & p.rooks.board, i) by {
        assert(wf_at(p, i));
    };
    lemma_bit_ext(p.knights.board & p.rooks.board, 0);
    assert forall|i: u64| i < 64 implies !bit(p.knights.board & p.queen.board, i) by {
        assert(wf_at(p, i));
    };
    lemma_bit_ext(p.knights.board & p.queen.board, 0);
    assert forall|i: u64| i < 64 implies !bit(p.knights.board & p.king.board, i) by {
        assert(wf_at(p, i));
    };
    lemma_bit_ext(p.knights.board & p.king.board, 0);
    assert forall|i: u64| i < 64 implies !bit(p.bishops.board & p.rooks.board, i) by {
        assert(wf_at(p, i));
    };
    lemma_bit_ext(p.bishops.board & p.rooks.board, 0);
    assert forall|i: u64| i < 64 implies !bit(p.bishops.board & p.queen.board, i) by {
        assert(wf_at(p, i));
    };
    lemma_bit_ext(p.bishops.board & p.queen.board, 0);
    assert forall|i: u64| i < 64 implies !bit(p.bishops.board & p.king.board, i) by {
        assert(wf_at(p, i));
    };
    lemma_bit_ext(p.bishops.board & p.king.board, 0);
    assert forall|i: u64| i < 64 implies !bit(p.rooks.board & p.queen.board, i) by {
        assert(wf_at(p, i));
    };
    lemma_bit_ext(p.rooks.board & p.queen.board, 0);
    assert forall|i: u64| i < 64 implies !bit(p.rooks.board & p.king.board, i) by {
        assert(wf_at(p, i));
    };
    lemma_bit_ext(p.rooks.board & p.king.board, 0);
    assert forall|i: u64| i < 64 implies !bit(p.queen.board & p.king.board, i) by {
        assert(wf_at(p, i));
    };
    lemma_bit_ext(p.queen.board & p.king.board, 0);
}

/// The two sides of a well-formed position occupy no common square.
pub proof fn lemma_sides_disjoint(pos: Chessboard)
    requires
        pos_wf(pos),
    ensures
        pos.white.pieces.board & pos.black.pieces.board == 0,
{
    lemma_bit_basics();
    assert forall|i: u64| i < 64 implies !bit(pos.white.pieces.board & pos.black.pieces.board, i)
    by {
        assert(!(bit(pos.white.pieces.board, i) && bit(pos.black.pieces.board, i)));
    };
    lemma_bit_ext(pos.white.pieces.board & pos.black.pieces.board, 0);
}

/// Moving a piece onto a free square keeps its side well formed.
proof fn lemma_after_move_wf(p: Player, from: u64, to: u64)
    requires
        side_wf(p),
        from < 64,
        to < 64,
        from != to,
        spec_piece_at(p, from) != PieceType::Empty,
        spec_piece_at(p, to) == PieceType::Empty,
    ensures
        side_wf(spec_after_move(p, from, to)),
{
    lemma_bit_basics();
    let p2 = spec_after_move(p, from, to);
    assert forall|i: u64| i < 64 implies wf_at(p2, i) by {
        assert(wf_at(p, i));
        assert(wf_at(p, from));
        assert(wf_at(p, to));
    };
}

/// Removing whatever stands on a square keeps the side well formed.
proof fn lemma_after_capture_wf(p: Player, to: u64)
    requires
        side_wf(p),
        to < 64,
    ensures
        side_wf(spec_after_capture(p, to)),
{
    lemma_bit_basics();
    let p2 = spec_after_capture(p, to);
    assert forall|i: u64| i < 64 implies wf_at(p2, i) by {
        assert(wf_at(p, i));
        assert(wf_at(p, to));
    };
}

/// Promoting the pawn that just reached `position` keeps the side
/// well formed.
proof fn lemma_after_promotion_wf(p: Player, origin: u64, position: u64)
    requires
        side_wf(p),
        origin < 64,
        position < 64,
        origin != position,
        spec_piece_at(p, origin) == PieceType::Pawn,
        spec_piece_at(p, position) == PieceType::Empty,
    ensures
        side_wf(spec_after_promotion(p, origin, position, PieceType::Queen)),
{
    lemma_bit_basics();
    let p2 = spec_after_promotion(p, origin, position, PieceType::Queen);
    assert forall|i: u64| i < 64 implies wf_at(p2, i) by {
        assert(wf_at(p, i));
        assert(wf_at(p, origin));
        assert(wf_at(p, position));
    };
}

/// Every move the rules accept leads from a well-formed position to a
/// well-formed position: each side's all-pieces board stays the
/// disjoint union of its per-kind boards, and the two sides never
/// share a square.
pub proof fn lemma_perform_move_preserves_wf(pos: Chessboard, from: u64, to: u64, color: PlayerColor)
    requires
        pos_wf(pos),
        from < 64,
        to < 64,
        spec_perform_move(pos, from, to, color) is Ok,
    ensures
        pos_wf(spec_perform_move(pos, from, to, color)->Ok_0),
{
    reveal(spec_perform_move);
    lemma_bit_basics();
    let s = side_of(pos, color);
    let o = opp_of(pos, color);
    let kind = spec_piece_at(s, from);
    let p2 = spec_perform_move(pos, from, to, color)->Ok_0;
    if kind == PieceType::Pawn && spec_diagonal_step(from, to) && !bit(pos.white.pieces.board, to)
        && !bit(pos.black.pieces.board, to) {
        // en passant
        let victim = spec_en_passant_victim(to, color);
        assert(spec_en_passant_ok(from, to, color, pos.white, pos.black, spec_occ(pos)));
        proof_en_passant_bounds(to, color);
        assert(wf_at(s, to));
        lemma_after_move_wf(s, from, to);
        lemma_after_capture_wf(o, victim);
        let s2 = spec_after_move(s, from, to);
        let o2 = spec_after_capture(o, victim);
        assert forall|i: u64|
            i < 64 implies !(#[trigger] bit(p2.white.pieces.board, i) && bit(
            p2.black.pieces.board,
            i,
        )) by {
            assert(!(bit(pos.white.pieces.board, i) && bit(pos.black.pieces.board, i)));
        };
    } else if kind == PieceType::Pawn && crate::piece::spec_pawn_promotes(from, to, color) {
        assert(!bit(spec_occ(pos), to));
        assert(wf_at(s, to));
        lemma_after_promotion_wf(s, from, to);
        assert forall|i: u64|
            i < 64 implies !(#[trigger] bit(p2.white.pieces.board, i) && bit(
            p2.black.pieces.board,
            i,
        )) by {
            assert(!(bit(pos.white.pieces.board, i) && bit(pos.black.pieces.board, i)));
        };
    } else if kind == PieceType::King && spec_castling_signature(from, to, color) {
        let kf = king_start(color);
        let (rf, rt) = if to == kf + 2 {
            (right_rook_start(color), (right_rook_start(color) - 2) as u64)
        } else {
            (left_rook_start(color), (left_rook_start(color) + 3) as u64)
        };
        assert(wf_at(s, to));
        assert(wf_at(s, rt));
        lemma_after_move_wf(s, kf, to);
        let a1 = spec_after_move(s, kf, to);
        assert(wf_at(a1, rf));
        assert(wf_at(a1, rt));
        lemma_after_move_wf(a1, rf, rt);
        assert forall|i: u64|
            i < 64 implies !(#[trigger] bit(p2.white.pieces.board, i) && bit(
            p2.black.pieces.board,
            i,
        )) by {
            assert(!(bit(pos.white.pieces.board, i) && bit(pos.black.pieces.board, i)));
        };
    } else {
        // ordinary move
        assert(!bit(s.pieces.board, to));
        assert(wf_at(s, to));
        lemma_after_move_wf(s, from, to);
        lemma_after_capture_wf(o, to);
        let o2 = spec_after_capture(o, to);
        assert forall|i: u64| i < 64 implies wf_at(p2.white, i) && wf_at(p2.black, i) by {
            assert(wf_at(spec_after_move(s, from, to), i));
            assert(wf_at(o2, i));
        };
        assert forall|i: u64|
            i < 64 implies !(#[trigger] bit(p2.white.pieces.board, i) && bit(
            p2.black.pieces.board,
            i,
        )) by {
            assert(!(bit(pos.white.pieces.board, i) && bit(pos.black.pieces.board, i)));
        };
    }
}

/// The rank bounds of an en passant destination.
proof fn proof_en_passant_bounds(to: u64, color: PlayerColor)
    requires
        to < 64,
    ensures
        8 <= to < 56 ==> spec_en_passant_victim(to, color) < 64,
{
    lemma_square_decomp(to);
}

/// A side that keeps exactly one king still does after its piece
/// moves, and the move leaves the king where expected.
proof fn lemma_after_move_king(p: Player, from: u64, to: u64)
    requires
        from < 64,
        to < 64,
        one_king(p),
        side_wf(p),
    ensures
        one_king(spec_after_move(p, from, to)),
        spec_after_move(p, from, to).king.board != 0,
{
    lemma_bit_basics();
    let p2 = spec_after_move(p, from, to);
    if spec_piece_at(p, from) == PieceType::King {
        assert(bit(p.king.board, from));
        lemma_popcnt_one_unique(p.king.board, from);
        assert forall|i: u64| i < 64 implies bit(p2.king.board, i) == bit(1u64 << to, i) by {};
        lemma_bit_ext(p2.king.board, 1u64 << to);
        lemma_popcnt_single(to);
        assert(bit(p2.king.board, to));
    } else {
        assert(p2.king.board == p.king.board);
        crate::bits::lemma_popcnt_zero_iff(p.king.board);
    }
}

/// Every accepted move leaves each side with exactly one king: a
/// destination holding the opposing king is rejected for every piece
/// kind, and en passant removes only a pawn.
pub proof fn lemma_perform_move_preserves_kings(
    pos: Chessboard,
    from: u64,
    to: u64,
    color: PlayerColor,
)
    requires
        pos_wf(pos),
        one_king(pos.white),
        one_king(pos.black),
        from < 64,
        to < 64,
        spec_perform_move(pos, from, to, color) is Ok,
    ensures
        one_king(spec_perform_move(pos, from, to, color)->Ok_0.white),
        one_king(spec_perform_move(pos, from, to, color)->Ok_0.black),
{
    reveal(spec_perform_move);
    lemma_bit_basics();
    let s = side_of(pos, color);
    let o = opp_of(pos, color);
    let kind = spec_piece_at(s, from);
    let p2 = spec_perform_move(pos, from, to, color)->Ok_0;
    if kind == PieceType::Pawn && spec_diagonal_step(from, to) && !bit(pos.white.pieces.board, to)
        && !bit(pos.black.pieces.board, to) {
        let victim = spec_en_passant_victim(to, color);
        lemma_after_move_king(s, from, to);
        assert(spec_en_passant_ok(from, to, color, pos.white, pos.black, spec_occ(pos)));
        assert(bit(o.pawns.board, victim));
        assert(spec_piece_at(o, victim) == PieceType::Pawn);
        assert(spec_after_capture(o, victim).king.board == o.king.board);
    } else if kind == PieceType::Pawn && crate::piece::spec_pawn_promotes(from, to, color) {
        let m = spec_after_move(s, from, to);
        lemma_after_move_king(s, from, to);
        assert(spec_after_promotion(s, from, to, PieceType::Queen).king.board == m.king.board);
    } else if kind == PieceType::King && spec_castling_signature(from, to, color) {
        let kf = king_start(color);
        let (rf, rt) = if to == kf + 2 {
            (right_rook_start(color), (right_rook_start(color) - 2) as u64)
        } else {
            (left_rook_start(color), (left_rook_start(color) + 3) as u64)
        };
        lemma_after_move_king(s, kf, to);
        assert(wf_at(s, to));
        lemma_after_move_wf(s, kf, to);
        let a1 = spec_after_move(s, kf, to);
        assert(wf_at(a1, rf));
        assert(spec_piece_at(a1, rf) != PieceType::King) by {
            assert(bit(a1.rooks.board, rf));
            assert(wf_at(s, rf));
            assert(wf_at(a1, rf));
        }
        lemma_after_move_king(a1, rf, rt);
        assert(spec_after_move(a1, rf, rt).king.board == a1.king.board);
    } else {
        lemma_after_move_king(s, from, to);
        assert(spec_piece_at(o, to) != PieceType::King);
        assert(spec_after_capture(o, to).king.board == o.king.board);
    }
}

/// Every accepted move other than a diagonal pawn capture landing on
/// the first or last rank keeps both sides' pawns off those ranks.
pub proof fn lemma_perform_move_preserves_pawn_ranks(
    pos: Chessboard,
    from: u64,
    to: u64,
    color: PlayerColor,
)
    requires
        pos_wf(pos),
        pawn_ranks_ok(pos.white),
        pawn_ranks_ok(pos.black),
        from < 64,
        to < 64,
        spec_perform_move(pos, from, to, color) is Ok,
        !(spec_piece_at(side_of(pos, color), from) == PieceType::Pawn && spec_diagonal_step(
            from,
            to,
        ) && (rank_of(to) == 0 || rank_of(to) == 7)),
    ensures
        pawn_ranks_ok(spec_perform_move(pos, from, to, color)->Ok_0.white),
        pawn_ranks_ok(spec_perform_move(pos, from, to, color)->Ok_0.black),
{
    reveal(spec_perform_move);
    lemma_bit_basics();
    lemma_square_decomp(from);
    lemma_square_decomp(to);
    let s = side_of(pos, color);
    let o = opp_of(pos, color);
    let kind = spec_piece_at(s, from);
    let p2 = spec_perform_move(pos, from, to, color)->Ok_0;
    assert forall|i: u64| i < 64 && #[trigger] bit(p2.white.pawns.board, i) implies 8 <= i < 56 by {
        law_pawn_rank_witness(pos, from, to, color, i);
    };
    assert forall|i: u64| i < 64 && #[trigger] bit(p2.black.pawns.board, i) implies 8 <= i < 56 by {
        law_pawn_rank_witness(pos, from, to, color, i);
    };
}

proof fn law_pawn_rank_witness(pos: Chessboard, from: u64, to: u64, color: PlayerColor, i: u64)
    requires
        pos_wf(pos),
        pawn_ranks_ok(pos.white),
        pawn_ranks_ok(pos.black),
        from < 64,
        to < 64,
        i < 64,
        spec_perform_move(pos, from, to, color) is Ok,
        !(spec_piece_at(side_of(pos, color), from) == PieceType::Pawn && spec_diagonal_step(
            from,
            to,
        ) && (rank_of(to) == 0 || rank_of(to) == 7)),
    ensures
        bit(spec_perform_move(pos, from, to, color)->Ok_0.white.pawns.board, i) ==> 8 <= i < 56,
        bit(spec_perform_move(pos, from, to, color)->Ok_0.black.pawns.board, i) ==> 8 <= i < 56,
{
    reveal(spec_perform_move);
    lemma_bit_basics();
    lemma_square_decomp(from);
    lemma_square_decomp(to);
    let s = side_of(pos, color);
    let kind = spec_piece_at(s, from);
    if kind == PieceType::Pawn && !(spec_diagonal_step(from, to) && !bit(
        pos.white.pieces.board,
        to,
    ) && !bit(pos.black.pieces.board, to)) && !crate::piece::spec_pawn_promotes(from, to, color) {
        // ordinary pawn move: the geometry stage bounds the destination rank
        assert(crate::piece::spec_pawn_ok(from, to, color));
        if i == to {
            assert(8 <= to < 56);
        }
    }
}

/// The starting position is well formed, keeps one king on each side,
/// its pawns stand on the second and seventh ranks, and its color
/// slots are straight.
pub proof fn lemma_initial_position_wf()
    ensures
        pos_wf(spec_initial_position()),
        one_king(spec_initial_position().white),
        one_king(spec_initial_position().black),
        pawn_ranks_ok(spec_initial_position().white),
        pawn_ranks_ok(spec_initial_position().black),
        colors_ok(spec_initial_position()),
        !spec_finished(spec_initial_position()),
{
    lemma_bit_basics();
    crate::player::lemma_initial_bits();
    let w = spec_initial_player(PlayerColor::White);
    let b = spec_initial_player(PlayerColor::Black);
    assert forall|i: u64| i < 64 implies wf_at(w, i) by {};
    assert forall|i: u64| i < 64 implies wf_at(b, i) by {};
    assert(0x10u64 == 1u64 << 4u64 && 0x1000_0000_0000_0000u64 == 1u64 << 60u64) by (bit_vector);
    lemma_popcnt_single(4);
    lemma_popcnt_single(60);
}

/// A square name renders and parses back to the same index.
pub proof fn lemma_square_name_round_trip(i: u64)
    requires
        i < 64,
    ensures
        spec_parse_square(spec_square_name(i)) == Some(i),
{
    lemma_square_decomp(i);
}

/// The square a two-square pawn push steps over.
pub open spec fn spec_push_crossed(from: u64, color: PlayerColor) -> u64 {
    match color {
        PlayerColor::White => (from + 8) as u64,
        PlayerColor::Black => (from - 8) as u64,
    }
}

/// The two-square pawn push from the starting rank is accepted
/// exactly when the crossed square and the destination are both free
/// and the push does not leave the mover's own king attacked.
pub proof fn lemma_double_push_iff(pos: Chessboard, from: u64, to: u64, color: PlayerColor)
    requires
        pos_wf(pos),
        from < 64,
        to < 64,
        spec_piece_at(side_of(pos, color), from) == PieceType::Pawn,
        match color {
            PlayerColor::White => rank_of(from) == 1 && to == from + 16,
            PlayerColor::Black => rank_of(from) == 6 && from == to + 16,
        },
    ensures
        spec_perform_move(pos, from, to, color) is Ok <==> (!bit(
            spec_occ(pos),
            spec_push_crossed(from, color),
        ) && !bit(spec_occ(pos), to) && !spec_self_check(pos, from, to, color)),
{
    reveal(spec_perform_move);
    lemma_bit_basics();
    lemma_square_decomp(from);
    lemma_square_decomp(to);
    let s = side_of(pos, color);
    let o = opp_of(pos, color);
    let mid = spec_push_crossed(from, color);
    lemma_square_decomp(mid);
    assert(wf_at(s, to));
    assert(wf_at(o, to));
    assert(crate::piece::spec_pawn_ok(from, to, color));
    if !bit(spec_occ(pos), mid) && !bit(spec_occ(pos), to) && !spec_self_check(
        pos,
        from,
        to,
        color,
    ) {
        assert(!crate::chessboard::spec_blocked(pos, from, to, color, PieceType::Pawn));
        assert(spec_perform_move(pos, from, to, color) is Ok);
    }
}

/// Castling is rejected whenever the king or the matching rook has
/// moved, the king has been in check, or the opponent attacks the
/// king's square, the square it crosses, or its destination.
pub proof fn lemma_castling_rejected(pos: Chessboard, from: u64, to: u64, color: PlayerColor)
    requires
        pos_wf(pos),
        from < 64,
        to < 64,
        spec_piece_at(side_of(pos, color), from) == PieceType::King,
        spec_castling_signature(from, to, color),
        ({
            let s = side_of(pos, color);
            let o = opp_of(pos, color);
            let occ = spec_occ(pos);
            ||| s.has_king_moved
            ||| s.has_king_been_in_check
            ||| (to == king_start(color) + 2 && s.has_right_rook_moved)
            ||| (to == king_start(color) - 2 && s.has_left_rook_moved)
            ||| spec_attacked(king_start(color), occ, o)
            ||| spec_attacked(((king_start(color) + to as int) / 2) as u64, occ, o)
            ||| spec_attacked(to, occ, o)
        }),
    ensures
        spec_perform_move(pos, from, to, color) == Err::<Chessboard, MoveError>(
            MoveError::InvalidMove,
        ),
{
    reveal(spec_perform_move);
    lemma_bit_basics();
    let s = side_of(pos, color);
    assert(wf_at(s, from));
    assert(!crate::piece::spec_castle_ok(from, to, color, spec_occ(pos), pos.white, pos.black));
}

/// A diagonal pawn move onto a free square is accepted exactly when
/// the en passant conditions hold: the mover on its fifth rank, the
/// destination behind an adjacent opponent pawn. No king-safety
/// check guards this path.
pub proof fn lemma_en_passant_iff(pos: Chessboard, from: u64, to: u64, color: PlayerColor)
    requires
        pos_wf(pos),
        from < 64,
        to < 64,
        spec_piece_at(side_of(pos, color), from) == PieceType::Pawn,
        crate::piece::spec_pawn_ok(from, to, color),
        spec_diagonal_step(from, to),
        !bit(pos.white.pieces.board, to),
        !bit(pos.black.pieces.board, to),
    ensures
        spec_perform_move(pos, from, to, color) is Ok <==> spec_en_passant_ok(
            from,
            to,
            color,
            pos.white,
            pos.black,
            spec_occ(pos),
        ),
{
    reveal(spec_perform_move);
    lemma_bit_basics();
}

/// What the attacked-square query means, spelled out: some opponent
/// piece stands on a square from which its attack pattern reaches the
/// target, the occupancy blocking sliders, with any opponent piece on
/// the target itself ignored.
pub proof fn lemma_attacked_characterization(sq: u64, occ: u64, opp: Player)
    ensures
        spec_attacked(sq, occ, opp) <==> exists|i: u64|
            i < 64 && #[trigger] crate::piece::attacker_at(opp, occ, sq, i),
{
    reveal(spec_attacked);
}

} // verus!
