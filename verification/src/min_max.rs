//! Depth-limited minimax search with alpha-beta pruning over the
//! generated legal moves, and the range-partitioning helpers that
//! split root-level work across a group of peer workers.

use vstd::prelude::*;

use crate::chessboard::{colors_ok, lemma_perform_move_preserves_colors, spec_finished,
    spec_perform_move, Chessboard};
use crate::evaluator::{evaluate, spec_evaluate};
use crate::next_move_generator::{generate_next_moves, lemma_generated_moves_legal,
    spec_generated_moves};
use crate::player::PlayerColor;

verus! {

/// The fixed search depth of the engine's own move selection.
pub const DEPTH: usize = 2;

/// The position a move leads to; an input the move rules reject is
/// left in place (the search only ever follows accepted moves).
pub open spec fn spec_child(pos: Chessboard, from: u64, to: u64, color: PlayerColor) -> Chessboard {
    match spec_perform_move(pos, from, to, color) {
        Ok(p) => p,
        Err(_) => pos,
    }
}

/// The value the search assigns to a position: the static score at
/// depth zero or when a king is gone, else the looped maximum
/// (White) or minimum (Black) over the generated moves with the
/// engine's pruning rule.
pub open spec fn spec_search(
    pos: Chessboard,
    depth: int,
    alpha: int,
    beta: int,
    color: PlayerColor,
) -> int
    decreases depth, 1int, 0int,
{
    if depth <= 0 || spec_finished(pos) {
        spec_evaluate(pos, color)
    } else {
        let moves = spec_generated_moves(pos, color);
        match color {
            PlayerColor::White => spec_search_max(
                pos,
                moves,
                0,
                depth,
                i64::MIN as int,
                alpha,
                beta,
            ),
            PlayerColor::Black => spec_search_min(
                pos,
                moves,
                0,
                depth,
                i64::MAX as int,
                alpha,
                beta,
            ),
        }
    }
}

/// White's move loop at a node: fold the children's values with
/// `max`, stop as soon as the value exceeds `beta`, and raise `alpha`
/// along the way.
pub open spec fn spec_search_max(
    pos: Chessboard,
    moves: Seq<(u64, u64)>,
    idx: int,
    depth: int,
    value: int,
    alpha: int,
    beta: int,
) -> int
    decreases depth, 0int, moves.len() - idx,
{
    if depth <= 0 || idx < 0 || idx >= moves.len() {
        value
    } else {
        let m = moves[idx];
        let child_value = spec_search(
            spec_child(pos, m.0, m.1, PlayerColor::White),
            depth - 1,
            alpha,
            beta,
            PlayerColor::Black,
        );
        let v2 = if child_value > value {
            child_value
        } else {
            value
        };
        if v2 > beta {
            v2
        } else {
            spec_search_max(
                pos,
                moves,
                idx + 1,
                depth,
                v2,
                if v2 > alpha {
                    v2
                } else {
                    alpha
                },
                beta,
            )
        }
    }
}

/// Black's move loop at a node: fold with `min`, stop as soon as the
/// value drops under `alpha`, and lower `beta` along the way.
pub open spec fn spec_search_min(
    pos: Chessboard,
    moves: Seq<(u64, u64)>,
    idx: int,
    depth: int,
    value: int,
    alpha: int,
    beta: int,
) -> int
    decreases depth, 0int, moves.len() - idx,
{
    if depth <= 0 || idx < 0 || idx >= moves.len() {
        value
    } else {
        let m = moves[idx];
        let child_value = spec_search(
            spec_child(pos, m.0, m.1, PlayerColor::Black),
            depth - 1,
            alpha,
            beta,
            PlayerColor::White,
        );
        let v2 = if child_value < value {
            child_value
        } else {
            value
        };
        if v2 < alpha {
            v2
        } else {
            spec_search_min(
                pos,
                moves,
                idx + 1,
                depth,
                v2,
                alpha,
                if v2 < beta {
                    v2
                } else {
                    beta
                },
            )
        }
    }
}

/// Depth-limited alpha-beta search: the exact value `spec_search`
/// assigns to the position for the side to move.
pub fn min_max_with_alpha_beta_pruning(
    state: &Chessboard,
    depth: usize,
    alpha: i64,
    beta: i64,
    player_color: PlayerColor,
) -> (r: i64)
    requires
        colors_ok(*state),
    ensures
        r == spec_search(*state, depth as int, alpha as int, beta as int, player_color),
    decreases depth,
{
    if depth == 0 || state.is_finished() {
        return evaluate(state, player_color);
    }

    let ghost target = spec_search(*state, depth as int, alpha as int, beta as int, player_color);
    let possible_moves = generate_next_moves(state, player_color);
    proof {
        lemma_generated_moves_legal(*state, player_color, 4096);
    }

    match player_color {
        PlayerColor::White => {
            let mut value: i64 = i64::MIN;
            let mut alpha = alpha;
            let mut idx: usize = 0;
            while idx < possible_moves.len()
                invariant_except_break
                    colors_ok(*state),
                    !spec_finished(*state),
                    depth >= 1,
                    idx <= possible_moves.len(),
                    possible_moves@ == spec_generated_moves(*state, PlayerColor::White),
                    forall|j: int|
                        0 <= j < possible_moves@.len() ==> {
                            let m = #[trigger] possible_moves@[j];
                            crate::next_move_generator::gen_legal(
                                *state,
                                PlayerColor::White,
                                m.0,
                                m.1,
                            ) && m.0 < 64 && m.1 < 64
                        },
                    spec_search_max(
                        *state,
                        possible_moves@,
                        idx as int,
                        depth as int,
                        value as int,
                        alpha as int,
                        beta as int,
                    ) == target,
                ensures
                    value == target,
                decreases possible_moves.len() - idx,
            {
                let next_move = possible_moves[idx];
                let mut next_state = state.clone();
                let res = next_state.perform_move_idx(
                    next_move.0,
                    next_move.1,
                    PlayerColor::White,
                );
                proof {
                    assert(res is Ok);
                    assert(next_state == spec_child(
                        *state,
                        next_move.0,
                        next_move.1,
                        PlayerColor::White,
                    ));
                    lemma_perform_move_preserves_colors(
                        *state,
                        next_move.0,
                        next_move.1,
                        PlayerColor::White,
                    );
                }
                let child_value = min_max_with_alpha_beta_pruning(
                    &next_state,
                    depth - 1,
                    alpha,
                    beta,
                    PlayerColor::Black,
                );

                if child_value > value {
                    value = child_value;
                }
                if value > beta {
                    break ;
                }
                if value > alpha {
                    alpha = value;
                }
                idx = idx + 1;
            }
            value
        },
        PlayerColor::Black => {
            let mut value: i64 = i64::MAX;
            let mut beta = beta;
            let mut idx: usize = 0;
            while idx < possible_moves.len()
                invariant_except_break
                    colors_ok(*state),
                    !spec_finished(*state),
                    depth >= 1,
                    idx <= possible_moves.len(),
                    possible_moves@ == spec_generated_moves(*state, PlayerColor::Black),
                    forall|j: int|
                        0 <= j < possible_moves@.len() ==> {
                            let m = #[trigger] possible_moves@[j];
                            crate::next_move_generator::gen_legal(
                                *state,
                                PlayerColor::Black,
                                m.0,
                                m.1,
                            ) && m.0 < 64 && m.1 < 64
                        },
                    spec_search_min(
                        *state,
                        possible_moves@,
                        idx as int,
                        depth as int,
                        value as int,
                        alpha as int,
                        beta as int,
                    ) == target,
                ensures
                    value == target,
                decreases possible_moves.len() - idx,
            {
                let next_move = possible_moves[idx];
                let mut next_state = state.clone();
                let res = next_state.perform_move_idx(
                    next_move.0,
                    next_move.1,
                    PlayerColor::Black,
                );
                proof {
                    assert(res is Ok);
                    assert(next_state == spec_child(
                        *state,
                        next_move.0,
                        next_move.1,
                        PlayerColor::Black,
                    ));
                    lemma_perform_move_preserves_colors(
                        *state,
                        next_move.0,
                        next_move.1,
                        PlayerColor::Black,
                    );
                }
                let child_value = min_max_with_alpha_beta_pruning(
                    &next_state,
                    depth - 1,
                    alpha,
                    beta,
                    PlayerColor::White,
                );

                if child_value < value {
                    value = child_value;
                }
                if value < alpha {
                    break ;
                }
                if value < beta {
                    beta = value;
                }
                idx = idx + 1;
            }
            value
        },
    }
}

/// Folding White's root moves in `idx .. end`: keep the move whose
/// full-window search value is strictly largest, first one winning
/// ties.
pub open spec fn spec_best_from(
    pos: Chessboard,
    moves: Seq<(u64, u64)>,
    idx: int,
    end: int,
    best: (u64, u64),
    best_value: int,
) -> ((u64, u64), int)
    decreases end - idx,
{
    if idx < 0 || idx >= end || idx >= moves.len() {
        (best, best_value)
    } else {
        let m = moves[idx];
        let v = spec_search(
            spec_child(pos, m.0, m.1, PlayerColor::White),
            DEPTH as int - 1,
            i64::MIN as int,
            i64::MAX as int,
            PlayerColor::Black,
        );
        if v > best_value {
            spec_best_from(pos, moves, idx + 1, end, m, v)
        } else {
            spec_best_from(pos, moves, idx + 1, end, best, best_value)
        }
    }
}

proof fn lemma_best_from_membership(
    pos: Chessboard,
    moves: Seq<(u64, u64)>,
    idx: int,
    end: int,
    best: (u64, u64),
    best_value: int,
)
    ensures
        ({
            let r = spec_best_from(pos, moves, idx, end, best, best_value);
            r.0 == best || exists|j: int| idx <= j < end && j < moves.len() && #[trigger] moves[j]
                == r.0
        }),
    decreases end - idx,
{
    if !(idx < 0 || idx >= end || idx >= moves.len()) {
        let m = moves[idx];
        let v = spec_search(
            spec_child(pos, m.0, m.1, PlayerColor::White),
            DEPTH as int - 1,
            i64::MIN as int,
            i64::MAX as int,
            PlayerColor::Black,
        );
        if v > best_value {
            lemma_best_from_membership(pos, moves, idx + 1, end, m, v);
        } else {
            lemma_best_from_membership(pos, moves, idx + 1, end, best, best_value);
        }
    }
}

/// The engine's selection is sound: when White has a legal move the
/// chosen pair is one of the generated legal moves, and `(0, 0)`
/// stands only for an empty move list or a line every reply refutes
/// down to the lowest value.
pub proof fn lemma_best_move_membership(pos: Chessboard)
    ensures
        spec_best_move(pos) == (0u64, 0u64) || exists|j: int|
            0 <= j < spec_generated_moves(pos, PlayerColor::White).len()
                && #[trigger] spec_generated_moves(pos, PlayerColor::White)[j] == spec_best_move(
                pos,
            ),
{
    let moves = spec_generated_moves(pos, PlayerColor::White);
    lemma_best_from_membership(pos, moves, 0, moves.len() as int, (0u64, 0u64), i64::MIN as int);
}

/// The move `get_best_move` selects.
pub open spec fn spec_best_move(pos: Chessboard) -> (u64, u64) {
    spec_best_from(
        pos,
        spec_generated_moves(pos, PlayerColor::White),
        0,
        spec_generated_moves(pos, PlayerColor::White).len() as int,
        (0u64, 0u64),
        i64::MIN as int,
    ).0
}

/// Search White's root moves with indices in `lo .. hi` and report
/// the best of them with its value; `(0, 0)` with the lowest value
/// when the range is empty. One peer worker evaluates one such range
/// and the workers combine their values by a maximum reduction.
pub fn best_move_in_range(state: &Chessboard, lo: usize, hi: usize) -> (r: ((u64, u64), i64))
    requires
        colors_ok(*state),
        state.white.king.board != 0,
        state.black.king.board != 0,
        lo <= hi,
    ensures
        (r.0, r.1 as int) == spec_best_from(
            *state,
            spec_generated_moves(*state, PlayerColor::White),
            lo as int,
            hi as int,
            (0u64, 0u64),
            i64::MIN as int,
        ),
{
    let possible_moves = generate_next_moves(state, PlayerColor::White);
    proof {
        lemma_generated_moves_legal(*state, PlayerColor::White, 4096);
    }

    let mut result: (u64, u64) = (0, 0);
    let mut value: i64 = i64::MIN;
    let mut idx: usize = lo;
    while idx < hi && idx < possible_moves.len()
        invariant
            colors_ok(*state),
            state.white.king.board != 0,
            state.black.king.board != 0,
            lo <= idx,
            possible_moves@ == spec_generated_moves(*state, PlayerColor::White),
            forall|j: int|
                0 <= j < possible_moves@.len() ==> {
                    let m = #[trigger] possible_moves@[j];
                    crate::next_move_generator::gen_legal(*state, PlayerColor::White, m.0, m.1)
                        && m.0 < 64 && m.1 < 64
                },
            spec_best_from(
                *state,
                possible_moves@,
                idx as int,
                hi as int,
                result,
                value as int,
            ) == spec_best_from(
                *state,
                possible_moves@,
                lo as int,
                hi as int,
                (0u64, 0u64),
                i64::MIN as int,
            ),
        decreases hi - idx,
    {
        let next_move = possible_moves[idx];
        let mut next_state = state.clone();
        let res = next_state.perform_move_idx(next_move.0, next_move.1, PlayerColor::White);
        proof {
            assert(res is Ok);
            assert(next_state == spec_child(
                *state,
                next_move.0,
                next_move.1,
                PlayerColor::White,
            ));
            lemma_perform_move_preserves_colors(
                *state,
                next_move.0,
                next_move.1,
                PlayerColor::White,
            );
        }
        let min_max_value = min_max_with_alpha_beta_pruning(
            &next_state,
            DEPTH - 1,
            i64::MIN,
            i64::MAX,
            PlayerColor::Black,
        );
        if min_max_value > value {
            value = min_max_value;
            result = next_move;
        }
        idx = idx + 1;
    }
    (result, value)
}

/// The move for White whose depth-limited search value is largest,
/// ties won by the first move in generation order; `(0, 0)` when
/// White has no legal move.
pub fn get_best_move(state: &Chessboard) -> (r: (u64, u64))
    requires
        colors_ok(*state),
        state.white.king.board != 0,
        state.black.king.board != 0,
    ensures
        r == spec_best_move(*state),
{
    let n = generate_next_moves(state, PlayerColor::White).len();
    let (result, _) = best_move_in_range(state, 0, n);
    result
}

/// The number of moves each peer worker takes when `len` moves are
/// split across `size` workers: the ceiling of their quotient.
pub open spec fn spec_chunk(len: u64, size: u64) -> int {
    (len + size - 1) / (size as int)
}

/// The start of the range of root moves assigned to `rank`.
pub open spec fn spec_partition_start(rank: u64, size: u64, len: u64) -> int {
    if rank * spec_chunk(len, size) <= len {
        rank * spec_chunk(len, size)
    } else {
        len as int
    }
}

/// The half-open range of root-move indices rank `rank` of `size`
/// peer workers evaluates.
pub fn partition_bounds(rank: u64, size: u64, len: u64) -> (r: (u64, u64))
    requires
        0 < size <= 0x10000,
        rank < size,
        len <= 0x10000,
    ensures
        r.0 == spec_partition_start(rank, size, len),
        r.1 == spec_partition_start((rank + 1) as u64, size, len),
        r.0 <= r.1 <= len,
{
    let chunk = (len + size - 1) / size;
    proof {
        assert(chunk <= len && (rank + 1) * chunk <= 0x10000 * 0x10001) by (nonlinear_arith)
            requires
                0 < size <= 0x10000,
                rank < size,
                len <= 0x10000,
                chunk == ((len + size - 1) as u64) / size,
        ;
        assert(rank * chunk <= (rank + 1) * chunk) by (nonlinear_arith)
            requires
                chunk >= 0,
        ;
    }
    let lo = rank * chunk;
    let hi = (rank + 1) * chunk;
    let lo = if lo > len {
        len
    } else {
        lo
    };
    let hi = if hi > len {
        len
    } else {
        hi
    };
    (lo, hi)
}

/// The ranges the peer workers take cover the whole move list: rank 0
/// starts at index 0, each next rank starts where the one before
/// ends, and the last rank ends at `len`.
pub proof fn lemma_partition_covers(size: u64, len: u64)
    requires
        0 < size <= 0x10000,
        len <= 0x10000,
    ensures
        spec_partition_start(0, size, len) == 0,
        spec_partition_start(size, size, len) == len,
{
    let chunk = spec_chunk(len, size);
    vstd::arithmetic::div_mod::lemma_fundamental_div_mod(len as int + size - 1, size as int);
    vstd::arithmetic::div_mod::lemma_mod_bound(len as int + size - 1, size as int);
    assert(size * chunk == len + size - 1 - ((len + size - 1) % (size as int)));
    assert(size * chunk >= len);
    assert(size * chunk == chunk * size) by (nonlinear_arith);
}

} // verus!
