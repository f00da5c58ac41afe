//! The position: both sides' boards, move validation and execution
//! (ordinary moves, captures, en passant, castling, promotion, king
//! safety), and the conversion between algebraic squares and indices.
//!
//! Board orientation: White on ranks 1-2 (indices 0..16), Black on
//! ranks 7-8 (indices 48..64).

use vstd::prelude::*;
use vstd::string::*;

use crate::bitboard::Bitboard;
use crate::bits::bit;
use crate::bits::lsb;
use crate::exceptions::{MoveError, PieceError};
use crate::piece::{check_king_in_check, check_pawn_move_blocked, is_a_castling_move,
    is_big_castling, is_bishop_move_valid, is_king_move_blocked, is_king_move_valid,
    is_knight_move_valid, is_pawn_move_valid, is_queen_move_valid, is_rook_move_valid,
    is_small_castling, king_does_castling_correctly, pawn_does_en_passant_correctly,
    pawn_does_not_capture, pawn_moves_diagonally, pawn_promotes, pawn_promotes_correctly,
    PieceType};
use crate::piece::{file_of, rank_of, spec_attacked, spec_bishop_valid, spec_castle_ok,
    spec_castling_signature, spec_diagonal_step, spec_en_passant_ok, spec_king_ok, spec_knight_ok,
    spec_pawn_blocked, spec_pawn_ok, spec_pawn_promotes, spec_queen_valid, spec_rook_valid};
use crate::player::{king_start, left_rook_start, right_rook_start, spec_after_capture,
    spec_after_move, spec_after_promotion, spec_initial_player, spec_piece_at, Player,
    PlayerColor};

verus! {

#[derive(Debug, Clone, Copy)]
pub struct Chessboard {
    pub white: Player,
    pub black: Player,
}

/// The occupancy: every occupied square of either side.
pub open spec fn spec_occ(pos: Chessboard) -> u64 {
    pos.white.pieces.board | pos.black.pieces.board
}

/// The side that moves.
pub open spec fn side_of(pos: Chessboard, color: PlayerColor) -> Player {
    match color {
        PlayerColor::White => pos.white,
        PlayerColor::Black => pos.black,
    }
}

/// The side that does not move.
pub open spec fn opp_of(pos: Chessboard, color: PlayerColor) -> Player {
    match color {
        PlayerColor::White => pos.black,
        PlayerColor::Black => pos.white,
    }
}

/// The position with the moving side and its opponent put back in
/// their color slots.
pub open spec fn with_sides(pos: Chessboard, color: PlayerColor, s: Player, o: Player) -> Chessboard {
    match color {
        PlayerColor::White => Chessboard { white: s, black: o },
        PlayerColor::Black => Chessboard { white: o, black: s },
    }
}

/// The starting position.
pub open spec fn spec_initial_position() -> Chessboard {
    Chessboard {
        white: spec_initial_player(PlayerColor::White),
        black: spec_initial_player(PlayerColor::Black),
    }
}

/// Each side's color field names its slot: the engine's operations
/// read it to pick home squares, so a position must keep it straight.
pub open spec fn colors_ok(pos: Chessboard) -> bool {
    pos.white.color == PlayerColor::White && pos.black.color == PlayerColor::Black
}

/// The game is over when either king has left the board.
pub open spec fn spec_finished(pos: Chessboard) -> bool {
    pos.black.king.board == 0 || pos.white.king.board == 0
}

/// The square index a two-character algebraic name denotes, `None`
/// unless the name starts with `a`..`h` then `1`..`8`.
pub open spec fn spec_parse_square(s: Seq<char>) -> Option<u64> {
    if s.len() >= 2 {
        let f = s[0] as int - 'a' as int;
        let r = s[1] as int - '1' as int;
        if 0 <= f < 8 && 0 <= r < 8 {
            Some((f + r * 8) as u64)
        } else {
            Option::<u64>::None
        }
    } else {
        Option::<u64>::None
    }
}

/// The name of a file index.
pub open spec fn spec_file_char(f: int) -> char {
    if f == 0 {
        'a'
    } else if f == 1 {
        'b'
    } else if f == 2 {
        'c'
    } else if f == 3 {
        'd'
    } else if f == 4 {
        'e'
    } else if f == 5 {
        'f'
    } else if f == 6 {
        'g'
    } else {
        'h'
    }
}

/// The name of a rank index.
pub open spec fn spec_rank_char(r: int) -> char {
    if r == 0 {
        '1'
    } else if r == 1 {
        '2'
    } else if r == 2 {
        '3'
    } else if r == 3 {
        '4'
    } else if r == 4 {
        '5'
    } else if r == 5 {
        '6'
    } else if r == 6 {
        '7'
    } else {
        '8'
    }
}

/// The two-character algebraic name of a square index.
pub open spec fn spec_square_name(i: u64) -> Seq<char> {
    seq![spec_file_char(file_of(i)), spec_rank_char(rank_of(i))]
}

/// Whether the move's geometry is valid for the kind of the moved
/// piece, with sliders additionally reaching `to` on an unblocked ray.
pub open spec fn spec_validity_ok(
    pos: Chessboard,
    from: u64,
    to: u64,
    color: PlayerColor,
    kind: PieceType,
) -> bool {
    match kind {
        PieceType::Pawn => spec_pawn_ok(from, to, color),
        PieceType::Knight => spec_knight_ok(from, to),
        PieceType::Bishop => spec_bishop_valid(from, to, spec_occ(pos)),
        PieceType::Rook => spec_rook_valid(from, to, spec_occ(pos)),
        PieceType::Queen => spec_queen_valid(from, to, spec_occ(pos)),
        PieceType::King => spec_king_ok(from, to),
        PieceType::Empty => false,
    }
}

/// Whether the non-special move is blocked: own piece or the
/// opponent's king on the destination, the pawn-specific occupancy
/// checks, or a king destination the opponent attacks.
pub open spec fn spec_blocked(
    pos: Chessboard,
    from: u64,
    to: u64,
    color: PlayerColor,
    kind: PieceType,
) -> bool {
    let s = side_of(pos, color);
    let o = opp_of(pos, color);
    bit(s.pieces.board, to) || spec_piece_at(o, to) == PieceType::King || (kind == PieceType::Pawn
        && spec_pawn_blocked(from, to, color, spec_occ(pos), pos.white, pos.black)) || (kind
        == PieceType::King && spec_attacked(to, spec_occ(pos), o))
}

/// Whether performing the move would leave the mover's own king
/// attacked: the move and any capture are applied to a scratch copy
/// and the king's square tested.
pub open spec fn spec_self_check(pos: Chessboard, from: u64, to: u64, color: PlayerColor) -> bool {
    let s2 = spec_after_move(side_of(pos, color), from, to);
    let o2 = spec_after_capture(opp_of(pos, color), to);
    spec_attacked(lsb(s2.king.board), spec_occ(with_sides(pos, color, s2, o2)), o2)
}

/// The position after an ordinary (non-special) move is committed:
/// the mover's boards updated, any captured piece removed, and the
/// opponent's been-in-check flag latched when the move gives check.
pub open spec fn spec_apply_normal(pos: Chessboard, from: u64, to: u64, color: PlayerColor) -> Chessboard {
    let s2 = spec_after_move(side_of(pos, color), from, to);
    let o2 = spec_after_capture(opp_of(pos, color), to);
    let occ2 = spec_occ(with_sides(pos, color, s2, o2));
    let o3 = if spec_attacked(lsb(o2.king.board), occ2, s2) {
        Player { has_king_been_in_check: true, ..o2 }
    } else {
        o2
    };
    with_sides(pos, color, s2, o3)
}

/// The square of the pawn an en passant capture removes: one rank
/// behind the destination, from the mover's point of view.
pub open spec fn spec_en_passant_victim(to: u64, color: PlayerColor) -> u64 {
    match color {
        PlayerColor::White => (to - 8) as u64,
        PlayerColor::Black => (to + 8) as u64,
    }
}

/// The position after an en passant capture: the pawn moves
/// diagonally and the opponent pawn one rank behind the destination
/// is removed.
pub open spec fn spec_apply_en_passant(pos: Chessboard, from: u64, to: u64, color: PlayerColor) -> Chessboard {
    let s2 = spec_after_move(side_of(pos, color), from, to);
    let o2 = spec_after_capture(opp_of(pos, color), spec_en_passant_victim(to, color));
    with_sides(pos, color, s2, o2)
}

/// The position after castling: the king makes its two-square move,
/// then the rook jumps to the crossed square.
pub open spec fn spec_apply_castling(pos: Chessboard, from: u64, to: u64, color: PlayerColor) -> Chessboard {
    let s = side_of(pos, color);
    let s2 = if to == king_start(color) + 2 {
        spec_after_move(
            spec_after_move(s, king_start(color), (king_start(color) + 2) as u64),
            right_rook_start(color),
            (right_rook_start(color) - 2) as u64,
        )
    } else {
        spec_after_move(
            spec_after_move(s, king_start(color), (king_start(color) - 2) as u64),
            left_rook_start(color),
            (left_rook_start(color) + 3) as u64,
        )
    };
    with_sides(pos, color, s2, opp_of(pos, color))
}

/// The position after a promotion push: the pawn moves one forward
/// onto the last rank and becomes a queen.
pub open spec fn spec_apply_promotion(pos: Chessboard, from: u64, to: u64, color: PlayerColor) -> Chessboard {
    let s2 = spec_after_promotion(side_of(pos, color), from, to, PieceType::Queen);
    with_sides(pos, color, s2, opp_of(pos, color))
}

/// What `perform_move` decides and does, for square indices: the
/// error reported, or the position after the move.
///
/// The order of the checks follows the engine: identify the piece,
/// check its geometry, dispatch the special moves (en passant,
/// promotion, castling), then the blocking rules, then king safety,
/// and finally commit.
#[verifier::opaque]
pub open spec fn spec_perform_move(pos: Chessboard, from: u64, to: u64, color: PlayerColor) -> Result<
    Chessboard,
    MoveError,
> {
    let s = side_of(pos, color);
    let o = opp_of(pos, color);
    let kind = spec_piece_at(s, from);
    if kind == PieceType::Empty {
        Err(MoveError::PieceNotFound)
    } else if !spec_validity_ok(pos, from, to, color, kind) {
        Err(MoveError::InvalidMove)
    } else if kind == PieceType::Pawn && spec_diagonal_step(from, to) && !bit(
        pos.white.pieces.board,
        to,
    ) && !bit(pos.black.pieces.board, to) {
        if spec_en_passant_ok(from, to, color, pos.white, pos.black, spec_occ(pos)) {
            Ok(spec_apply_en_passant(pos, from, to, color))
        } else {
            Err(MoveError::InvalidMove)
        }
    } else if kind == PieceType::Pawn && spec_pawn_promotes(from, to, color) {
        if !bit(spec_occ(pos), to) {
            Ok(spec_apply_promotion(pos, from, to, color))
        } else {
            Err(MoveError::InvalidMove)
        }
    } else if kind == PieceType::King && spec_castling_signature(from, to, color) {
        if spec_castle_ok(from, to, color, spec_occ(pos), pos.white, pos.black) {
            Ok(spec_apply_castling(pos, from, to, color))
        } else {
            Err(MoveError::InvalidMove)
        }
    } else if spec_blocked(pos, from, to, color, kind) {
        Err(MoveError::InvalidMove)
    } else if spec_self_check(pos, from, to, color) {
        Err(MoveError::InvalidMove)
    } else {
        Ok(spec_apply_normal(pos, from, to, color))
    }
}

/// An accepted move never changes which color each side slot holds.
pub proof fn lemma_perform_move_preserves_colors(
    pos: Chessboard,
    from: u64,
    to: u64,
    color: PlayerColor,
)
    requires
        colors_ok(pos),
        spec_perform_move(pos, from, to, color) is Ok,
    ensures
        colors_ok(spec_perform_move(pos, from, to, color)->Ok_0),
{
    reveal(spec_perform_move);
}

/// Apply the move to a scratch copy of the position and report
/// whether the mover's own king is then attacked by the opponent.
pub fn king_is_in_check(chessboard: Chessboard, from: u64, to: u64, color: PlayerColor) -> (r:
    Result<bool, MoveError>)
    requires
        from < 64,
        to < 64,
        spec_after_move(side_of(chessboard, color), from, to).king.board != 0,
    ensures
        r is Ok <==> spec_piece_at(side_of(chessboard, color), from) != PieceType::Empty,
        r is Err ==> r == Err::<bool, MoveError>(MoveError::InvalidMove),
        r is Ok ==> r->Ok_0 == spec_self_check(chessboard, from, to, color),
{
    let mut chessboard = chessboard;
    let move_result = match color {
        PlayerColor::White => chessboard.white.make_move(from, to),
        PlayerColor::Black => chessboard.black.make_move(from, to),
    };

    if move_result.is_err() {
        return Err(MoveError::InvalidMove);
    }

    let capture_piece_if_exists = match color {
        PlayerColor::White => chessboard.black.update_table_after_opponent_move(to),
        PlayerColor::Black => chessboard.white.update_table_after_opponent_move(to),
    };

    if capture_piece_if_exists.is_err() {
        return Err(MoveError::InvalidMove);
    }

    match color {
        PlayerColor::White => Ok(
            check_king_in_check(
                chessboard.white.get_king_position_on_board(),
                chessboard.get_board(),
                chessboard.black,
            ),
        ),
        PlayerColor::Black => Ok(
            check_king_in_check(
                chessboard.black.get_king_position_on_board(),
                chessboard.get_board(),
                chessboard.white,
            ),
        ),
    }
}

impl Chessboard {
    /// The standard starting position.
    pub fn new() -> (r: Chessboard)
        ensures
            r == spec_initial_position(),
    {
        let white = Player::new(PlayerColor::White);
        let black = Player::new(PlayerColor::Black);

        Chessboard { white, black }
    }

    /// The occupancy of the whole board.
    pub fn get_board(&self) -> (r: u64)
        ensures
            r == spec_occ(*self),
    {
        self.white.pieces.get_board() | self.black.pieces.get_board()
    }

    /// The piece kind of the given color standing on `index`.
    pub fn get_piece_type_color(&self, color: PlayerColor, index: u64) -> (r: PieceType)
        requires
            index < 64,
        ensures
            r == spec_piece_at(side_of(*self, color), index),
    {
        let mut cloned_state = self.clone();
        let piece_type = match color {
            PlayerColor::White => cloned_state.white.get_piece_type(index),
            PlayerColor::Black => cloned_state.black.get_piece_type(index),
        };

        match piece_type {
            Ok(k) => k,
            Err(_) => PieceType::Empty,
        }
    }

    /// White's all-pieces board.
    pub fn get_white_board(&self) -> (r: u64)
        ensures
            r == self.white.pieces.board,
    {
        self.white.pieces.get_board()
    }

    /// Black's all-pieces board.
    pub fn get_black_board(&self) -> (r: u64)
        ensures
            r == self.black.pieces.board,
    {
        self.black.pieces.get_board()
    }

    /// Whether the game is over: either king has left the board.
    pub fn is_finished(&self) -> (r: bool)
        ensures
            r == spec_finished(*self),
    {
        proof {
            crate::bits::lemma_popcnt_zero_iff(self.black.king.board);
            crate::bits::lemma_popcnt_zero_iff(self.white.king.board);
        }
        self.black.king.get_num_squares() == 0 || self.white.king.get_num_squares() == 0
    }

    /// Validate and perform the move the two algebraic squares denote,
    /// for the given side. A name that does not denote a square is
    /// reported as `PieceNotFound`, like a square the side has no
    /// piece on.
    pub fn perform_move(&mut self, from: &str, to: &str, color: PlayerColor) -> (r: Result<
        (),
        MoveError,
    >)
        requires
            colors_ok(*old(self)),
            old(self).white.king.board != 0,
            old(self).black.king.board != 0,
        ensures
            ({
                let pf = spec_parse_square(from@);
                let pt = spec_parse_square(to@);
                if pf is Some && pt is Some {
                    match spec_perform_move(*old(self), pf->0, pt->0, color) {
                        Ok(p2) => r is Ok && *final(self) == p2,
                        Err(e) => r == Err::<(), MoveError>(e) && *final(self) == *old(self),
                    }
                } else {
                    r == Err::<(), MoveError>(MoveError::PieceNotFound) && *final(self) == *old(
                        self,
                    )
                }
            }),
    {
        let from = match parse_square(from) {
            Some(i) => i,
            Option::None => {
                return Err(MoveError::PieceNotFound);
            },
        };
        let to = match parse_square(to) {
            Some(i) => i,
            Option::None => {
                return Err(MoveError::PieceNotFound);
            },
        };
        self.perform_move_idx(from, to, color)
    }

    /// Validate and perform the move between two square indices, for
    /// the given side.
    #[verifier::rlimit(100)]
    pub(crate) fn perform_move_idx(&mut self, from: u64, to: u64, color: PlayerColor) -> (r:
        Result<(), MoveError>)
        requires
            from < 64,
            to < 64,
            colors_ok(*old(self)),
            old(self).white.king.board != 0,
            old(self).black.king.board != 0,
        ensures
            match spec_perform_move(*old(self), from, to, color) {
                Ok(p2) => r is Ok && *final(self) == p2,
                Err(e) => r == Err::<(), MoveError>(e) && *final(self) == *old(self),
            },
    {
        let piece_type = match color {
            PlayerColor::White => self.white.get_piece_type(from),
            PlayerColor::Black => self.black.get_piece_type(from),
        };

        let piece_type = match piece_type {
            Ok(k) => k,
            Err(_) => {
                return Err(MoveError::PieceNotFound);
            },
        };

        if piece_type == PieceType::Empty {
            proof {
                assert(spec_perform_move(*old(self), from, to, color) == Err::<
                    Chessboard,
                    MoveError,
                >(MoveError::PieceNotFound)) by {
                    reveal(spec_perform_move);
                }
            }
            return Err(MoveError::PieceNotFound);
        }

        let is_move_valid = self.check_validity(from, to, color, piece_type);

        if is_move_valid.is_err() {
            proof {
                assert(spec_perform_move(*old(self), from, to, color) == Err::<
                    Chessboard,
                    MoveError,
                >(MoveError::InvalidMove)) by {
                    reveal(spec_perform_move);
                }
            }
            return Err(MoveError::InvalidMove);
        }

        if piece_type == PieceType::Pawn {
            if pawn_moves_diagonally(from, to) && pawn_does_not_capture(to, self.white, self.black)
                {
                if pawn_does_en_passant_correctly(
                    from,
                    to,
                    color,
                    self.white,
                    self.black,
                    Bitboard::from(self.get_board()),
                ) {
                    proof {
                        crate::piece::lemma_square_decomp(to);
                        assert(8 <= to < 56);
                        assert(spec_perform_move(*old(self), from, to, color) == Ok::<
                            Chessboard,
                            MoveError,
                        >(spec_apply_en_passant(*old(self), from, to, color))) by {
                            reveal(spec_perform_move);
                        }
                    }
                    return self.perform_en_passant(from, to, color);
                } else {
                    proof {
                        assert(spec_perform_move(*old(self), from, to, color) == Err::<
                            Chessboard,
                            MoveError,
                        >(MoveError::InvalidMove)) by {
                            reveal(spec_perform_move);
                        }
                    }
                    return Err(MoveError::InvalidMove);
                }
            }

            if pawn_promotes(from, to, color) {
                if pawn_promotes_correctly(to, Bitboard::from(self.get_board())) {
                    let new_piece = PieceType::Queen;
                    proof {
                        assert(spec_perform_move(*old(self), from, to, color) == Ok::<
                            Chessboard,
                            MoveError,
                        >(spec_apply_promotion(*old(self), from, to, color))) by {
                            reveal(spec_perform_move);
                        }
                    }
                    return self.perform_promotion(from, to, color, new_piece);
                } else {
                    proof {
                        assert(spec_perform_move(*old(self), from, to, color) == Err::<
                            Chessboard,
                            MoveError,
                        >(MoveError::InvalidMove)) by {
                            reveal(spec_perform_move);
                        }
                    }
                    return Err(MoveError::InvalidMove);
                }
            }
        }

        if piece_type == PieceType::King && is_a_castling_move(from, to, color) {
            if king_does_castling_correctly(
                from,
                to,
                color,
                Bitboard::from(self.get_board()),
                self.white,
                self.black,
            ) {
                proof {
                    let s = side_of(*self, color);
                    let a1 = spec_after_move(s, king_start(color), to);
                    let rf = if to == king_start(color) + 2 {
                        right_rook_start(color)
                    } else {
                        left_rook_start(color)
                    };
                    assert(bit(a1.rooks.board, rf));
                    assert(spec_piece_at(a1, rf) != PieceType::Empty);
                    assert(spec_perform_move(*old(self), from, to, color) == Ok::<
                        Chessboard,
                        MoveError,
                    >(spec_apply_castling(*old(self), from, to, color))) by {
                        reveal(spec_perform_move);
                    }
                }
                return self.perform_castling(from, to, color);
            } else {
                proof {
                    assert(spec_perform_move(*old(self), from, to, color) == Err::<
                        Chessboard,
                        MoveError,
                    >(MoveError::InvalidMove)) by {
                        reveal(spec_perform_move);
                    }
                }
                return Err(MoveError::InvalidMove);
            }
        }

        let is_move_blocked = self.compute_blocked(from, to, color, piece_type);

        if is_move_blocked {
            proof {
                assert(spec_perform_move(*old(self), from, to, color) == Err::<
                    Chessboard,
                    MoveError,
                >(MoveError::InvalidMove)) by {
                    reveal(spec_perform_move);
                }
            }
            return Err(MoveError::InvalidMove);
        }

        proof {
            crate::bits::lemma_bit_basics();
            let s = side_of(*self, color);
            let s2 = spec_after_move(s, from, to);
            if spec_piece_at(s, from) == PieceType::King {
                assert(bit(s2.king.board, to));
                assert(s2.king.board != 0);
            } else {
                assert(s2.king.board == s.king.board);
            }
        }
        match king_is_in_check(*self, from, to, color) {
            Err(_) => {
                return Err(MoveError::InvalidMove);
            },
            Ok(true) => {
                proof {
                    assert(spec_perform_move(*old(self), from, to, color) == Err::<
                        Chessboard,
                        MoveError,
                    >(MoveError::InvalidMove)) by {
                        reveal(spec_perform_move);
                    }
                }
                return Err(MoveError::InvalidMove);
            },
            Ok(false) => {
                proof {
                    assert(spec_perform_move(*old(self), from, to, color) == Ok::<
                        Chessboard,
                        MoveError,
                    >(spec_apply_normal(*old(self), from, to, color))) by {
                        reveal(spec_perform_move);
                    }
                }
            },
        }

        self.commit_move(from, to, color);

        Ok(())
    }

    /// Commit an accepted ordinary move: update the mover's boards,
    /// remove any captured piece, and latch the opponent's
    /// been-in-check flag when the move gives check.
    fn commit_move(&mut self, from: u64, to: u64, color: PlayerColor)
        requires
            from < 64,
            to < 64,
            spec_piece_at(side_of(*old(self), color), from) != PieceType::Empty,
            spec_piece_at(opp_of(*old(self), color), to) != PieceType::King,
            opp_of(*old(self), color).king.board != 0,
        ensures
            *final(self) == spec_apply_normal(*old(self), from, to, color),
    {
        let move_result = match color {
            PlayerColor::White => self.white.make_move(from, to),
            PlayerColor::Black => self.black.make_move(from, to),
        };

        let capture_piece_if_exists = match color {
            PlayerColor::White => self.black.update_table_after_opponent_move(to),
            PlayerColor::Black => self.white.update_table_after_opponent_move(to),
        };

        proof {
            if color == PlayerColor::White {
                assert(self.black.king.board == old(self).black.king.board);
                assert(self.black.king.board != 0);
            } else {
                assert(self.white.king.board == old(self).white.king.board);
                assert(self.white.king.board != 0);
            }
        }
        match color {
            PlayerColor::White => {
                if check_king_in_check(
                    self.black.get_king_position_on_board(),
                    self.get_board(),
                    self.white,
                ) {
                    self.black.set_king_in_check(true);
                }
            },
            PlayerColor::Black => {
                if check_king_in_check(
                    self.white.get_king_position_on_board(),
                    self.get_board(),
                    self.black,
                ) {
                    self.white.set_king_in_check(true);
                }
            },
        }
    }

    /// Check the move's geometry (and, for sliders, its ray) for the
    /// kind of the moved piece.
    fn check_validity(&self, from: u64, to: u64, color: PlayerColor, piece_type: PieceType) -> (r:
        Result<(), PieceError>)
        ensures
            r is Ok <==> spec_validity_ok(*self, from, to, color, piece_type),
    {
        match piece_type {
            PieceType::Pawn => is_pawn_move_valid(from, to, color),
            PieceType::Knight => is_knight_move_valid(from, to),
            PieceType::Bishop => is_bishop_move_valid(from, to, self.get_board()),
            PieceType::Rook => is_rook_move_valid(from, to, self.get_board()),
            PieceType::Queen => is_queen_move_valid(from, to, self.get_board()),
            PieceType::King => is_king_move_valid(from, to),
            PieceType::Empty => Err(PieceError::NoPiece),
        }
    }

    /// Decide whether the non-special move is blocked: own piece or
    /// opponent king on the destination, the pawn occupancy rules, or
    /// a king stepping onto an attacked square.
    fn compute_blocked(&self, from: u64, to: u64, color: PlayerColor, piece_type: PieceType) -> (r:
        bool)
        requires
            to < 64,
            piece_type == PieceType::Pawn ==> crate::piece::basic_ok(from, to),
        ensures
            r == spec_blocked(*self, from, to, color, piece_type),
    {
        let mut white = self.white;
        let mut black = self.black;
        match color {
            PlayerColor::White => match piece_type {
                PieceType::Pawn => {
                    self.white.has_piece_on(to) || matches!(
                        black.get_piece_type(to),
                        Ok(PieceType::King),
                    ) || check_pawn_move_blocked(
                        from,
                        to,
                        color,
                        Bitboard::from(self.get_board()),
                        self.white,
                        self.black,
                    )
                },
                PieceType::King => {
                    self.white.has_piece_on(to) || matches!(
                        black.get_piece_type(to),
                        Ok(PieceType::King),
                    ) || is_king_move_blocked(to, color, self.get_board(), self.white, self.black)
                },
                _ => {
                    self.white.has_piece_on(to) || matches!(
                        black.get_piece_type(to),
                        Ok(PieceType::King),
                    )
                },
            },
            PlayerColor::Black => match piece_type {
                PieceType::Pawn => {
                    self.black.has_piece_on(to) || matches!(
                        white.get_piece_type(to),
                        Ok(PieceType::King),
                    ) || check_pawn_move_blocked(
                        from,
                        to,
                        color,
                        Bitboard::from(self.get_board()),
                        self.white,
                        self.black,
                    )
                },
                PieceType::King => {
                    self.black.has_piece_on(to) || matches!(
                        white.get_piece_type(to),
                        Ok(PieceType::King),
                    ) || is_king_move_blocked(to, color, self.get_board(), self.white, self.black)
                },
                _ => {
                    self.black.has_piece_on(to) || matches!(
                        white.get_piece_type(to),
                        Ok(PieceType::King),
                    )
                },
            },
        }
    }

    /// Execute a checked en passant capture: move the pawn and remove
    /// the opponent pawn one rank behind the destination.
    fn perform_en_passant(&mut self, from: u64, to: u64, player_color: PlayerColor) -> (r: Result<
        (),
        MoveError,
    >)
        requires
            from < 64,
            to < 64,
            8 <= to < 56,
        ensures
            ({
                if spec_piece_at(side_of(*old(self), player_color), from) == PieceType::Empty {
                    r == Err::<(), MoveError>(MoveError::InvalidMove) && *final(self) == with_sides(
                        *old(self),
                        player_color,
                        spec_after_move(side_of(*old(self), player_color), from, to),
                        opp_of(*old(self), player_color),
                    )
                } else {
                    r is Ok && *final(self) == spec_apply_en_passant(
                        *old(self),
                        from,
                        to,
                        player_color,
                    )
                }
            }),
    {
        let move_result = match player_color {
            PlayerColor::White => self.white.make_move(from, to),
            PlayerColor::Black => self.black.make_move(from, to),
        };

        if move_result.is_err() {
            return Err(MoveError::InvalidMove);
        }

        let capture_piece_if_exists = match player_color {
            PlayerColor::White => self.black.update_table_after_opponent_move(to - 8),
            PlayerColor::Black => self.white.update_table_after_opponent_move(to + 8),
        };

        if capture_piece_if_exists.is_err() {
            return Err(MoveError::InvalidMove);
        }

        Ok(())
    }

    /// Execute a checked castling move through the side's castling
    /// routine for the matching wing.
    fn perform_castling(&mut self, from: u64, to: u64, player_color: PlayerColor) -> (r: Result<
        (),
        MoveError,
    >)
        requires
            spec_castling_signature(from, to, player_color),
            side_of(*old(self), player_color).color == player_color,
            spec_piece_at(side_of(*old(self), player_color), king_start(player_color))
                != PieceType::Empty,
        ensures
            ({
                let a1 = spec_after_move(
                    side_of(*old(self), player_color),
                    king_start(player_color),
                    to,
                );
                let rf = if to == king_start(player_color) + 2 {
                    right_rook_start(player_color)
                } else {
                    left_rook_start(player_color)
                };
                let rt = if to == king_start(player_color) + 2 {
                    (right_rook_start(player_color) - 2) as u64
                } else {
                    (left_rook_start(player_color) + 3) as u64
                };
                &&& *final(self) == with_sides(
                    *old(self),
                    player_color,
                    spec_after_move(a1, rf, rt),
                    opp_of(*old(self), player_color),
                )
                &&& (r is Ok <==> spec_piece_at(a1, rf) != PieceType::Empty)
                &&& (r is Err ==> r == Err::<(), MoveError>(MoveError::InvalidMove))
                &&& (r is Ok ==> *final(self) == spec_apply_castling(
                    *old(self),
                    from,
                    to,
                    player_color,
                ))
            }),
    {
        match player_color {
            PlayerColor::White => {
                if is_small_castling(from, to, PlayerColor::White) {
                    if self.white.perform_small_castling().is_err() {
                        return Err(MoveError::InvalidMove);
                    }
                } else if is_big_castling(from, to, PlayerColor::White) {
                    if self.white.perform_big_castling().is_err() {
                        return Err(MoveError::InvalidMove);
                    }
                } else {
                    return Err(MoveError::InvalidMove);
                }
            },
            PlayerColor::Black => {
                if is_small_castling(from, to, PlayerColor::Black) {
                    if self.black.perform_small_castling().is_err() {
                        return Err(MoveError::InvalidMove);
                    }
                } else if is_big_castling(from, to, PlayerColor::Black) {
                    if self.black.perform_big_castling().is_err() {
                        return Err(MoveError::InvalidMove);
                    }
                } else {
                    return Err(MoveError::InvalidMove);
                }
            },
        }

        Ok(())
    }

    /// Execute a checked promotion: move the pawn onto the last rank
    /// and replace it by the chosen piece.
    fn perform_promotion(
        &mut self,
        from: u64,
        to: u64,
        player_color: PlayerColor,
        new_piece: PieceType,
    ) -> (r: Result<(), MoveError>)
        requires
            from < 64,
            to < 64,
            spec_piece_at(side_of(*old(self), player_color), from) != PieceType::Empty,
            new_piece == PieceType::Queen,
        ensures
            r is Ok,
            *final(self) == spec_apply_promotion(*old(self), from, to, player_color),
    {
        let move_result = match player_color {
            PlayerColor::White => self.white.promote_pawn(from, to, new_piece),
            PlayerColor::Black => self.black.promote_pawn(from, to, new_piece),
        };

        if move_result.is_err() {
            return Err(MoveError::InvalidMove);
        }

        Ok(())
    }

    /// The index of the square a well-formed algebraic name denotes.
    pub fn convert_square_to_index(square: &str) -> (r: u64)
        requires
            spec_parse_square(square@) is Some,
        ensures
            Some(r) == spec_parse_square(square@),
            r < 64,
    {
        match parse_square(square) {
            Some(i) => i,
            Option::None => 0,
        }
    }

    /// The algebraic name of a square index.
    pub fn convert_index_to_square(index: u64) -> (r: String)
        requires
            index < 64,
        ensures
            r@ == spec_square_name(index),
    {
        let file = index % 8;
        let rank = index / 8;
        let file_name: &str = match file {
            0 => "a",
            1 => "b",
            2 => "c",
            3 => "d",
            4 => "e",
            5 => "f",
            6 => "g",
            _ => "h",
        };
        let rank_name: &str = match rank {
            0 => "1",
            1 => "2",
            2 => "3",
            3 => "4",
            4 => "5",
            5 => "6",
            6 => "7",
            _ => "8",
        };
        proof {
            reveal_strlit("a");
            reveal_strlit("b");
            reveal_strlit("c");
            reveal_strlit("d");
            reveal_strlit("e");
            reveal_strlit("f");
            reveal_strlit("g");
            reveal_strlit("h");
            reveal_strlit("1");
            reveal_strlit("2");
            reveal_strlit("3");
            reveal_strlit("4");
            reveal_strlit("5");
            reveal_strlit("6");
            reveal_strlit("7");
            reveal_strlit("8");
        }
        let r = String::from_str(file_name).concat(rank_name);
        proof {
            assert(r@ =~= spec_square_name(index));
        }
        r
    }
}

/// Parse a two-character algebraic square name; longer strings are
/// read by their first two characters.
fn parse_square(s: &str) -> (r: Option<u64>)
    ensures
        r == spec_parse_square(s@),
        r is Some ==> r->0 < 64,
{
    if s.unicode_len() < 2 {
        return Option::None;
    }
    let c0 = s.get_char(0);
    let c1 = s.get_char(1);
    if c0 < 'a' || c0 > 'h' || c1 < '1' || c1 > '8' {
        return Option::None;
    }
    let file = (c0 as u32 - 'a' as u32) as u64;
    let rank = (c1 as u32 - '1' as u32) as u64;
    Some(file + rank * 8)
}

} // verus!
