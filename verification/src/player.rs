//! One side of the game: its seven bitboards (all pieces plus one board
//! per piece kind), its castling bookkeeping flags, and the operations
//! that move, capture, promote and castle.

use vstd::prelude::*;

use crate::bitboard::Bitboard;
use crate::bits::{bit, lemma_bit_basics, lemma_bit_ext, lemma_lsb_from, lsb, lsb_from, moved_bit, popcnt,
    with_bit, without_bit};
use crate::exceptions::BitboardError;
use crate::exceptions::PieceError;
use crate::piece::PieceType;

verus! {

#[derive(Debug, Clone, Copy, PartialEq, Eq, Structural)]
pub enum PlayerColor {
    White,
    Black,
}

#[derive(Debug, Clone, Copy)]
pub struct Player {
    pub color: PlayerColor,
    pub pieces: Bitboard,
    pub pawns: Bitboard,
    pub knights: Bitboard,
    pub bishops: Bitboard,
    pub rooks: Bitboard,
    pub queen: Bitboard,
    pub king: Bitboard,
    pub has_left_rook_moved: bool,
    pub has_right_rook_moved: bool,
    pub has_king_moved: bool,
    pub has_king_been_in_check: bool,
}

/// Starting square of the king.
pub open spec fn king_start(c: PlayerColor) -> u64 {
    match c {
        PlayerColor::White => 4u64,
        PlayerColor::Black => 60u64,
    }
}

/// Starting square of the a-file rook.
pub open spec fn left_rook_start(c: PlayerColor) -> u64 {
    match c {
        PlayerColor::White => 0u64,
        PlayerColor::Black => 56u64,
    }
}

/// Starting square of the h-file rook.
pub open spec fn right_rook_start(c: PlayerColor) -> u64 {
    match c {
        PlayerColor::White => 7u64,
        PlayerColor::Black => 63u64,
    }
}

/// The piece kind standing on square `i`, looked up on the per-kind
/// boards in a fixed priority order, `Empty` for an empty square.
pub open spec fn spec_piece_at(p: Player, i: u64) -> PieceType {
    if bit(p.pawns.board, i) {
        PieceType::Pawn
    } else if bit(p.knights.board, i) {
        PieceType::Knight
    } else if bit(p.bishops.board, i) {
        PieceType::Bishop
    } else if bit(p.rooks.board, i) {
        PieceType::Rook
    } else if bit(p.queen.board, i) {
        PieceType::Queen
    } else if bit(p.king.board, i) {
        PieceType::King
    } else {
        PieceType::Empty
    }
}

/// The side after its piece moved from `from` to `to`: the all-pieces
/// board and the board of the moved piece's kind are updated, and the
/// king/rook flags latch when the king or a corner rook leaves home.
/// When `from` is empty only the all-pieces board changes (the state
/// `make_move` leaves behind before reporting the missing piece).
pub open spec fn spec_after_move(p: Player, from: u64, to: u64) -> Player {
    let pieces2 = Bitboard { board: moved_bit(p.pieces.board, from, to) };
    match spec_piece_at(p, from) {
        PieceType::Pawn => Player {
            pieces: pieces2,
            pawns: Bitboard { board: moved_bit(p.pawns.board, from, to) },
            ..p
        },
        PieceType::Knight => Player {
            pieces: pieces2,
            knights: Bitboard { board: moved_bit(p.knights.board, from, to) },
            ..p
        },
        PieceType::Bishop => Player {
            pieces: pieces2,
            bishops: Bitboard { board: moved_bit(p.bishops.board, from, to) },
            ..p
        },
        PieceType::Rook => Player {
            pieces: pieces2,
            rooks: Bitboard { board: moved_bit(p.rooks.board, from, to) },
            has_left_rook_moved: p.has_left_rook_moved || from == left_rook_start(p.color),
            has_right_rook_moved: p.has_right_rook_moved || from == right_rook_start(p.color),
            ..p
        },
        PieceType::Queen => Player {
            pieces: pieces2,
            queen: Bitboard { board: moved_bit(p.queen.board, from, to) },
            ..p
        },
        PieceType::King => Player {
            pieces: pieces2,
            king: Bitboard { board: moved_bit(p.king.board, from, to) },
            has_king_moved: true,
            ..p
        },
        PieceType::Empty => Player { pieces: pieces2, ..p },
    }
}

/// The side after the opponent moved onto square `to`: the square is
/// freed on the all-pieces board and on the board of whatever kind stood
/// there.
pub open spec fn spec_after_capture(p: Player, to: u64) -> Player {
    let pieces2 = Bitboard { board: without_bit(p.pieces.board, to) };
    match spec_piece_at(p, to) {
        PieceType::Pawn => Player {
            pieces: pieces2,
            pawns: Bitboard { board: without_bit(p.pawns.board, to) },
            ..p
        },
        PieceType::Knight => Player {
            pieces: pieces2,
            knights: Bitboard { board: without_bit(p.knights.board, to) },
            ..p
        },
        PieceType::Bishop => Player {
            pieces: pieces2,
            bishops: Bitboard { board: without_bit(p.bishops.board, to) },
            ..p
        },
        PieceType::Rook => Player {
            pieces: pieces2,
            rooks: Bitboard { board: without_bit(p.rooks.board, to) },
            ..p
        },
        PieceType::Queen => Player {
            pieces: pieces2,
            queen: Bitboard { board: without_bit(p.queen.board, to) },
            ..p
        },
        PieceType::King => Player {
            pieces: pieces2,
            king: Bitboard { board: without_bit(p.king.board, to) },
            ..p
        },
        PieceType::Empty => Player { pieces: pieces2, ..p },
    }
}

/// The side after the pawn that just moved to `position` is replaced by
/// the chosen piece kind.
pub open spec fn spec_after_promotion(p: Player, origin: u64, position: u64, kind: PieceType) -> Player {
    let m = spec_after_move(p, origin, position);
    match kind {
        PieceType::Knight => Player {
            pawns: Bitboard { board: without_bit(m.pawns.board, position) },
            knights: Bitboard { board: with_bit(m.knights.board, position) },
            ..m
        },
        PieceType::Bishop => Player {
            pawns: Bitboard { board: without_bit(m.pawns.board, position) },
            bishops: Bitboard { board: with_bit(m.bishops.board, position) },
            ..m
        },
        PieceType::Rook => Player {
            pawns: Bitboard { board: without_bit(m.pawns.board, position) },
            rooks: Bitboard { board: with_bit(m.rooks.board, position) },
            ..m
        },
        PieceType::Queen => Player {
            pawns: Bitboard { board: without_bit(m.pawns.board, position) },
            queen: Bitboard { board: with_bit(m.queen.board, position) },
            ..m
        },
        _ => m,
    }
}

/// The starting side state of the given color.
pub open spec fn spec_initial_player(color: PlayerColor) -> Player {
    match color {
        PlayerColor::White => Player {
            color,
            pieces: Bitboard { board: 0xFFFFu64 },
            pawns: Bitboard { board: 0xFF00u64 },
            knights: Bitboard { board: 0x42u64 },
            bishops: Bitboard { board: 0x24u64 },
            rooks: Bitboard { board: 0x81u64 },
            queen: Bitboard { board: 0x8u64 },
            king: Bitboard { board: 0x10u64 },
            has_left_rook_moved: false,
            has_right_rook_moved: false,
            has_king_moved: false,
            has_king_been_in_check: false,
        },
        PlayerColor::Black => Player {
            color,
            pieces: Bitboard { board: 0xFFFF_0000_0000_0000u64 },
            pawns: Bitboard { board: 0x00FF_0000_0000_0000u64 },
            knights: Bitboard { board: 0x4200_0000_0000_0000u64 },
            bishops: Bitboard { board: 0x2400_0000_0000_0000u64 },
            rooks: Bitboard { board: 0x8100_0000_0000_0000u64 },
            queen: Bitboard { board: 0x0800_0000_0000_0000u64 },
            king: Bitboard { board: 0x1000_0000_0000_0000u64 },
            has_left_rook_moved: false,
            has_right_rook_moved: false,
            has_king_moved: false,
            has_king_been_in_check: false,
        },
    }
}

/// Which bits each starting-board literal holds.
pub(crate) proof fn lemma_initial_bits()
    by (bit_vector)
    ensures
        forall|j: u64| j < 64 ==> #[trigger] bit(0xFF00u64, j) == (8 <= j < 16),
        forall|j: u64| j < 64 ==> #[trigger] bit(0x42u64, j) == (j == 1 || j == 6),
        forall|j: u64| j < 64 ==> #[trigger] bit(0x24u64, j) == (j == 2 || j == 5),
        forall|j: u64| j < 64 ==> #[trigger] bit(0x81u64, j) == (j == 0 || j == 7),
        forall|j: u64| j < 64 ==> #[trigger] bit(0x8u64, j) == (j == 3),
        forall|j: u64| j < 64 ==> #[trigger] bit(0x10u64, j) == (j == 4),
        forall|j: u64| j < 64 ==> #[trigger] bit(0xFFFFu64, j) == (j < 16),
        forall|j: u64| j < 64 ==> #[trigger] bit(0x00FF_0000_0000_0000u64, j) == (48 <= j < 56),
        forall|j: u64| j < 64 ==> #[trigger] bit(0x4200_0000_0000_0000u64, j) == (j == 57 || j == 62),
        forall|j: u64| j < 64 ==> #[trigger] bit(0x2400_0000_0000_0000u64, j) == (j == 58 || j == 61),
        forall|j: u64| j < 64 ==> #[trigger] bit(0x8100_0000_0000_0000u64, j) == (j == 56 || j == 63),
        forall|j: u64| j < 64 ==> #[trigger] bit(0x0800_0000_0000_0000u64, j) == (j == 59),
        forall|j: u64| j < 64 ==> #[trigger] bit(0x1000_0000_0000_0000u64, j) == (j == 60),
        forall|j: u64| j < 64 ==> #[trigger] bit(0xFFFF_0000_0000_0000u64, j) == (48 <= j),
{
}

impl Player {
    /// The starting side of the given color: pawns on the second rank,
    /// the back rank in the usual order, all flags cleared.
    pub fn new(color: PlayerColor) -> (r: Player)
        ensures
            r == spec_initial_player(color),
    {
        let pawn_off: u64 = match color {
            PlayerColor::White => 8,
            PlayerColor::Black => 48,
        };
        let mut pawns: Bitboard = Bitboard::new();
        proof {
            lemma_bit_basics();
        }
        let mut i: u64 = 0;
        while i < 8
            invariant
                i <= 8,
                pawn_off == 8 || pawn_off == 48,
                forall|j: u64| j < 64 ==> bit(pawns.board, j) == (pawn_off <= j < pawn_off + i),
            decreases 8 - i,
        {
            pawns.set_square(i + pawn_off);
            proof {
                lemma_bit_basics();
            }
            i = i + 1;
        }

        let back_off: u64 = match color {
            PlayerColor::White => 0,
            PlayerColor::Black => 56,
        };

        let mut knights: Bitboard = Bitboard::new();
        knights.set_square(1 + back_off);
        knights.set_square(6 + back_off);

        let mut bishops: Bitboard = Bitboard::new();
        bishops.set_square(2 + back_off);
        bishops.set_square(5 + back_off);

        let mut rooks: Bitboard = Bitboard::new();
        rooks.set_square(back_off);
        rooks.set_square(7 + back_off);

        let mut queen: Bitboard = Bitboard::new();
        queen.set_square(3 + back_off);

        let mut king: Bitboard = Bitboard::new();
        king.set_square(4 + back_off);

        let mut pieces: Bitboard = Bitboard::new();
        pieces.set_board(
            pawns.get_board() | knights.get_board() | bishops.get_board() | rooks.get_board()
                | queen.get_board() | king.get_board(),
        );

        proof {
            lemma_bit_basics();
            lemma_initial_bits();
            let target = spec_initial_player(color);
            lemma_bit_ext(pawns.board, target.pawns.board);
            lemma_bit_ext(knights.board, target.knights.board);
            lemma_bit_ext(bishops.board, target.bishops.board);
            lemma_bit_ext(rooks.board, target.rooks.board);
            lemma_bit_ext(queen.board, target.queen.board);
            lemma_bit_ext(king.board, target.king.board);
            lemma_bit_ext(pieces.board, target.pieces.board);
        }

        Player {
            color,
            pieces,
            pawns,
            knights,
            bishops,
            rooks,
            queen,
            king,
            has_left_rook_moved: false,
            has_right_rook_moved: false,
            has_king_moved: false,
            has_king_been_in_check: false,
        }
    }

    /// The all-pieces board of this side.
    pub fn get_board(&self) -> (r: u64)
        ensures
            r == self.pieces.board,
    {
        self.pieces.get_board()
    }

    /// Move this side's piece from `from` to `to`, updating the board of
    /// its kind and the castling flags; reports `PieceNotFound` when no
    /// piece stands on `from`.
    pub fn make_move(&mut self, from: u64, to: u64) -> (r: Result<(), BitboardError>)
        requires
            from < 64,
            to < 64,
        ensures
            *final(self) == spec_after_move(*old(self), from, to),
            r is Ok <==> spec_piece_at(*old(self), from) != PieceType::Empty,
            r is Err ==> r == Err::<(), BitboardError>(BitboardError::PieceNotFound),
    {
        self.pieces.clear_square(from);
        self.pieces.set_square(to);

        let kind = match self.get_piece_type(from) {
            Ok(k) => k,
            Err(_) => {
                return Err(BitboardError::PieceNotFound);
            },
        };

        match kind {
            PieceType::Pawn => {
                self.pawns.clear_square(from);
                self.pawns.set_square(to);
            },
            PieceType::Knight => {
                self.knights.clear_square(from);
                self.knights.set_square(to);
            },
            PieceType::Bishop => {
                self.bishops.clear_square(from);
                self.bishops.set_square(to);
            },
            PieceType::Rook => {
                self.rooks.clear_square(from);
                self.rooks.set_square(to);
                match self.color {
                    PlayerColor::White => {
                        if from == 0 {
                            self.has_left_rook_moved = true;
                        } else if from == 7 {
                            self.has_right_rook_moved = true;
                        }
                    },
                    PlayerColor::Black => {
                        if from == 56 {
                            self.has_left_rook_moved = true;
                        } else if from == 63 {
                            self.has_right_rook_moved = true;
                        }
                    },
                }
            },
            PieceType::Queen => {
                self.queen.clear_square(from);
                self.queen.set_square(to);
            },
            PieceType::King => {
                self.king.clear_square(from);
                self.king.set_square(to);
                self.has_king_moved = true;
            },
            PieceType::Empty => {
                return Err(BitboardError::PieceNotFound);
            },
        }

        Ok(())
    }

    /// Remove whatever piece of this side stands on `to`, after the
    /// opponent moved there.
    pub fn update_table_after_opponent_move(&mut self, to: u64) -> (r: Result<(), BitboardError>)
        requires
            to < 64,
        ensures
            *final(self) == spec_after_capture(*old(self), to),
            r == Ok::<(), BitboardError>(()),
    {
        self.pieces.clear_square(to);

        let kind = match self.get_piece_type(to) {
            Ok(k) => k,
            Err(_) => {
                return Ok(());
            },
        };

        match kind {
            PieceType::Pawn => self.pawns.clear_square(to),
            PieceType::Knight => self.knights.clear_square(to),
            PieceType::Bishop => self.bishops.clear_square(to),
            PieceType::Rook => self.rooks.clear_square(to),
            PieceType::Queen => self.queen.clear_square(to),
            PieceType::King => self.king.clear_square(to),
            PieceType::Empty => (),
        }

        Ok(())
    }

    /// Move the pawn from `origin` to `position` and replace it there by
    /// the chosen piece kind. Pawn and king are invalid promotion
    /// targets and are rejected before anything moves.
    pub fn promote_pawn(&mut self, origin: u64, position: u64, piece_type: PieceType) -> (r: Result<
        (),
        BitboardError,
    >)
        requires
            origin < 64,
            position < 64,
        ensures
            r is Ok <==> (spec_piece_at(*old(self), origin) != PieceType::Empty && (piece_type
                == PieceType::Knight || piece_type == PieceType::Bishop || piece_type
                == PieceType::Rook || piece_type == PieceType::Queen)),
            r is Ok ==> *final(self) == spec_after_promotion(
                *old(self),
                origin,
                position,
                piece_type,
            ),
            r is Err ==> r == Err::<(), BitboardError>(BitboardError::InvalidPromotion),
            (piece_type == PieceType::Pawn || piece_type == PieceType::King || piece_type
                == PieceType::Empty) ==> *final(self) == *old(self),
            r is Err && !(piece_type == PieceType::Pawn || piece_type == PieceType::King
                || piece_type == PieceType::Empty) ==> *final(self) == spec_after_move(
                *old(self),
                origin,
                position,
            ),
    {
        if matches!(piece_type, PieceType::Pawn | PieceType::King | PieceType::Empty) {
            return Err(BitboardError::InvalidPromotion);
        }

        let move_res = self.make_move(origin, position);
        if move_res.is_err() {
            return Err(BitboardError::InvalidPromotion);
        }

        match piece_type {
            PieceType::Knight => {
                self.pawns.clear_square(position);
                self.knights.set_square(position);
                Ok(())
            },
            PieceType::Bishop => {
                self.pawns.clear_square(position);
                self.bishops.set_square(position);
                Ok(())
            },
            PieceType::Rook => {
                self.pawns.clear_square(position);
                self.rooks.set_square(position);
                Ok(())
            },
            PieceType::Queen => {
                self.pawns.clear_square(position);
                self.queen.set_square(position);
                Ok(())
            },
            _ => Err(BitboardError::InvalidPromotion),
        }
    }

    /// King's-side castling: king and h-file rook jump to their castled
    /// squares in one step.
    pub fn perform_small_castling(&mut self) -> (r: Result<(), BitboardError>)
        ensures
            ({
                let kf = king_start(old(self).color);
                let rf = right_rook_start(old(self).color);
                let a1 = spec_after_move(*old(self), kf, (kf + 2) as u64);
                if spec_piece_at(*old(self), kf) == PieceType::Empty {
                    r == Err::<(), BitboardError>(BitboardError::InvalidCastling) && *final(self)
                        == a1
                } else {
                    *final(self) == spec_after_move(a1, rf, (rf - 2) as u64) && (r is Ok
                        <==> spec_piece_at(a1, rf) != PieceType::Empty) && (r is Err ==> r
                        == Err::<(), BitboardError>(BitboardError::InvalidCastling))
                }
            }),
    {
        match self.color {
            PlayerColor::White => {
                if self.make_move(4, 6).is_err() {
                    return Err(BitboardError::InvalidCastling);
                }
                if self.make_move(7, 5).is_err() {
                    return Err(BitboardError::InvalidCastling);
                }
            },
            PlayerColor::Black => {
                if self.make_move(60, 62).is_err() {
                    return Err(BitboardError::InvalidCastling);
                }
                if self.make_move(63, 61).is_err() {
                    return Err(BitboardError::InvalidCastling);
                }
            },
        }

        Ok(())
    }

    /// Queen's-side castling: king and a-file rook jump to their castled
    /// squares in one step.
    pub fn perform_big_castling(&mut self) -> (r: Result<(), BitboardError>)
        ensures
            ({
                let kf = king_start(old(self).color);
                let rf = left_rook_start(old(self).color);
                let a1 = spec_after_move(*old(self), kf, (kf - 2) as u64);
                if spec_piece_at(*old(self), kf) == PieceType::Empty {
                    r == Err::<(), BitboardError>(BitboardError::InvalidCastling) && *final(self)
                        == a1
                } else {
                    *final(self) == spec_after_move(a1, rf, (rf + 3) as u64) && (r is Ok
                        <==> spec_piece_at(a1, rf) != PieceType::Empty) && (r is Err ==> r
                        == Err::<(), BitboardError>(BitboardError::InvalidCastling))
                }
            }),
    {
        match self.color {
            PlayerColor::White => {
                if self.make_move(4, 2).is_err() {
                    return Err(BitboardError::InvalidCastling);
                }
                if self.make_move(0, 3).is_err() {
                    return Err(BitboardError::InvalidCastling);
                }
            },
            PlayerColor::Black => {
                if self.make_move(60, 58).is_err() {
                    return Err(BitboardError::InvalidCastling);
                }
                if self.make_move(56, 59).is_err() {
                    return Err(BitboardError::InvalidCastling);
                }
            },
        }

        Ok(())
    }

    /// The piece kind of this side standing on `position`, `Empty` for
    /// an empty square.
    pub fn get_piece_type(&mut self, position: u64) -> (r: Result<PieceType, PieceError>)
        requires
            position < 64,
        ensures
            *final(self) == *old(self),
            r == Ok::<PieceType, PieceError>(spec_piece_at(*old(self), position)),
    {
        if self.pawns.get_square(position) {
            return Ok(PieceType::Pawn);
        }
        if self.knights.get_square(position) {
            return Ok(PieceType::Knight);
        }
        if self.bishops.get_square(position) {
            return Ok(PieceType::Bishop);
        }
        if self.rooks.get_square(position) {
            return Ok(PieceType::Rook);
        }
        if self.queen.get_square(position) {
            return Ok(PieceType::Queen);
        }
        if self.king.get_square(position) {
            return Ok(PieceType::King);
        }
        Ok(PieceType::Empty)
    }

    /// Whether this side occupies `position`.
    pub fn has_piece_on(&self, position: u64) -> (r: bool)
        requires
            position < 64,
        ensures
            r == bit(self.pieces.board, position),
    {
        self.pieces.get_square(position)
    }

    /// Whether this side's king stands inside the window that spans
    /// indices `position - 1 ..= position + 1` on both axes of the
    /// square grid.
    pub fn has_king_around(&self, position: u64) -> (r: bool)
        requires
            position < 64,
        ensures
            r == (self.king.board & spec_near_window(position as int) != 0),
    {
        let mid_position: i64 = position as i64;

        let mut valid_positions: u64 = near_window_term(mid_position, -1, -1);
        valid_positions = valid_positions | near_window_term(mid_position, -1, 0);
        valid_positions = valid_positions | near_window_term(mid_position, -1, 1);
        valid_positions = valid_positions | near_window_term(mid_position, 0, -1);
        valid_positions = valid_positions | near_window_term(mid_position, 0, 0);
        valid_positions = valid_positions | near_window_term(mid_position, 0, 1);
        valid_positions = valid_positions | near_window_term(mid_position, 1, -1);
        valid_positions = valid_positions | near_window_term(mid_position, 1, 0);
        valid_positions = valid_positions | near_window_term(mid_position, 1, 1);

        let king = self.king.get_board() & valid_positions;
        proof {
            crate::bits::lemma_popcnt_zero_iff(king);
        }
        let king_board = Bitboard::from(king);
        king_board.get_num_squares() > 0
    }

    /// The square index of this side's king: the least set bit of the
    /// king board, 64 when the king is gone.
    pub fn get_king_position_on_board(&self) -> (r: u64)
        ensures
            r == lsb(self.king.board),
            r <= 64,
            r < 64 ==> bit(self.king.board, r),
            self.king.board != 0 ==> r < 64,
    {
        proof {
            lemma_bit_basics();
            lemma_lsb_from(self.king.board, 0);
            crate::bits::lemma_zero_bits(self.king.board);
        }
        let mut i: u64 = 0;
        while i < 64
            invariant
                i <= 64,
                forall|j: u64| j < i ==> !bit(self.king.board, j),
            decreases 64 - i,
        {
            if self.king.get_square(i) {
                proof {
                    lemma_bit_basics();
                    lemma_lsb_from(self.king.board, 0);
                    let b = self.king.board;
                    let l = lsb_from(b, 0);
                    if l < i {
                        assert(bit(b, l));
                        assert(!bit(b, l));
                    }
                    if l > i {
                        assert(!bit(b, i));
                    }
                }
                return i;
            }
            i = i + 1;
        }
        proof {
            let b = self.king.board;
            let l = lsb_from(b, 0);
            if l < 64 {
                assert(bit(b, l));
                assert(!bit(b, l));
            }
        }
        64
    }

    /// Latch the record that this side's king has been in check; the
    /// flag never goes back to false, whatever value is handed in.
    pub fn set_king_in_check(&mut self, _value: bool)
        ensures
            *final(self) == (Player { has_king_been_in_check: true, ..*old(self) }),
    {
        self.has_king_been_in_check = true;
    }
}

/// The window board `has_king_around` masks with: one term per offset
/// pair, kept only when both shifted indices stay inside `0 .. 8`.
pub open spec fn spec_near_window(p: int) -> u64 {
    spec_near_window_term(p, -1, -1) | spec_near_window_term(p, -1, 0) | spec_near_window_term(
        p,
        -1,
        1,
    ) | spec_near_window_term(p, 0, -1) | spec_near_window_term(p, 0, 0) | spec_near_window_term(
        p,
        0,
        1,
    ) | spec_near_window_term(p, 1, -1) | spec_near_window_term(p, 1, 0) | spec_near_window_term(
        p,
        1,
        1,
    )
}

pub open spec fn spec_near_window_term(p: int, di: int, dj: int) -> u64 {
    if 0 <= p + di < 8 && 0 <= p + dj < 8 {
        1u64 << (((p + di) * 8 + (p + dj)) as u64)
    } else {
        0u64
    }
}

fn near_window_term(p: i64, di: i64, dj: i64) -> (r: u64)
    requires
        0 <= p < 64,
        -1 <= di <= 1,
        -1 <= dj <= 1,
    ensures
        r == spec_near_window_term(p as int, di as int, dj as int),
{
    let i = p + di;
    let j = p + dj;
    if 0 <= i && i < 8 && 0 <= j && j < 8 {
        1u64 << ((i * 8 + j) as u64)
    } else {
        0u64
    }
}

/// Whether square `i` could be read consistently on this side: the
/// all-pieces bit agrees with the per-kind boards, and no two kinds
/// claim the square.
pub open spec fn wf_at(p: Player, i: u64) -> bool {
    &&& bit(p.pieces.board, i) == (spec_piece_at(p, i) != PieceType::Empty)
    &&& (bit(p.pawns.board, i) ==> !bit(p.knights.board, i) && !bit(p.bishops.board, i) && !bit(
        p.rooks.board,
        i,
    ) && !bit(p.queen.board, i) && !bit(p.king.board, i))
    &&& (bit(p.knights.board, i) ==> !bit(p.bishops.board, i) && !bit(p.rooks.board, i) && !bit(
        p.queen.board,
        i,
    ) && !bit(p.king.board, i))
    &&& (bit(p.bishops.board, i) ==> !bit(p.rooks.board, i) && !bit(p.queen.board, i) && !bit(
        p.king.board,
        i,
    ))
    &&& (bit(p.rooks.board, i) ==> !bit(p.queen.board, i) && !bit(p.king.board, i))
    &&& (bit(p.queen.board, i) ==> !bit(p.king.board, i))
}

/// A well-formed side: every square reads consistently, so the
/// all-pieces board is the disjoint union of the six per-kind boards.
pub open spec fn side_wf(p: Player) -> bool {
    forall|i: u64| i < 64 ==> #[trigger] wf_at(p, i)
}

/// This side keeps exactly one king.
pub open spec fn one_king(p: Player) -> bool {
    popcnt(p.king.board) == 1
}

/// No pawn of this side stands on the first or the last rank.
pub open spec fn pawn_ranks_ok(p: Player) -> bool {
    forall|i: u64| i < 64 && #[trigger] bit(p.pawns.board, i) ==> 8 <= i < 56
}

} // verus!
