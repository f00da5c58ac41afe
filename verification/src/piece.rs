//! Piece kinds and the pure move rules: per-kind geometry checks,
//! attack/move destination boards, blocking checks, and the special-move
//! predicates for en passant, castling and promotion.

use vstd::prelude::*;

use crate::bitboard::Bitboard;
use crate::bits::{bit, lemma_bit_basics};
use crate::exceptions::PieceError;
use crate::player::{spec_piece_at, Player, PlayerColor};

verus! {

#[derive(Debug, Clone, Copy, PartialEq, Eq, Structural)]
pub enum PieceType {
    Pawn,
    Knight,
    Bishop,
    Rook,
    Queen,
    King,
    Empty,
}

/// Rank of a square index: 0 is rank 1, 7 is rank 8.
pub open spec fn rank_of(s: u64) -> int {
    s as int / 8
}

/// File of a square index: 0 is the a-file, 7 the h-file.
pub open spec fn file_of(s: u64) -> int {
    s as int % 8
}

/// Signed rank distance from `from` to `to`.
pub open spec fn rank_diff(from: u64, to: u64) -> int {
    rank_of(to) - rank_of(from)
}

/// Signed file distance from `from` to `to`.
pub open spec fn file_diff(from: u64, to: u64) -> int {
    file_of(to) - file_of(from)
}

/// The checks every move must pass: two distinct on-board squares.
pub open spec fn basic_ok(from: u64, to: u64) -> bool {
    from != to && from < 64 && to < 64
}

/// A square index splits into its rank and file.
pub proof fn lemma_square_decomp(s: u64)
    requires
        s < 64,
    ensures
        s as int == 8 * rank_of(s) + file_of(s),
        0 <= file_of(s) < 8,
        0 <= rank_of(s) < 8,
{
    vstd::arithmetic::div_mod::lemma_fundamental_div_mod(s as int, 8);
}

/// Pawn geometry: one forward (straight or diagonal), or two forward
/// from the starting rank; forward is up the board for White and down
/// for Black.
pub open spec fn spec_pawn_ok(from: u64, to: u64, color: PlayerColor) -> bool {
    basic_ok(from, to) && match color {
        PlayerColor::White => (rank_of(from) == 1 && rank_diff(from, to) == 2 && file_diff(from, to)
            == 0) || (rank_diff(from, to) == 1 && (file_diff(from, to) == 0 || file_diff(from, to)
            == 1 || file_diff(from, to) == -1)),
        PlayerColor::Black => (rank_of(from) == 6 && rank_diff(from, to) == -2 && file_diff(
            from,
            to,
        ) == 0) || (rank_diff(from, to) == -1 && (file_diff(from, to) == 0 || file_diff(from, to)
            == 1 || file_diff(from, to) == -1)),
    }
}

/// Knight geometry: an L-shape of two ranks and one file or one rank
/// and two files.
pub open spec fn spec_knight_ok(from: u64, to: u64) -> bool {
    basic_ok(from, to) && ({
        let rd = rank_diff(from, to);
        let fd = file_diff(from, to);
        (rd == 2 && fd == 1) || (rd == 2 && fd == -1) || (rd == -2 && fd == 1) || (rd == -2 && fd
            == -1) || (rd == 1 && fd == 2) || (rd == 1 && fd == -2) || (rd == -1 && fd == 2) || (rd
            == -1 && fd == -2)
    })
}

/// King geometry: one step in any direction, or one of the four
/// castling signatures (e1 to c1 or g1, e8 to c8 or g8).
pub open spec fn spec_king_ok(from: u64, to: u64) -> bool {
    basic_ok(from, to) && ({
        let rd = rank_diff(from, to);
        let fd = file_diff(from, to);
        (-1 <= rd <= 1 && -1 <= fd <= 1) || (from == 4 && (to == 2 || to == 6)) || (from == 60 && (
        to == 58 || to == 62))
    })
}

/// Queen geometry: along a rank, a file or a diagonal.
pub open spec fn spec_queen_line_ok(from: u64, to: u64) -> bool {
    let rd = rank_diff(from, to);
    let fd = file_diff(from, to);
    rd == 0 || fd == 0 || rd == fd || rd == -fd
}

impl PieceType {
    /// Material worth of the piece kind in pawns.
    pub open spec fn spec_value(self) -> int {
        match self {
            PieceType::Pawn => 1,
            PieceType::Knight => 3,
            PieceType::Bishop => 3,
            PieceType::Rook => 5,
            PieceType::Queen => 9,
            PieceType::King => 0,
            PieceType::Empty => 0,
        }
    }
}

/// Shared prefix of every geometry check: rejects `from == to` and
/// off-board squares, and hands back the origin rank and the signed
/// rank and file distances.
fn basic_position_check(from: u64, to: u64) -> (r: Result<(u64, i64, i64), PieceError>)
    ensures
        r is Ok <==> basic_ok(from, to),
        r is Ok ==> r->Ok_0 == (((from / 8) as u64, rank_diff(from, to) as i64, file_diff(
            from,
            to,
        ) as i64)),
        r is Err ==> r == Err::<(u64, i64, i64), PieceError>(PieceError::InvalidMove),
        r is Ok ==> -7 <= rank_diff(from, to) <= 7 && -7 <= file_diff(from, to) <= 7,
{
    if (from == to) || (from >= 64) || (to >= 64) {
        return Err(PieceError::InvalidMove);
    }
    proof {
        lemma_square_decomp(from);
        lemma_square_decomp(to);
    }

    let from_rank = from / 8;
    let to_rank = to / 8;

    let from_file = from % 8;
    let to_file = to % 8;

    let rank_d: i64 = to_rank as i64 - from_rank as i64;
    let file_d: i64 = to_file as i64 - from_file as i64;

    Ok((from_rank, rank_d, file_d))
}

/// Whether the pawn move has valid geometry for its color.
pub fn is_pawn_move_valid(from: u64, to: u64, color: PlayerColor) -> (r: Result<(), PieceError>)
    ensures
        r is Ok <==> spec_pawn_ok(from, to, color),
        r is Err ==> r == Err::<(), PieceError>(PieceError::InvalidMove),
{
    let (from_rank, rank_d, file_d) = match basic_position_check(from, to) {
        Ok(t) => t,
        Err(e) => {
            return Err(e);
        },
    };

    match color {
        PlayerColor::White => is_pawn_move_valid_for_white(from_rank, rank_d, file_d),
        PlayerColor::Black => is_pawn_move_valid_for_black(from_rank, rank_d, file_d),
    }
}

fn is_pawn_move_valid_for_white(from_rank: u64, rank_d: i64, file_d: i64) -> (r: Result<
    (),
    PieceError,
>)
    ensures
        r is Ok <==> ((from_rank == 1 && rank_d == 2 && file_d == 0) || (rank_d == 1 && (file_d
            == 0 || file_d == 1 || file_d == -1))),
        r is Err ==> r == Err::<(), PieceError>(PieceError::InvalidMove),
{
    if from_rank == 1 && rank_d == 2 && file_d == 0 {
        return Ok(());
    }
    if rank_d == 1 && file_d == 0 {
        return Ok(());
    }
    if rank_d == 1 && file_d == 1 {
        return Ok(());
    }
    if rank_d == 1 && file_d == -1 {
        return Ok(());
    }
    Err(PieceError::InvalidMove)
}

fn is_pawn_move_valid_for_black(from_rank: u64, rank_d: i64, file_d: i64) -> (r: Result<
    (),
    PieceError,
>)
    ensures
        r is Ok <==> ((from_rank == 6 && rank_d == -2 && file_d == 0) || (rank_d == -1 && (file_d
            == 0 || file_d == 1 || file_d == -1))),
        r is Err ==> r == Err::<(), PieceError>(PieceError::InvalidMove),
{
    if from_rank == 6 && rank_d == -2 && file_d == 0 {
        return Ok(());
    }
    if rank_d == -1 && file_d == 0 {
        return Ok(());
    }
    if rank_d == -1 && file_d == 1 {
        return Ok(());
    }
    if rank_d == -1 && file_d == -1 {
        return Ok(());
    }
    Err(PieceError::InvalidMove)
}

/// Whether the knight move has valid geometry.
pub fn is_knight_move_valid(from: u64, to: u64) -> (r: Result<(), PieceError>)
    ensures
        r is Ok <==> spec_knight_ok(from, to),
        r is Err ==> r == Err::<(), PieceError>(PieceError::InvalidMove),
{
    let (_, rank_d, file_d) = match basic_position_check(from, to) {
        Ok(t) => t,
        Err(e) => {
            return Err(e);
        },
    };

    if (rank_d == 2 && file_d == 1) || (rank_d == 2 && file_d == -1) || (rank_d == -2 && file_d
        == 1) || (rank_d == -2 && file_d == -1) || (rank_d == 1 && file_d == 2) || (rank_d == 1
        && file_d == -2) || (rank_d == -1 && file_d == 2) || (rank_d == -1 && file_d == -2) {
        return Ok(());
    }

    Err(PieceError::InvalidMove)
}

/// Whether the king move has valid geometry: one step, or a castling
/// signature.
pub fn is_king_move_valid(from: u64, to: u64) -> (r: Result<(), PieceError>)
    ensures
        r is Ok <==> spec_king_ok(from, to),
        r is Err ==> r == Err::<(), PieceError>(PieceError::InvalidMove),
{
    let (_, rank_d, file_d) = match basic_position_check(from, to) {
        Ok(t) => t,
        Err(e) => {
            return Err(e);
        },
    };

    if -1 <= rank_d && rank_d <= 1 && -1 <= file_d && file_d <= 1 {
        return Ok(());
    }

    if from == 4 && (to == 2 || to == 6) {
        return Ok(());
    }

    if from == 60 && (to == 58 || to == 62) {
        return Ok(());
    }

    Err(PieceError::InvalidMove)
}

/// Which squares the pawn on `pos` attacks: the one or two diagonally
/// forward squares that stay on the board.
pub open spec fn pawn_attack_hit(pos: u64, color: PlayerColor, t: u64) -> bool {
    match color {
        PlayerColor::White => (pos % 8 != 0 && pos < 56 && t == pos + 7) || (pos % 8 != 7 && pos
            < 56 && t == pos + 9),
        PlayerColor::Black => (pos % 8 != 0 && pos > 7 && t == pos - 9) || (pos % 8 != 7 && pos > 7
            && t == pos - 7),
    }
}

/// The board of squares the pawn on `pos` attacks (diagonal captures
/// only, whatever the occupancy).
pub fn get_pawn_attack_moves(pos: u64, color: PlayerColor) -> (r: u64)
    requires
        pos < 64,
    ensures
        forall|t: u64| t < 64 ==> bit(r, t) == pawn_attack_hit(pos, color, t),
{
    proof {
        lemma_bit_basics();
    }
    let mut moves: u64 = 0;

    match color {
        PlayerColor::White => {
            if pos % 8 != 0 && pos < 56 {
                moves = moves | (1u64 << (pos + 7));
            }
            if pos % 8 != 7 && pos < 56 {
                proof {
                    lemma_square_decomp(pos);
                }
                moves = moves | (1u64 << (pos + 9));
            }
        },
        PlayerColor::Black => {
            if pos % 8 != 0 && pos > 7 {
                moves = moves | (1u64 << (pos - 9));
            }
            if pos % 8 != 7 && pos > 7 {
                moves = moves | (1u64 << (pos - 7));
            }
        },
    }

    moves
}

/// Which squares the pawn on `pos` can be sent to, before blocking
/// checks: one forward when on the board, two forward from the start
/// rank when the square ahead is free in `board`, and the on-board
/// forward diagonals.
pub open spec fn pawn_move_hit(board: u64, pos: u64, color: PlayerColor, t: u64) -> bool {
    match color {
        PlayerColor::White => (pos < 56 && t == pos + 8) || (pos / 8 == 1 && !bit(
            board,
            (pos + 8) as u64,
        ) && t == pos + 16) || (pos % 8 != 0 && pos < 56 && t == pos + 7) || (pos % 8 != 7 && pos
            < 56 && t == pos + 9),
        PlayerColor::Black => (pos > 7 && t == pos - 8) || (pos / 8 == 6 && !bit(
            board,
            (pos - 8) as u64,
        ) && t == pos - 16) || (pos % 8 != 0 && pos > 7 && t == pos - 9) || (pos % 8 != 7 && pos > 7
            && t == pos - 7),
    }
}

/// The board of candidate pawn destinations from `pos` given the
/// occupancy `board`.
pub fn get_pawn_moves(pos: u64, color: PlayerColor, board: u64) -> (r: u64)
    requires
        pos < 64,
    ensures
        forall|t: u64| t < 64 ==> bit(r, t) == pawn_move_hit(board, pos, color, t),
{
    proof {
        lemma_bit_basics();
        lemma_square_decomp(pos);
    }
    let mut moves: u64 = 0;

    match color {
        PlayerColor::White => {
            if pos < 56 {
                moves = moves | (1u64 << (pos + 8));
            }
            if (pos / 8) == 1 && (board & (1u64 << (pos + 8)) == 0) {
                moves = moves | (1u64 << (pos + 16));
            }
        },
        PlayerColor::Black => {
            if pos > 7 {
                moves = moves | (1u64 << (pos - 8));
            }
            if (pos / 8) == 6 && (board & (1u64 << (pos - 8)) == 0) {
                moves = moves | (1u64 << (pos - 16));
            }
        },
    }

    if pos % 8 != 0 {
        match color {
            PlayerColor::White => {
                if pos < 56 {
                    moves = moves | (1u64 << (pos + 7));
                }
            },
            PlayerColor::Black => {
                if pos > 7 {
                    moves = moves | (1u64 << (pos - 9));
                }
            },
        }
    }

    if pos % 8 != 7 {
        match color {
            PlayerColor::White => {
                if pos < 56 {
                    moves = moves | (1u64 << (pos + 9));
                }
            },
            PlayerColor::Black => {
                if pos > 7 {
                    moves = moves | (1u64 << (pos - 7));
                }
            },
        }
    }

    moves
}

/// Which squares the knight on `pos` reaches: the eight L-shapes,
/// clipped at the board edge by file and index bounds.
pub open spec fn knight_hit(pos: u64, t: u64) -> bool {
    (pos % 8 > 1 && pos < 56 && t == pos + 6) || (pos % 8 > 1 && pos > 7 && t == pos - 10) || (pos
        % 8 > 0 && pos < 48 && t == pos + 15) || (pos % 8 > 0 && pos > 15 && t == pos - 17) || (pos
        % 8 < 6 && pos < 56 && t == pos + 10) || (pos % 8 < 6 && pos > 7 && t == pos - 6) || (pos
        % 8 < 7 && pos < 48 && t == pos + 17) || (pos % 8 < 7 && pos > 15 && t == pos - 15)
}

/// The board of knight destinations from `pos`.
pub fn get_knight_moves(pos: u64) -> (r: u64)
    requires
        pos < 64,
    ensures
        forall|t: u64| t < 64 ==> bit(r, t) == knight_hit(pos, t),
{
    proof {
        lemma_bit_basics();
        lemma_square_decomp(pos);
    }
    let mut moves: u64 = 0;

    if pos % 8 > 1 {
        if pos < 56 {
            moves = moves | (1u64 << (pos + 6));
        }
        if pos > 7 {
            moves = moves | (1u64 << (pos - 10));
        }
    }

    if pos % 8 > 0 {
        if pos < 48 {
            moves = moves | (1u64 << (pos + 15));
        }
        if pos > 15 {
            moves = moves | (1u64 << (pos - 17));
        }
    }

    if pos % 8 < 6 {
        if pos < 56 {
            moves = moves | (1u64 << (pos + 10));
        }
        if pos > 7 {
            moves = moves | (1u64 << (pos - 6));
        }
    }

    if pos % 8 < 7 {
        if pos < 48 {
            moves = moves | (1u64 << (pos + 17));
        }
        if pos > 15 {
            moves = moves | (1u64 << (pos - 15));
        }
    }

    moves
}

/// Which squares the king on `pos` reaches: the up-to-eight neighbours
/// that stay on the board.
pub open spec fn king_hit(pos: u64, t: u64) -> bool {
    (pos < 56 && t == pos + 8) || (pos > 7 && t == pos - 8) || (pos % 8 != 0 && pos < 56 && t == pos
        + 7) || (pos % 8 != 0 && pos > 7 && t == pos - 9) || (pos % 8 != 0 && t == pos - 1) || (pos
        % 8 != 7 && pos < 56 && t == pos + 9) || (pos % 8 != 7 && pos > 7 && t == pos - 7) || (pos
        % 8 != 7 && t == pos + 1)
}

/// One of the eight ray directions a slider can walk.
#[derive(Debug, Clone, Copy, PartialEq, Eq, Structural)]
pub enum Direction {
    NorthEast,
    NorthWest,
    SouthEast,
    SouthWest,
    North,
    South,
    East,
    West,
}

/// Index change of one step in the direction.
pub open spec fn dir_step(d: Direction) -> int {
    match d {
        Direction::NorthEast => 9,
        Direction::NorthWest => 7,
        Direction::SouthEast => -7,
        Direction::SouthWest => -9,
        Direction::North => 8,
        Direction::South => -8,
        Direction::East => 1,
        Direction::West => -1,
    }
}

/// The file a ray in this direction may not touch: reaching it means
/// the walk wrapped around the board edge. 8 stands for no such file
/// (the vertical rays never wrap).
pub open spec fn dir_stop_file(d: Direction) -> int {
    match d {
        Direction::NorthEast => 0,
        Direction::NorthWest => 7,
        Direction::SouthEast => 0,
        Direction::SouthWest => 7,
        Direction::North => 8,
        Direction::South => 8,
        Direction::East => 0,
        Direction::West => 7,
    }
}

/// Whether a ray walk that stands on square `i` (about to include it)
/// reaches `t`: squares are included until the walk leaves the board,
/// wraps onto the stop file, or has included an occupied square.
pub open spec fn ray_hit(board: u64, i: int, d: Direction, t: u64) -> bool
    decreases (if dir_step(d) > 0 {
        80 - i
    } else {
        i + 16
    }),
{
    if i < 0 || i >= 64 || i % 8 == dir_stop_file(d) || i < -16 || i > 80 {
        false
    } else if i == t {
        true
    } else if bit(board, i as u64) {
        false
    } else {
        ray_hit(board, i + dir_step(d), d, t)
    }
}

fn dir_step_exec(d: Direction) -> (r: i64)
    ensures
        r == dir_step(d),
{
    match d {
        Direction::NorthEast => 9,
        Direction::NorthWest => 7,
        Direction::SouthEast => -7,
        Direction::SouthWest => -9,
        Direction::North => 8,
        Direction::South => -8,
        Direction::East => 1,
        Direction::West => -1,
    }
}

fn dir_stop_file_exec(d: Direction) -> (r: i64)
    ensures
        r == dir_stop_file(d),
{
    match d {
        Direction::NorthEast => 0,
        Direction::NorthWest => 7,
        Direction::SouthEast => 0,
        Direction::SouthWest => 7,
        Direction::North => 8,
        Direction::South => 8,
        Direction::East => 0,
        Direction::West => 7,
    }
}

/// Walk one ray from `start`, collecting squares until the board edge,
/// the wrap file, or the first occupied square (which is included).
fn walk_ray(board: u64, start: i64, d: Direction) -> (r: u64)
    requires
        -9 <= start <= 72,
    ensures
        forall|t: u64| t < 64 ==> bit(r, t) == ray_hit(board, start as int, d, t),
{
    proof {
        lemma_bit_basics();
    }
    let step = dir_step_exec(d);
    let stop = dir_stop_file_exec(d);
    let mut moves: u64 = 0;
    let mut i: i64 = start;
    while 0 <= i && i < 64 && i % 8 != stop
        invariant_except_break
            -9 <= i <= 72,
            step == dir_step(d),
            stop == dir_stop_file(d),
            forall|t: u64|
                t < 64 ==> ray_hit(board, start as int, d, t) == (bit(moves, t) || ray_hit(
                    board,
                    i as int,
                    d,
                    t,
                )),
        ensures
            forall|t: u64| t < 64 ==> bit(moves, t) == ray_hit(board, start as int, d, t),
        decreases (if step > 0 {
            80 - i
        } else {
            i + 16
        }),
    {
        proof {
            lemma_bit_basics();
        }
        let ghost old_moves = moves;
        let ghost old_i = i as int;
        moves = moves | (1u64 << (i as u64));
        if (board & (1u64 << (i as u64))) != 0 {
            proof {
                assert forall|t: u64| t < 64 implies bit(moves, t) == ray_hit(
                    board,
                    start as int,
                    d,
                    t,
                ) by {
                    assert(ray_hit(board, old_i, d, t) == (old_i == t));
                    assert(bit(moves, t) == (bit(old_moves, t) || t == old_i));
                }
            }
            break ;
        }
        i = i + step;
        proof {
            assert forall|t: u64| t < 64 implies ray_hit(board, start as int, d, t) == (bit(
                moves,
                t,
            ) || ray_hit(board, i as int, d, t)) by {
                assert(ray_hit(board, old_i, d, t) == (old_i == t || ray_hit(
                    board,
                    old_i + dir_step(d),
                    d,
                    t,
                )));
                assert(bit(moves, t) == (bit(old_moves, t) || t == old_i));
            }
        }
    }
    moves
}

/// Whether a bishop on `pos` reaches `t` along one of its four rays.
pub open spec fn bishop_hit(board: u64, pos: u64, t: u64) -> bool {
    ray_hit(board, pos + 9, Direction::NorthEast, t) || ray_hit(
        board,
        pos + 7,
        Direction::NorthWest,
        t,
    ) || ray_hit(board, pos - 9, Direction::SouthWest, t) || ray_hit(
        board,
        pos - 7,
        Direction::SouthEast,
        t,
    )
}

/// The board of bishop destinations from `pos`: the four diagonal
/// rays, each stopping at (and including) the first occupied square.
pub fn get_bishop_moves(pos: u64, board: u64) -> (r: u64)
    requires
        pos < 64,
    ensures
        forall|t: u64| t < 64 ==> bit(r, t) == bishop_hit(board, pos, t),
{
    proof {
        lemma_bit_basics();
    }
    let p = pos as i64;
    let mut moves: u64 = walk_ray(board, p + 9, Direction::NorthEast);
    moves = moves | walk_ray(board, p + 7, Direction::NorthWest);
    moves = moves | walk_ray(board, p - 9, Direction::SouthWest);
    moves = moves | walk_ray(board, p - 7, Direction::SouthEast);
    moves
}

/// Whether a rook on `pos` reaches `t` along one of its four rays.
pub open spec fn rook_hit(board: u64, pos: u64, t: u64) -> bool {
    ray_hit(board, pos + 8, Direction::North, t) || ray_hit(
        board,
        pos - 8,
        Direction::South,
        t,
    ) || ray_hit(board, pos + 1, Direction::East, t) || ray_hit(
        board,
        pos - 1,
        Direction::West,
        t,
    )
}

/// The board of rook destinations from `pos`: the four orthogonal
/// rays, each stopping at (and including) the first occupied square.
pub fn get_rook_moves(pos: u64, board: u64) -> (r: u64)
    requires
        pos < 64,
    ensures
        forall|t: u64| t < 64 ==> bit(r, t) == rook_hit(board, pos, t),
{
    proof {
        lemma_bit_basics();
    }
    let p = pos as i64;
    let mut moves: u64 = walk_ray(board, p + 8, Direction::North);
    moves = moves | walk_ray(board, p - 8, Direction::South);
    moves = moves | walk_ray(board, p + 1, Direction::East);
    moves = moves | walk_ray(board, p - 1, Direction::West);
    moves
}

/// Whether a queen on `pos` reaches `t`: a bishop or a rook ray.
pub open spec fn queen_hit(board: u64, pos: u64, t: u64) -> bool {
    bishop_hit(board, pos, t) || rook_hit(board, pos, t)
}

/// The board of queen destinations from `pos`: the bishop and rook
/// rays together.
pub fn get_queen_moves(pos: u64, board: u64) -> (r: u64)
    requires
        pos < 64,
    ensures
        forall|t: u64| t < 64 ==> bit(r, t) == queen_hit(board, pos, t),
{
    proof {
        lemma_bit_basics();
    }
    get_bishop_moves(pos, board) | get_rook_moves(pos, board)
}

/// Bishop legality: diagonal signature and an unblocked ray to `to`.
pub open spec fn spec_bishop_valid(from: u64, to: u64, board: u64) -> bool {
    basic_ok(from, to) && (rank_diff(from, to) == file_diff(from, to) || rank_diff(from, to)
        == -file_diff(from, to)) && bishop_hit(board, from, to)
}

/// Whether the bishop move has valid geometry and an unblocked ray,
/// given the occupancy `board`.
pub fn is_bishop_move_valid(from: u64, to: u64, board: u64) -> (r: Result<(), PieceError>)
    ensures
        r is Ok <==> spec_bishop_valid(from, to, board),
        r is Err ==> r == Err::<(), PieceError>(PieceError::InvalidMove),
{
    let (_, rank_d, file_d) = match basic_position_check(from, to) {
        Ok(t) => t,
        Err(e) => {
            return Err(e);
        },
    };

    if rank_d == file_d || rank_d == -file_d {
        let bishop_moves = get_bishop_moves(from, board);
        proof {
            assert(bit(bishop_moves, to) == bishop_hit(board, from, to));
        }
        if (bishop_moves & (1u64 << to)) != 0 {
            return Ok(());
        }
    }

    Err(PieceError::InvalidMove)
}

/// Rook legality: straight signature and an unblocked ray to `to`.
pub open spec fn spec_rook_valid(from: u64, to: u64, board: u64) -> bool {
    basic_ok(from, to) && (rank_diff(from, to) == 0 || file_diff(from, to) == 0) && rook_hit(
        board,
        from,
        to,
    )
}

/// Whether the rook move has valid geometry and an unblocked ray,
/// given the occupancy `board`.
pub fn is_rook_move_valid(from: u64, to: u64, board: u64) -> (r: Result<(), PieceError>)
    ensures
        r is Ok <==> spec_rook_valid(from, to, board),
        r is Err ==> r == Err::<(), PieceError>(PieceError::InvalidMove),
{
    let (_, rank_d, file_d) = match basic_position_check(from, to) {
        Ok(t) => t,
        Err(e) => {
            return Err(e);
        },
    };

    if rank_d == 0 || file_d == 0 {
        let rook_moves = get_rook_moves(from, board);
        proof {
            assert(bit(rook_moves, to) == rook_hit(board, from, to));
        }
        if (rook_moves & (1u64 << to)) != 0 {
            return Ok(());
        }
    }

    Err(PieceError::InvalidMove)
}

/// Queen legality: straight or diagonal signature and an unblocked ray.
pub open spec fn spec_queen_valid(from: u64, to: u64, board: u64) -> bool {
    basic_ok(from, to) && spec_queen_line_ok(from, to) && queen_hit(board, from, to)
}

/// Whether the queen move has valid geometry and an unblocked ray,
/// given the occupancy `board`.
pub fn is_queen_move_valid(from: u64, to: u64, board: u64) -> (r: Result<(), PieceError>)
    ensures
        r is Ok <==> spec_queen_valid(from, to, board),
        r is Err ==> r == Err::<(), PieceError>(PieceError::InvalidMove),
{
    let (_, rank_d, file_d) = match basic_position_check(from, to) {
        Ok(t) => t,
        Err(e) => {
            return Err(e);
        },
    };

    if rank_d == 0 || file_d == 0 || rank_d == file_d || rank_d == -file_d {
        let queen_moves = get_queen_moves(from, board);
        proof {
            assert(bit(queen_moves, to) == queen_hit(board, from, to));
        }
        if (queen_moves & (1u64 << to)) != 0 {
            return Ok(());
        }
    }

    Err(PieceError::InvalidMove)
}

/// The board of king destinations from `pos`.
pub fn get_king_moves(pos: u64) -> (r: u64)
    requires
        pos < 64,
    ensures
        forall|t: u64| t < 64 ==> bit(r, t) == king_hit(pos, t),
{
    proof {
        lemma_bit_basics();
        lemma_square_decomp(pos);
    }
    let mut moves: u64 = 0;

    if pos < 56 {
        moves = moves | (1u64 << (pos + 8));
    }

    if pos > 7 {
        moves = moves | (1u64 << (pos - 8));
    }

    if pos % 8 != 0 {
        if pos < 56 {
            moves = moves | (1u64 << (pos + 7));
        }
        if pos > 7 {
            moves = moves | (1u64 << (pos - 9));
        }
        moves = moves | (1u64 << (pos - 1));
    }

    if pos % 8 != 7 {
        if pos < 56 {
            moves = moves | (1u64 << (pos + 9));
        }
        if pos > 7 {
            moves = moves | (1u64 << (pos - 7));
        }
        moves = moves | (1u64 << (pos + 1));
    }

    moves
}

/// A single piece of `opp` standing on `i` whose attack pattern covers
/// `sq`, ignoring any opponent piece standing on `sq` itself.
pub open spec fn attacker_at(opp: Player, occ: u64, sq: u64, i: u64) -> bool {
    bit(opp.pieces.board, i) && i != sq && ((bit(opp.pawns.board, i) && pawn_attack_hit(
        i,
        opp.color,
        sq,
    )) || (bit(opp.knights.board, i) && knight_hit(i, sq)) || (bit(opp.bishops.board, i)
        && bishop_hit(occ, i, sq)) || (bit(opp.rooks.board, i) && rook_hit(occ, i, sq)) || (bit(
        opp.queen.board,
        i,
    ) && queen_hit(occ, i, sq)) || (bit(opp.king.board, i) && king_hit(i, sq)))
}

/// Whether some piece of `opp` attacks `sq` under the occupancy `occ`:
/// a pawn by its capture pattern, a knight or king by its offsets, a
/// slider along an unblocked ray.
#[verifier::opaque]
pub open spec fn spec_attacked(sq: u64, occ: u64, opp: Player) -> bool {
    exists|i: u64| i < 64 && #[trigger] attacker_at(opp, occ, sq, i)
}

/// Whether some piece of `opponent` attacks the square `king_pos`,
/// scanning every source square. The opponent's own board is first
/// masked to ignore a piece standing on `king_pos` itself, which is
/// about to be captured or stood on.
pub fn check_king_in_check(king_pos: u64, board: u64, opponent: Player) -> (r: bool)
    requires
        king_pos < 64,
    ensures
        r == spec_attacked(king_pos, board, opponent),
{
    proof {
        lemma_bit_basics();
        reveal(spec_attacked);
    }
    let masked: u64 = opponent.pieces.get_board() & !(1u64 << king_pos);

    let mut i: u64 = 0;
    while i < 64
        invariant
            i <= 64,
            king_pos < 64,
            masked == opponent.pieces.board & !(1u64 << king_pos),
            forall|k: u64| k < i ==> !attacker_at(opponent, board, king_pos, k),
        decreases 64 - i,
    {
        proof {
            lemma_bit_basics();
            reveal(spec_attacked);
            assert(bit(masked, i) == (bit(opponent.pieces.board, i) && i != king_pos));
        }
        if (masked & (1u64 << i)) != 0 {
            if (opponent.pawns.get_board() & (1u64 << i)) != 0 {
                let att = get_pawn_attack_moves(i, opponent.color);
                proof {
                    assert(bit(att, king_pos) == pawn_attack_hit(i, opponent.color, king_pos));
                }
                if (att & (1u64 << king_pos)) != 0 {
                    proof {
                        assert(attacker_at(opponent, board, king_pos, i));
                    }
                    return true;
                }
            }
            if (opponent.knights.get_board() & (1u64 << i)) != 0 {
                let att = get_knight_moves(i);
                proof {
                    assert(bit(att, king_pos) == knight_hit(i, king_pos));
                }
                if (att & (1u64 << king_pos)) != 0 {
                    proof {
                        assert(attacker_at(opponent, board, king_pos, i));
                    }
                    return true;
                }
            }
            if (opponent.bishops.get_board() & (1u64 << i)) != 0 {
                let att = get_bishop_moves(i, board);
                proof {
                    assert(bit(att, king_pos) == bishop_hit(board, i, king_pos));
                }
                if (att & (1u64 << king_pos)) != 0 {
                    proof {
                        assert(attacker_at(opponent, board, king_pos, i));
                    }
                    return true;
                }
            }
            if (opponent.rooks.get_board() & (1u64 << i)) != 0 {
                let att = get_rook_moves(i, board);
                proof {
                    assert(bit(att, king_pos) == rook_hit(board, i, king_pos));
                }
                if (att & (1u64 << king_pos)) != 0 {
                    proof {
                        assert(attacker_at(opponent, board, king_pos, i));
                    }
                    return true;
                }
            }
            if (opponent.queen.get_board() & (1u64 << i)) != 0 {
                let att = get_queen_moves(i, board);
                proof {
                    assert(bit(att, king_pos) == queen_hit(board, i, king_pos));
                }
                if (att & (1u64 << king_pos)) != 0 {
                    proof {
                        assert(attacker_at(opponent, board, king_pos, i));
                    }
                    return true;
                }
            }
            if (opponent.king.get_board() & (1u64 << i)) != 0 {
                let att = get_king_moves(i);
                proof {
                    assert(bit(att, king_pos) == king_hit(i, king_pos));
                }
                if (att & (1u64 << king_pos)) != 0 {
                    proof {
                        assert(attacker_at(opponent, board, king_pos, i));
                    }
                    return true;
                }
            }
        }
        proof {
            assert(!attacker_at(opponent, board, king_pos, i));
        }
        i = i + 1;
    }
    proof {
        reveal(spec_attacked);
    }
    false
}

/// Whether the destination square would put this side's king in check:
/// the opponent attacks it under the current occupancy.
pub fn is_king_move_blocked(
    to: u64,
    color: PlayerColor,
    board: u64,
    white_board: Player,
    black_board: Player,
) -> (r: bool)
    requires
        to < 64,
    ensures
        r == match color {
            PlayerColor::White => spec_attacked(to, board, black_board),
            PlayerColor::Black => spec_attacked(to, board, white_board),
        },
{
    match color {
        PlayerColor::White => check_king_in_check(to, board, black_board),
        PlayerColor::Black => check_king_in_check(to, board, white_board),
    }
}

/// Whether White's pawn move is blocked: own piece on the target, an
/// occupied square on a forward push, or a diagonal step that would
/// land on the opponent's king.
pub open spec fn spec_pawn_blocked_white(from: u64, to: u64, occ: u64, w: Player, b: Player) -> bool {
    bit(w.pieces.board, to) || if rank_of(from) == 1 && rank_diff(from, to) == 2 && file_diff(
        from,
        to,
    ) == 0 {
        bit(occ, (from + 8) as u64) || bit(occ, (from + 16) as u64)
    } else if rank_diff(from, to) == 1 && file_diff(from, to) == 0 {
        bit(occ, (from + 8) as u64)
    } else if rank_diff(from, to) == 1 && file_diff(from, to) == 1 {
        bit(w.pawns.board, (from + 9) as u64) || spec_piece_at(b, (from + 9) as u64)
            == PieceType::King
    } else if rank_diff(from, to) == 1 && file_diff(from, to) == -1 {
        bit(w.pawns.board, (from + 7) as u64) || spec_piece_at(b, (from + 7) as u64)
            == PieceType::King
    } else {
        false
    }
}

/// Whether Black's pawn move is blocked, mirroring the White cases.
pub open spec fn spec_pawn_blocked_black(from: u64, to: u64, occ: u64, w: Player, b: Player) -> bool {
    bit(b.pieces.board, to) || if rank_of(from) == 6 && rank_diff(from, to) == -2 && file_diff(
        from,
        to,
    ) == 0 {
        bit(occ, (from - 8) as u64) || bit(occ, (from - 16) as u64)
    } else if rank_diff(from, to) == -1 && file_diff(from, to) == 0 {
        bit(occ, (from - 8) as u64)
    } else if rank_diff(from, to) == -1 && file_diff(from, to) == 1 {
        bit(b.pawns.board, (from - 7) as u64) || spec_piece_at(w, (from - 7) as u64)
            == PieceType::King
    } else if rank_diff(from, to) == -1 && file_diff(from, to) == -1 {
        bit(b.pawns.board, (from - 9) as u64) || spec_piece_at(w, (from - 9) as u64)
            == PieceType::King
    } else {
        false
    }
}

/// Whether the pawn move is blocked for its color.
pub open spec fn spec_pawn_blocked(
    from: u64,
    to: u64,
    color: PlayerColor,
    occ: u64,
    w: Player,
    b: Player,
) -> bool {
    match color {
        PlayerColor::White => spec_pawn_blocked_white(from, to, occ, w, b),
        PlayerColor::Black => spec_pawn_blocked_black(from, to, occ, w, b),
    }
}

/// Whether the pawn move from `from` to `to` is blocked, given the
/// occupancy `board` and both sides.
pub fn check_pawn_move_blocked(
    from: u64,
    to: u64,
    color: PlayerColor,
    board: Bitboard,
    white_board: Player,
    black_board: Player,
) -> (r: bool)
    requires
        basic_ok(from, to),
    ensures
        r == spec_pawn_blocked(from, to, color, board.board, white_board, black_board),
{
    let (from_rank, rank_d, file_d) = match basic_position_check(from, to) {
        Ok(t) => t,
        Err(_) => {
            return false;
        },
    };

    match color {
        PlayerColor::White => check_pawn_move_blocked_for_white(
            from_rank,
            rank_d,
            file_d,
            board,
            white_board,
            black_board,
            from,
            to,
        ),
        PlayerColor::Black => check_pawn_move_blocked_for_black(
            from_rank,
            rank_d,
            file_d,
            board,
            white_board,
            black_board,
            from,
            to,
        ),
    }
}

fn check_pawn_move_blocked_for_white(
    from_rank: u64,
    rank_d: i64,
    file_d: i64,
    board: Bitboard,
    white_board: Player,
    black_board: Player,
    from: u64,
    to: u64,
) -> (r: bool)
    requires
        basic_ok(from, to),
        from_rank == rank_of(from),
        rank_d == rank_diff(from, to),
        file_d == file_diff(from, to),
    ensures
        r == spec_pawn_blocked_white(from, to, board.board, white_board, black_board),
{
    proof {
        lemma_square_decomp(from);
        lemma_square_decomp(to);
    }
    let mut black_board = black_board;

    if white_board.has_piece_on(to) {
        return true;
    }

    if from_rank == 1 && rank_d == 2 && file_d == 0 {
        return !board.is_square_empty(from + 8) || !board.is_square_empty(from + 16);
    }

    if rank_d == 1 && file_d == 0 {
        return !board.is_square_empty(from + 8);
    }

    if rank_d == 1 && file_d == 1 {
        return !white_board.pawns.is_square_empty(from + 9) || match black_board.get_piece_type(
            from + 9,
        ) {
            Ok(k) => k == PieceType::King,
            Err(_) => false,
        };
    }

    if rank_d == 1 && file_d == -1 {
        return !white_board.pawns.is_square_empty(from + 7) || match black_board.get_piece_type(
            from + 7,
        ) {
            Ok(k) => k == PieceType::King,
            Err(_) => false,
        };
    }

    false
}

fn check_pawn_move_blocked_for_black(
    from_rank: u64,
    rank_d: i64,
    file_d: i64,
    board: Bitboard,
    white_board: Player,
    black_board: Player,
    from: u64,
    to: u64,
) -> (r: bool)
    requires
        basic_ok(from, to),
        from_rank == rank_of(from),
        rank_d == rank_diff(from, to),
        file_d == file_diff(from, to),
    ensures
        r == spec_pawn_blocked_black(from, to, board.board, white_board, black_board),
{
    proof {
        lemma_square_decomp(from);
        lemma_square_decomp(to);
    }
    let mut white_board = white_board;

    if black_board.has_piece_on(to) {
        return true;
    }

    if from_rank == 6 && rank_d == -2 && file_d == 0 {
        return !board.is_square_empty(from - 8) || !board.is_square_empty(from - 16);
    }

    if rank_d == -1 && file_d == 0 {
        return !board.is_square_empty(from - 8);
    }

    if rank_d == -1 && file_d == 1 {
        return !black_board.pawns.is_square_empty(from - 7) || match white_board.get_piece_type(
            from - 7,
        ) {
            Ok(k) => k == PieceType::King,
            Err(_) => false,
        };
    }

    if rank_d == -1 && file_d == -1 {
        return !black_board.pawns.is_square_empty(from - 9) || match white_board.get_piece_type(
            from - 9,
        ) {
            Ok(k) => k == PieceType::King,
            Err(_) => false,
        };
    }

    false
}

/// A single diagonal step: the indices differ by 7 or 9.
pub open spec fn spec_diagonal_step(from: u64, to: u64) -> bool {
    let d = from as int - to as int;
    d == 7 || d == -7 || d == 9 || d == -9
}

/// Whether the move steps one square diagonally by index distance.
pub fn pawn_moves_diagonally(from: u64, to: u64) -> (r: bool)
    ensures
        r == spec_diagonal_step(from, to),
{
    if from > to {
        return from - to == 7 || from - to == 9;
    }
    to - from == 7 || to - from == 9
}

/// Whether the destination square is empty on both sides' boards.
pub fn pawn_does_not_capture(to: u64, white_board: Player, black_board: Player) -> (r: bool)
    requires
        to < 64,
    ensures
        r == (!bit(white_board.pieces.board, to) && !bit(black_board.pieces.board, to)),
{
    !white_board.has_piece_on(to) && !black_board.has_piece_on(to)
}

/// The en passant conditions for White: mover on rank 5 going
/// diagonally to an empty square on rank 6, with an opponent pawn
/// standing beside the mover in the capture direction.
pub open spec fn spec_en_passant_white(from: u64, to: u64, w: Player, b: Player, occ: u64) -> bool {
    &&& rank_of(from) == 4
    &&& rank_of(to) == 5
    &&& (to == from + 7 || to == from + 9)
    &&& bit(w.pieces.board, from)
    &&& !bit(occ, to)
    &&& if to == from + 7 {
        bit(b.pawns.board, (from - 1) as u64)
    } else {
        bit(b.pawns.board, (from + 1) as u64)
    }
}

/// The en passant conditions for Black, mirroring White's.
pub open spec fn spec_en_passant_black(from: u64, to: u64, w: Player, b: Player, occ: u64) -> bool {
    &&& rank_of(from) == 3
    &&& rank_of(to) == 2
    &&& (from == to + 7 || from == to + 9)
    &&& bit(b.pieces.board, from)
    &&& !bit(occ, to)
    &&& if from == to + 7 {
        bit(w.pawns.board, (from + 1) as u64)
    } else {
        bit(w.pawns.board, (from - 1) as u64)
    }
}

/// The en passant conditions for the given color.
pub open spec fn spec_en_passant_ok(
    from: u64,
    to: u64,
    color: PlayerColor,
    w: Player,
    b: Player,
    occ: u64,
) -> bool {
    match color {
        PlayerColor::White => spec_en_passant_white(from, to, w, b, occ),
        PlayerColor::Black => spec_en_passant_black(from, to, w, b, occ),
    }
}

/// Whether the diagonal pawn move to an empty square is a correct en
/// passant capture for its color: an opponent pawn must stand beside
/// the mover on the square the capture removes.
pub fn pawn_does_en_passant_correctly(
    from: u64,
    to: u64,
    color: PlayerColor,
    white_pawn_board: Player,
    black_pawn_board: Player,
    board: Bitboard,
) -> (r: bool)
    requires
        from < 64,
        to < 64,
    ensures
        r == spec_en_passant_ok(from, to, color, white_pawn_board, black_pawn_board, board.board),
{
    match color {
        PlayerColor::White => check_white_pawn_does_en_passant(
            from,
            to,
            white_pawn_board,
            black_pawn_board,
            board,
        ),
        PlayerColor::Black => check_black_pawn_does_en_passant(
            from,
            to,
            white_pawn_board,
            black_pawn_board,
            board,
        ),
    }
}

fn check_white_pawn_does_en_passant(
    from: u64,
    to: u64,
    white_pawn_board: Player,
    black_pawn_board: Player,
    board: Bitboard,
) -> (r: bool)
    requires
        from < 64,
        to < 64,
    ensures
        r == spec_en_passant_white(from, to, white_pawn_board, black_pawn_board, board.board),
{
    if (from / 8 != 4) || (to / 8 != 5) {
        return false;
    }

    if to - from != 7 && to - from != 9 {
        return false;
    }

    if !white_pawn_board.has_piece_on(from) || !board.is_square_empty(to) {
        return false;
    }

    if to - from == 7 {
        if black_pawn_board.pawns.is_square_empty(from - 1) {
            return false;
        }
    } else if black_pawn_board.pawns.is_square_empty(from + 1) {
        return false;
    }

    true
}

fn check_black_pawn_does_en_passant(
    from: u64,
    to: u64,
    white_pawn_board: Player,
    black_pawn_board: Player,
    board: Bitboard,
) -> (r: bool)
    requires
        from < 64,
        to < 64,
    ensures
        r == spec_en_passant_black(from, to, white_pawn_board, black_pawn_board, board.board),
{
    if (from / 8 != 3) || (to / 8 != 2) {
        return false;
    }

    if from - to != 7 && from - to != 9 {
        return false;
    }

    if !black_pawn_board.has_piece_on(from) || !board.is_square_empty(to) {
        return false;
    }

    if from - to == 7 {
        if white_pawn_board.pawns.is_square_empty(from + 1) {
            return false;
        }
    } else if white_pawn_board.pawns.is_square_empty(from - 1) {
        return false;
    }

    true
}

/// A king move whose squares match a castling signature for the color.
pub open spec fn spec_castling_signature(from: u64, to: u64, color: PlayerColor) -> bool {
    match color {
        PlayerColor::White => from == 4 && (to == 2 || to == 6),
        PlayerColor::Black => from == 60 && (to == 58 || to == 62),
    }
}

/// Whether the move matches a castling signature for the color.
pub fn is_a_castling_move(from: u64, to: u64, color: PlayerColor) -> (r: bool)
    ensures
        r == spec_castling_signature(from, to, color),
{
    match color {
        PlayerColor::White => is_white_castling_move(from, to),
        PlayerColor::Black => is_black_castling_move(from, to),
    }
}

fn is_white_castling_move(from: u64, to: u64) -> (r: bool)
    ensures
        r == (from == 4 && (to == 2 || to == 6)),
{
    from == 4 && (to == 2 || to == 6)
}

fn is_black_castling_move(from: u64, to: u64) -> (r: bool)
    ensures
        r == (from == 60 && (to == 58 || to == 62)),
{
    from == 60 && (to == 58 || to == 62)
}

/// Every condition White's castling must meet: king on its start and
/// destination free, king and the relevant rook never moved, the king
/// never in check, the squares between king and rook free, and the
/// king's current, crossed and destination squares unattacked.
pub open spec fn spec_white_castle_ok(from: u64, to: u64, occ: u64, w: Player, b: Player) -> bool {
    &&& from == 4
    &&& (to == 2 || to == 6)
    &&& bit(w.pieces.board, 4)
    &&& !bit(occ, to)
    &&& !w.has_king_moved
    &&& !w.has_king_been_in_check
    &&& if to == 2 {
        &&& !w.has_left_rook_moved
        &&& bit(w.rooks.board, 0)
        &&& !bit(occ, 1)
        &&& !bit(occ, 2)
        &&& !bit(occ, 3)
        &&& !spec_attacked(4, occ, b)
        &&& !spec_attacked(3, occ, b)
        &&& !spec_attacked(2, occ, b)
    } else {
        &&& !w.has_right_rook_moved
        &&& bit(w.rooks.board, 7)
        &&& !bit(occ, 5)
        &&& !bit(occ, 6)
        &&& !spec_attacked(4, occ, b)
        &&& !spec_attacked(5, occ, b)
        &&& !spec_attacked(6, occ, b)
    }
}

/// Every condition Black's castling must meet, mirroring White's.
pub open spec fn spec_black_castle_ok(from: u64, to: u64, occ: u64, w: Player, b: Player) -> bool {
    &&& from == 60
    &&& (to == 58 || to == 62)
    &&& bit(b.pieces.board, 60)
    &&& !bit(occ, to)
    &&& !b.has_king_moved
    &&& !b.has_king_been_in_check
    &&& if to == 58 {
        &&& !b.has_left_rook_moved
        &&& bit(b.rooks.board, 56)
        &&& !bit(occ, 57)
        &&& !bit(occ, 58)
        &&& !bit(occ, 59)
        &&& !spec_attacked(60, occ, w)
        &&& !spec_attacked(59, occ, w)
        &&& !spec_attacked(58, occ, w)
    } else {
        &&& !b.has_right_rook_moved
        &&& bit(b.rooks.board, 63)
        &&& !bit(occ, 61)
        &&& !bit(occ, 62)
        &&& !spec_attacked(60, occ, w)
        &&& !spec_attacked(61, occ, w)
        &&& !spec_attacked(62, occ, w)
    }
}

/// The castling conditions for the given color.
pub open spec fn spec_castle_ok(
    from: u64,
    to: u64,
    color: PlayerColor,
    occ: u64,
    w: Player,
    b: Player,
) -> bool {
    match color {
        PlayerColor::White => spec_white_castle_ok(from, to, occ, w, b),
        PlayerColor::Black => spec_black_castle_ok(from, to, occ, w, b),
    }
}

/// Whether the castling move meets every condition for its color.
pub fn king_does_castling_correctly(
    from: u64,
    to: u64,
    color: PlayerColor,
    board: Bitboard,
    white_board: Player,
    black_board: Player,
) -> (r: bool)
    ensures
        r == spec_castle_ok(from, to, color, board.board, white_board, black_board),
{
    match color {
        PlayerColor::White => white_king_does_castling_correctly(
            from,
            to,
            board,
            white_board,
            black_board,
        ),
        PlayerColor::Black => black_king_does_castling_correctly(
            from,
            to,
            board,
            white_board,
            black_board,
        ),
    }
}

fn white_king_does_castling_correctly(
    from: u64,
    to: u64,
    board: Bitboard,
    white_board: Player,
    black_board: Player,
) -> (r: bool)
    ensures
        r == spec_white_castle_ok(from, to, board.board, white_board, black_board),
{
    if from != 4 || (to != 2 && to != 6) {
        return false;
    }

    if !white_board.has_piece_on(from) || !board.is_square_empty(to) {
        return false;
    }

    if white_board.has_king_moved || white_board.has_king_been_in_check {
        return false;
    }

    if to == 2 {
        if white_board.has_left_rook_moved {
            return false;
        }

        if white_board.rooks.is_square_empty(0) || !board.is_square_empty(1)
            || !board.is_square_empty(2) || !board.is_square_empty(3) {
            return false;
        }

        if check_king_in_check(4, board.get_board(), black_board) {
            return false;
        }

        if check_king_in_check(3, board.get_board(), black_board) {
            return false;
        }

        if check_king_in_check(2, board.get_board(), black_board) {
            return false;
        }
    } else {
        if white_board.has_right_rook_moved {
            return false;
        }

        if white_board.rooks.is_square_empty(7) || !board.is_square_empty(5)
            || !board.is_square_empty(6) {
            return false;
        }

        if check_king_in_check(4, board.get_board(), black_board) {
            return false;
        }

        if check_king_in_check(5, board.get_board(), black_board) {
            return false;
        }

        if check_king_in_check(6, board.get_board(), black_board) {
            return false;
        }
    }

    true
}

fn black_king_does_castling_correctly(
    from: u64,
    to: u64,
    board: Bitboard,
    white_board: Player,
    black_board: Player,
) -> (r: bool)
    ensures
        r == spec_black_castle_ok(from, to, board.board, white_board, black_board),
{
    if from != 60 || (to != 58 && to != 62) {
        return false;
    }

    if !black_board.has_piece_on(from) || !board.is_square_empty(to) {
        return false;
    }

    if black_board.has_king_moved || black_board.has_king_been_in_check {
        return false;
    }

    if to == 58 {
        if black_board.has_left_rook_moved {
            return false;
        }

        if black_board.rooks.is_square_empty(56) || !board.is_square_empty(57)
            || !board.is_square_empty(58) || !board.is_square_empty(59) {
            return false;
        }

        if check_king_in_check(60, board.get_board(), white_board) {
            return false;
        }

        if check_king_in_check(59, board.get_board(), white_board) {
            return false;
        }

        if check_king_in_check(58, board.get_board(), white_board) {
            return false;
        }
    } else {
        if black_board.has_right_rook_moved {
            return false;
        }

        if black_board.rooks.is_square_empty(63) || !board.is_square_empty(61)
            || !board.is_square_empty(62) {
            return false;
        }

        if check_king_in_check(60, board.get_board(), white_board) {
            return false;
        }

        if check_king_in_check(61, board.get_board(), white_board) {
            return false;
        }

        if check_king_in_check(62, board.get_board(), white_board) {
            return false;
        }
    }

    true
}

/// Whether the move is the king's-side castling signature.
pub fn is_small_castling(from: u64, to: u64, color: PlayerColor) -> (r: bool)
    ensures
        r == match color {
            PlayerColor::White => from == 4 && to == 6,
            PlayerColor::Black => from == 60 && to == 62,
        },
{
    match color {
        PlayerColor::White => from == 4 && to == 6,
        PlayerColor::Black => from == 60 && to == 62,
    }
}

/// Whether the move is the queen's-side castling signature.
pub fn is_big_castling(from: u64, to: u64, color: PlayerColor) -> (r: bool)
    ensures
        r == match color {
            PlayerColor::White => from == 4 && to == 2,
            PlayerColor::Black => from == 60 && to == 58,
        },
{
    match color {
        PlayerColor::White => from == 4 && to == 2,
        PlayerColor::Black => from == 60 && to == 58,
    }
}

/// A straight pawn push from the next-to-last rank onto the last rank.
pub open spec fn spec_pawn_promotes(from: u64, to: u64, color: PlayerColor) -> bool {
    match color {
        PlayerColor::White => rank_of(from) == 6 && to == from + 8,
        PlayerColor::Black => rank_of(from) == 1 && from >= 8 && to == from - 8,
    }
}

/// Whether the pawn move is a promotion push for its color.
pub fn pawn_promotes(from: u64, to: u64, player_color: PlayerColor) -> (r: bool)
    requires
        from < 64,
        to < 64,
    ensures
        r == spec_pawn_promotes(from, to, player_color),
{
    match player_color {
        PlayerColor::White => from / 8 == 6 && to == from + 8,
        PlayerColor::Black => from / 8 == 1 && to == from - 8,
    }
}

/// Whether the promotion square is free.
pub fn pawn_promotes_correctly(to: u64, board: Bitboard) -> (r: bool)
    requires
        to < 64,
    ensures
        r == !bit(board.board, to),
{
    board.is_square_empty(to)
}

} // verus!
