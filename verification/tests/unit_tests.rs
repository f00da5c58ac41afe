use chess_engine::bitboard::Bitboard;
use chess_engine::chessboard::Chessboard;
use chess_engine::evaluator::evaluate;
use chess_engine::exceptions::MoveError;
use chess_engine::min_max::{min_max_with_alpha_beta_pruning, partition_bounds};
use chess_engine::next_move_generator::generate_next_moves;
use chess_engine::piece;
use chess_engine::piece::PieceType;
use chess_engine::player::{Player, PlayerColor};

#[test]
fn bitboard_operations() {
    let mut b = Bitboard::new();
    assert_eq!(b.get_board(), 0);
    assert_eq!(b.get_num_squares(), 0);
    b.set_square(0);
    b.set_square(63);
    b.set_square(12);
    assert!(b.get_square(0));
    assert!(b.get_square(63));
    assert!(b.get_square(12));
    assert!(!b.get_square(1));
    assert!(b.is_square_empty(1));
    assert_eq!(b.get_num_squares(), 3);
    b.clear_square(12);
    assert!(!b.get_square(12));
    assert_eq!(b.get_num_squares(), 2);
    assert_eq!(Bitboard::from(0xFF).get_num_squares(), 8);
}

#[test]
fn initial_boards() {
    let board = Chessboard::new();
    assert_eq!(board.get_white_board(), 0xFFFF);
    assert_eq!(board.get_black_board(), 0xFFFF_0000_0000_0000);
    assert_eq!(board.get_board(), 0xFFFF_0000_0000_FFFF);
    assert!(!board.is_finished());

    let white = Player::new(PlayerColor::White);
    assert_eq!(white.pawns.get_board(), 0xFF00);
    assert_eq!(white.knights.get_board(), 0x42);
    assert_eq!(white.bishops.get_board(), 0x24);
    assert_eq!(white.rooks.get_board(), 0x81);
    assert_eq!(white.queen.get_board(), 0x8);
    assert_eq!(white.king.get_board(), 0x10);
    assert_eq!(white.get_board(), 0xFFFF);
    assert_eq!(white.get_king_position_on_board(), 4);

    let black = Player::new(PlayerColor::Black);
    assert_eq!(black.pawns.get_board(), 0x00FF_0000_0000_0000);
    assert_eq!(black.get_king_position_on_board(), 60);
}

#[test]
fn square_conversion_round_trip() {
    assert_eq!(Chessboard::convert_square_to_index("a1"), 0);
    assert_eq!(Chessboard::convert_square_to_index("h8"), 63);
    assert_eq!(Chessboard::convert_square_to_index("e2"), 12);
    assert_eq!(Chessboard::convert_index_to_square(12), "e2");
    assert_eq!(Chessboard::convert_index_to_square(0), "a1");
    assert_eq!(Chessboard::convert_index_to_square(63), "h8");
    let mut i: u64 = 0;
    while i < 64 {
        let name = Chessboard::convert_index_to_square(i);
        assert_eq!(Chessboard::convert_square_to_index(name.as_str()), i);
        i += 1;
    }
}

#[test]
fn malformed_square_names_are_rejected() {
    let mut board = Chessboard::new();
    assert_eq!(
        board.perform_move("z9", "e4", PlayerColor::White),
        Err(MoveError::PieceNotFound)
    );
    assert_eq!(
        board.perform_move("e", "e4", PlayerColor::White),
        Err(MoveError::PieceNotFound)
    );
    assert_eq!(
        board.perform_move("e2", "", PlayerColor::White),
        Err(MoveError::PieceNotFound)
    );
    // names longer than two characters are read by their first two
    assert_eq!(board.perform_move("e2xx", "e4", PlayerColor::White), Ok(()));
}

#[test]
fn error_variants() {
    let mut board = Chessboard::new();
    // empty origin square
    assert_eq!(
        board.perform_move("e4", "e5", PlayerColor::White),
        Err(MoveError::PieceNotFound)
    );
    // opponent piece on the origin square
    assert_eq!(
        board.perform_move("e7", "e6", PlayerColor::White),
        Err(MoveError::PieceNotFound)
    );
    // geometry violation
    assert_eq!(
        board.perform_move("b1", "b4", PlayerColor::White),
        Err(MoveError::InvalidMove)
    );
    // blocked slider
    assert_eq!(
        board.perform_move("a1", "a3", PlayerColor::White),
        Err(MoveError::InvalidMove)
    );
    // castling with pieces between king and rook
    assert_eq!(
        board.perform_move("e1", "g1", PlayerColor::White),
        Err(MoveError::InvalidMove)
    );
}

#[test]
fn double_push_needs_both_squares_free() {
    let mut board = Chessboard::new();
    assert_eq!(board.perform_move("a2", "a4", PlayerColor::White), Ok(()));
    // own knight on c3 blocks the crossed square of c2-c4
    assert_eq!(board.perform_move("b8", "c6", PlayerColor::Black), Ok(()));
    assert_eq!(board.perform_move("b1", "c3", PlayerColor::White), Ok(()));
    assert_eq!(board.perform_move("c6", "b4", PlayerColor::Black), Ok(()));
    assert_eq!(
        board.perform_move("c2", "c4", PlayerColor::White),
        Err(MoveError::InvalidMove)
    );
    // a piece on the destination square blocks the push too
    assert_eq!(board.perform_move("d2", "d3", PlayerColor::White), Ok(()));
    assert_eq!(board.perform_move("b4", "d5", PlayerColor::Black), Ok(()));
    assert_eq!(board.perform_move("h2", "h3", PlayerColor::White), Ok(()));
    assert_eq!(board.perform_move("d5", "f4", PlayerColor::Black), Ok(()));
    assert_eq!(
        board.perform_move("f2", "f4", PlayerColor::White),
        Err(MoveError::InvalidMove)
    );
}

#[test]
fn castling_refused_after_rook_moved() {
    let mut board = Chessboard::new();
    for (from, to, color) in [
        ("g1", "f3", PlayerColor::White),
        ("g8", "f6", PlayerColor::Black),
        ("e2", "e3", PlayerColor::White),
        ("e7", "e6", PlayerColor::Black),
        ("f1", "e2", PlayerColor::White),
        ("f8", "e7", PlayerColor::Black),
        // the h1 rook leaves home and returns: the flag stays latched
        ("h1", "g1", PlayerColor::White),
        ("b7", "b6", PlayerColor::Black),
        ("g1", "h1", PlayerColor::White),
        ("b6", "b5", PlayerColor::Black),
    ] {
        assert_eq!(board.perform_move(from, to, color), Ok(()));
    }
    assert_eq!(
        board.perform_move("e1", "g1", PlayerColor::White),
        Err(MoveError::InvalidMove)
    );
}

#[test]
fn rejected_move_leaves_position_unchanged() {
    let mut board = Chessboard::new();
    assert_eq!(board.perform_move("e2", "e4", PlayerColor::White), Ok(()));
    let white_before = board.get_white_board();
    let black_before = board.get_black_board();
    assert_eq!(
        board.perform_move("e4", "e6", PlayerColor::White),
        Err(MoveError::InvalidMove)
    );
    assert_eq!(board.get_white_board(), white_before);
    assert_eq!(board.get_black_board(), black_before);
}

#[test]
fn clone_apply_discard_keeps_original() {
    let mut board = Chessboard::new();
    assert_eq!(board.perform_move("e2", "e4", PlayerColor::White), Ok(()));
    let white_before = board.get_white_board();
    let black_before = board.get_black_board();
    let pawns_before = board.white.pawns.get_board();

    let mut scratch = board.clone();
    assert_eq!(scratch.perform_move("d7", "d5", PlayerColor::Black), Ok(()));
    assert_eq!(scratch.perform_move("e4", "d5", PlayerColor::White), Ok(()));
    drop(scratch);

    assert_eq!(board.get_white_board(), white_before);
    assert_eq!(board.get_black_board(), black_before);
    assert_eq!(board.white.pawns.get_board(), pawns_before);
}

#[test]
fn attacked_squares_from_initial_position() {
    let board = Chessboard::new();
    let white = Player::new(PlayerColor::White);
    let black = Player::new(PlayerColor::Black);
    // e3 (20) is covered by the d2 and f2 pawns
    assert!(piece::check_king_in_check(20, board.get_board(), white));
    // c3 (18) is covered by the b1 knight
    assert!(piece::check_king_in_check(18, board.get_board(), white));
    // e5 (36) is out of White's reach at the start
    assert!(!piece::check_king_in_check(36, board.get_board(), white));
    // e6 (44) is covered by Black's pawns
    assert!(piece::check_king_in_check(44, board.get_board(), black));
}

#[test]
fn attack_tables_on_concrete_squares() {
    // knight on b1 (1) reaches a3 (16), c3 (18) and d2 (11)
    assert_eq!(piece::get_knight_moves(1), (1u64 << 16) | (1u64 << 18) | (1u64 << 11));
    // king on e1 (4) reaches d1, f1, d2, e2, f2
    assert_eq!(
        piece::get_king_moves(4),
        (1u64 << 3) | (1u64 << 5) | (1u64 << 11) | (1u64 << 12) | (1u64 << 13)
    );
    // rook on a1 over an empty board sweeps its file and rank
    let mut expected: u64 = 0;
    for i in 1..8u64 {
        expected |= 1u64 << i;
        expected |= 1u64 << (8 * i);
    }
    assert_eq!(piece::get_rook_moves(0, 0), expected);
    // bishop on c1 (2) stops at the first occupied squares (b2 and d2)
    assert_eq!(piece::get_bishop_moves(2, 0xFFFF), (1u64 << 9) | (1u64 << 11));
    // white pawn on e2 (12) attacks d3 (19) and f3 (21)
    assert_eq!(
        piece::get_pawn_attack_moves(12, PlayerColor::White),
        (1u64 << 19) | (1u64 << 21)
    );
}

#[test]
fn evaluator_counts_material() {
    let board = Chessboard::new();
    assert_eq!(evaluate(&board, PlayerColor::White), 10);
    assert_eq!(evaluate(&board, PlayerColor::Black), -10);

    // capturing Black's queen's pawn shifts the balance by one pawn
    let mut board = Chessboard::new();
    assert_eq!(board.perform_move("e2", "e4", PlayerColor::White), Ok(()));
    assert_eq!(board.perform_move("d7", "d5", PlayerColor::Black), Ok(()));
    assert_eq!(board.perform_move("e4", "d5", PlayerColor::White), Ok(()));
    assert_eq!(evaluate(&board, PlayerColor::White), 11);
    assert_eq!(evaluate(&board, PlayerColor::Black), -11);
}

#[test]
fn generator_counts_twenty_opening_moves() {
    let board = Chessboard::new();
    let white_moves = generate_next_moves(&board, PlayerColor::White);
    assert_eq!(white_moves.len(), 20);
    let black_moves = generate_next_moves(&board, PlayerColor::Black);
    assert_eq!(black_moves.len(), 20);
    // ascending from-square, then ascending to-square
    for w in white_moves.windows(2) {
        assert!(w[0].0 < w[1].0 || (w[0].0 == w[1].0 && w[0].1 < w[1].1));
    }
    // the first emitted move is the b1 knight to a3
    assert_eq!(white_moves[0], (1, 16));
}

#[test]
fn search_depth_zero_is_static_evaluation() {
    let board = Chessboard::new();
    assert_eq!(
        min_max_with_alpha_beta_pruning(&board, 0, i64::MIN, i64::MAX, PlayerColor::White),
        10
    );
    assert_eq!(
        min_max_with_alpha_beta_pruning(&board, 0, i64::MIN, i64::MAX, PlayerColor::Black),
        -10
    );
}

#[test]
fn partition_bounds_split_the_move_list() {
    assert_eq!(partition_bounds(0, 2, 10), (0, 5));
    assert_eq!(partition_bounds(1, 2, 10), (5, 10));
    assert_eq!(partition_bounds(0, 3, 10), (0, 4));
    assert_eq!(partition_bounds(1, 3, 10), (4, 8));
    assert_eq!(partition_bounds(2, 3, 10), (8, 10));
    assert_eq!(partition_bounds(0, 1, 7), (0, 7));
    assert_eq!(partition_bounds(3, 4, 2), (2, 2));
    assert_eq!(partition_bounds(0, 4, 0), (0, 0));
}

#[test]
fn piece_geometry_checks() {
    assert!(piece::is_knight_move_valid(1, 18).is_ok());
    assert!(piece::is_knight_move_valid(1, 17).is_err());
    assert!(piece::is_pawn_move_valid(12, 28, PlayerColor::White).is_ok());
    assert!(piece::is_pawn_move_valid(12, 28, PlayerColor::Black).is_err());
    assert!(piece::is_king_move_valid(4, 5).is_ok());
    assert!(piece::is_king_move_valid(4, 6).is_ok()); // castling signature
    assert!(piece::is_king_move_valid(4, 7).is_err());
    assert!(piece::is_bishop_move_valid(2, 20, 0).is_ok());
    assert!(piece::is_bishop_move_valid(2, 20, 1u64 << 11).is_err());
    assert!(piece::is_rook_move_valid(0, 56, 0).is_ok());
    assert!(piece::is_rook_move_valid(0, 56, 1u64 << 8).is_err());
    assert!(piece::is_queen_move_valid(3, 59, 0).is_ok());
    assert!(piece::is_queen_move_valid(3, 4, 0).is_ok());
}

#[test]
fn special_move_predicates() {
    // castling signatures
    assert!(piece::is_a_castling_move(4, 6, PlayerColor::White));
    assert!(piece::is_a_castling_move(4, 2, PlayerColor::White));
    assert!(!piece::is_a_castling_move(4, 6, PlayerColor::Black));
    assert!(piece::is_a_castling_move(60, 62, PlayerColor::Black));
    assert!(piece::is_small_castling(4, 6, PlayerColor::White));
    assert!(!piece::is_small_castling(4, 2, PlayerColor::White));
    assert!(piece::is_big_castling(60, 58, PlayerColor::Black));
    assert!(!piece::is_big_castling(60, 62, PlayerColor::Black));
    // promotion pushes
    assert!(piece::pawn_promotes(52, 60, PlayerColor::White));
    assert!(!piece::pawn_promotes(44, 52, PlayerColor::White));
    assert!(piece::pawn_promotes(12, 4, PlayerColor::Black));
    // diagonal index steps
    assert!(piece::pawn_moves_diagonally(28, 35));
    assert!(piece::pawn_moves_diagonally(35, 28));
    assert!(piece::pawn_moves_diagonally(28, 37));
    assert!(!piece::pawn_moves_diagonally(28, 36));
}

#[test]
fn invalid_promotion_target_changes_nothing() {
    let mut white = Player::new(PlayerColor::White);
    let before = white.get_board();
    let pawns_before = white.pawns.get_board();
    assert!(white.promote_pawn(8, 16, PieceType::Pawn).is_err());
    assert!(white.promote_pawn(8, 16, PieceType::King).is_err());
    assert!(white.promote_pawn(8, 16, PieceType::Empty).is_err());
    assert_eq!(white.get_board(), before);
    assert_eq!(white.pawns.get_board(), pawns_before);
    // a valid target moves the pawn and replaces it
    assert!(white.promote_pawn(8, 16, PieceType::Queen).is_ok());
    assert_eq!(white.get_piece_type(16), Ok(PieceType::Queen));
    assert_eq!(white.get_piece_type(8), Ok(PieceType::Empty));
}

#[test]
fn player_piece_lookup() {
    let mut white = Player::new(PlayerColor::White);
    assert_eq!(white.get_piece_type(0), Ok(PieceType::Rook));
    assert_eq!(white.get_piece_type(4), Ok(PieceType::King));
    assert_eq!(white.get_piece_type(8), Ok(PieceType::Pawn));
    assert_eq!(white.get_piece_type(30), Ok(PieceType::Empty));
    assert!(white.has_piece_on(3));
    assert!(!white.has_piece_on(30));
}
