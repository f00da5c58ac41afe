use chess_engine::chessboard::Chessboard;
use chess_engine::exceptions::MoveError;
use chess_engine::min_max::get_best_move;
use chess_engine::piece::PieceType;
use chess_engine::player::PlayerColor;

fn play(board: &mut Chessboard, moves: &[(&str, &str, PlayerColor)]) {
    for (from, to, color) in moves {
        assert_eq!(board.perform_move(from, to, *color), Ok(()));
    }
}

#[test]
fn scenario_pawn_push_and_block() {
    let mut board = Chessboard::new();
    play(
        &mut board,
        &[
            ("e2", "e4", PlayerColor::White),
            ("e7", "e5", PlayerColor::Black),
        ],
    );
    assert_eq!(
        board.perform_move("e4", "e5", PlayerColor::White),
        Err(MoveError::InvalidMove)
    );
}

#[test]
fn scenario_knight_tour_opening() {
    let mut board = Chessboard::new();
    play(
        &mut board,
        &[
            ("b1", "c3", PlayerColor::White),
            ("b8", "c6", PlayerColor::Black),
            ("c3", "e4", PlayerColor::White),
            ("c6", "e5", PlayerColor::Black),
        ],
    );
}

#[test]
fn scenario_short_castling() {
    let mut board = Chessboard::new();
    play(
        &mut board,
        &[
            ("g1", "f3", PlayerColor::White),
            ("g8", "f6", PlayerColor::Black),
            ("e2", "e3", PlayerColor::White),
            ("e7", "e6", PlayerColor::Black),
            ("f1", "e2", PlayerColor::White),
            ("f8", "e7", PlayerColor::Black),
        ],
    );
    assert_eq!(board.perform_move("e1", "g1", PlayerColor::White), Ok(()));
    // rook on f1, king on g1
    assert_eq!(
        board.get_piece_type_color(PlayerColor::White, 5),
        PieceType::Rook
    );
    assert_eq!(
        board.get_piece_type_color(PlayerColor::White, 6),
        PieceType::King
    );
    assert_eq!(
        board.get_piece_type_color(PlayerColor::White, 4),
        PieceType::Empty
    );
    assert_eq!(
        board.get_piece_type_color(PlayerColor::White, 7),
        PieceType::Empty
    );
}

#[test]
fn scenario_king_safety_engine_takes_f7() {
    let mut board = Chessboard::new();
    play(
        &mut board,
        &[
            ("e2", "e4", PlayerColor::White),
            ("e7", "e5", PlayerColor::Black),
            ("f1", "c4", PlayerColor::White),
            ("b8", "c6", PlayerColor::Black),
            ("d1", "h5", PlayerColor::White),
            // a Black move that leaves f7 undefended against the
            // queen-and-bishop threat
            ("a7", "a6", PlayerColor::Black),
        ],
    );
    let best = get_best_move(&board);
    // h5 is index 39, f7 is index 53
    assert_eq!(best, (39, 53));
}

#[test]
fn scenario_en_passant() {
    let mut board = Chessboard::new();
    play(
        &mut board,
        &[
            ("e2", "e4", PlayerColor::White),
            ("d7", "d5", PlayerColor::Black),
            ("e4", "e5", PlayerColor::White),
            ("f7", "f5", PlayerColor::Black),
        ],
    );
    assert_eq!(board.perform_move("e5", "f6", PlayerColor::White), Ok(()));
    // the Black pawn on f5 was removed
    assert_eq!(
        board.get_piece_type_color(PlayerColor::Black, 37),
        PieceType::Empty
    );
    // the White pawn stands on f6
    assert_eq!(
        board.get_piece_type_color(PlayerColor::White, 45),
        PieceType::Pawn
    );
}

#[test]
fn scenario_en_passant_not_immediately_after() {
    // the engine accepts en passant whenever the geometry and the
    // adjacent opponent pawn are in place, not only on the very next
    // move
    let mut board = Chessboard::new();
    play(
        &mut board,
        &[
            ("e2", "e4", PlayerColor::White),
            ("d7", "d5", PlayerColor::Black),
            ("e4", "e5", PlayerColor::White),
            ("f7", "f5", PlayerColor::Black),
            ("h2", "h3", PlayerColor::White),
            ("h7", "h6", PlayerColor::Black),
        ],
    );
    assert_eq!(board.perform_move("e5", "f6", PlayerColor::White), Ok(()));
}

#[test]
fn en_passant_requires_adjacent_pawn() {
    // a knight beside the mover does not open the capture: the square
    // the capture would clear must hold an opponent pawn
    let mut board = Chessboard::new();
    play(
        &mut board,
        &[
            ("e2", "e4", PlayerColor::White),
            ("g8", "f6", PlayerColor::Black),
            ("e4", "e5", PlayerColor::White),
            ("f6", "d5", PlayerColor::Black),
        ],
    );
    // White pawn on e5, Black knight on d5, d6 free
    assert_eq!(
        board.get_piece_type_color(PlayerColor::Black, 35),
        PieceType::Knight
    );
    assert_eq!(
        board.perform_move("e5", "d6", PlayerColor::White),
        Err(MoveError::InvalidMove)
    );
    // the knight is untouched
    assert_eq!(
        board.get_piece_type_color(PlayerColor::Black, 35),
        PieceType::Knight
    );
}

#[test]
fn scenario_self_check_pin() {
    // White king on e1, White rook on e4 pinned by a Black rook on e8;
    // the Black king stands on h8.
    let mut board = Chessboard::new();

    board.white.pawns.set_board(0);
    board.white.knights.set_board(0);
    board.white.bishops.set_board(0);
    board.white.rooks.set_board(1u64 << 28);
    board.white.queen.set_board(0);
    board.white.king.set_board(1u64 << 4);
    board.white.pieces.set_board((1u64 << 28) | (1u64 << 4));

    board.black.pawns.set_board(0);
    board.black.knights.set_board(0);
    board.black.bishops.set_board(0);
    board.black.rooks.set_board(1u64 << 60);
    board.black.queen.set_board(0);
    board.black.king.set_board(1u64 << 63);
    board.black.pieces.set_board((1u64 << 60) | (1u64 << 63));

    // moving the pinned rook off the e-file exposes the king
    assert_eq!(
        board.perform_move("e4", "d4", PlayerColor::White),
        Err(MoveError::InvalidMove)
    );
    assert_eq!(
        board.perform_move("e4", "h4", PlayerColor::White),
        Err(MoveError::InvalidMove)
    );
    // moving it along the e-file keeps the king covered
    assert_eq!(board.perform_move("e4", "e6", PlayerColor::White), Ok(()));
}
