use chessme::{parse_position, ChessBoard, Piece, Player};

fn mv(board: &mut ChessBoard, from: &str, to: &str) {
    let start = parse_position(from).expect("bad square");
    let end = parse_position(to).expect("bad square");
    board.move_piece(start, end).unwrap();
}

/// On the opening position every White pawn has exactly two legal
/// destinations, every White knight exactly two, and every other
/// square (White's remaining pieces, empty squares, and all of Black's
/// pieces, which White may not move) exactly zero; symmetrically for
/// Black.
#[test]
fn opening_move_counts_match_standard() {
    let board = ChessBoard::new();
    for (mover, pawn_row, back_row) in [(Player::White, 1, 0), (Player::Black, 6, 7)] {
        for row in 0..8usize {
            for col in 0..8usize {
                let mut destinations: usize = 0;
                for target_row in 0..8usize {
                    for target_col in 0..8usize {
                        if board.is_valid_move((row, col), (target_row, target_col), mover) {
                            destinations += 1;
                        }
                    }
                }
                let expected = if row == pawn_row {
                    2 // one or two squares straight ahead
                } else if row == back_row && (col == 1 || col == 6) {
                    2 // the knight's two jumps over the pawn rank
                } else {
                    0
                };
                assert_eq!(destinations, expected, "square ({row}, {col}) as {mover:?}");
            }
        }
    }
}

/// The legality check is pure: asking twice with identical arguments on
/// an unmutated board gives the same answer.
#[test]
fn legality_check_is_idempotent() {
    let board = ChessBoard::new();
    for (from, to) in [((1, 4), (3, 4)), ((0, 0), (5, 0)), ((0, 1), (2, 2)), ((6, 3), (5, 3))] {
        let first = board.is_valid_move(from, to, Player::White);
        let second = board.is_valid_move(from, to, Player::White);
        assert_eq!(first, second);
    }
}

/// A move onto a square held by one's own piece is rejected even when
/// the shape rule alone would allow it.
#[test]
fn own_piece_on_target_square_rejects_move() {
    let board = ChessBoard::new();
    // Rook a1 -> a2: straight line, path empty, but a2 holds White's pawn.
    assert!(!board.is_valid_move((0, 0), (1, 0), Player::White));
    // King e1 -> d1 and queen d1 -> e2 land on White's own pieces.
    assert!(!board.is_valid_move((0, 4), (0, 3), Player::White));
    assert!(!board.is_valid_move((0, 3), (1, 4), Player::White));
    // The same queen move is shape-legal once the target is an enemy piece.
    let mut rearranged = ChessBoard::new();
    mv(&mut rearranged, "e2", "e4");
    mv(&mut rearranged, "d7", "e2"); // a Black pawn now stands on e2
    assert!(rearranged.is_valid_move((0, 3), (1, 4), Player::White));
}

/// A pawn's double advance from its home row is rejected when the
/// square it passes over is occupied, even with the destination empty.
#[test]
fn blocked_double_advance_is_rejected() {
    let mut board = ChessBoard::new();
    mv(&mut board, "d1", "e3"); // park a piece on e3; e4 stays empty
    assert!(!board.is_valid_move((1, 4), (3, 4), Player::White));
    // The same move is legal with the intermediate square clear.
    let fresh = ChessBoard::new();
    assert!(fresh.is_valid_move((1, 4), (3, 4), Player::White));
}

/// Long sliding moves whose geometric continuation would leave the
/// board are decided correctly: the scan stops exactly on the
/// destination square at the board's edge.
#[test]
fn sliding_scan_stops_at_the_edge() {
    let mut board = ChessBoard::new();
    mv(&mut board, "e2", "e3"); // clear the f1-a6 diagonal's first step
    // Bishop f1 -> a6: five diagonal steps ending on the a-file edge.
    assert!(board.is_valid_move((0, 5), (5, 0), Player::White));
    // Bishop f1 -> b5 on the same diagonal is equally unobstructed.
    assert!(board.is_valid_move((0, 5), (4, 1), Player::White));
    let mut rook_board = ChessBoard::new();
    mv(&mut rook_board, "h2", "g3"); // clear the h-file
    // Rook h1 -> h7: up the edge file onto Black's pawn.
    assert!(rook_board.is_valid_move((0, 7), (6, 7), Player::White));
    // Rook h1 -> h8 is blocked by that same pawn one square earlier.
    assert!(!rook_board.is_valid_move((0, 7), (7, 7), Player::White));
}

/// The Fool's Mate family scored for the side to move: after f3 e6 g4
/// Qh4 the White side, now to move, has lost.
#[test]
fn fools_mate_scored_for_side_to_move() {
    let mut board = ChessBoard::new();
    mv(&mut board, "f2", "f3");
    mv(&mut board, "e7", "e6");
    mv(&mut board, "g2", "g4");
    mv(&mut board, "d8", "h4");
    assert_eq!(board.result(Player::White), "0-1");
}

/// The scholar-like finish scored for the side to move: after e4 e5
/// Qh5 Ke7 Qxe5 the Black side, now to move, has lost.
#[test]
fn queen_takes_e5_scored_for_side_to_move() {
    let mut board = ChessBoard::new();
    mv(&mut board, "e2", "e4");
    mv(&mut board, "e7", "e5");
    mv(&mut board, "d1", "h5");
    mv(&mut board, "e8", "e7");
    mv(&mut board, "h5", "e5");
    assert_eq!(board.result(Player::Black), "1-0");
}

/// The opening position is an ongoing game for either side to move.
#[test]
fn opening_position_is_ongoing() {
    let board = ChessBoard::new();
    assert_eq!(board.result(Player::White), "*");
    assert_eq!(board.result(Player::Black), "*");
}

/// A side with no pieces at all has no legal move and no king in
/// check: with no check anywhere the game is classified as drawn.
#[test]
fn side_without_pieces_is_a_draw() {
    let mut board = ChessBoard::new();
    // The White queen erases every Black piece by relocating onto it.
    for target in [
        "a7", "b7", "c7", "d7", "e7", "f7", "g7", "h7", "a8", "b8", "c8", "d8", "e8", "f8", "g8",
        "h8",
    ] {
        mv(&mut board, "d1", target);
        mv(&mut board, target, "d1");
    }
    assert!(!board.is_check(Player::Black));
    assert!(!board.has_legal_moves(Player::Black));
    assert_eq!(board.result(Player::Black), "1/2-1/2");
}

/// Check detection: after the Fool's Mate sequence White is in check
/// and Black is not.
#[test]
fn check_detection_after_fools_mate() {
    let mut board = ChessBoard::new();
    mv(&mut board, "f2", "f3");
    mv(&mut board, "e7", "e6");
    mv(&mut board, "g2", "g4");
    mv(&mut board, "d8", "h4");
    assert!(board.is_check(Player::White));
    assert!(!board.is_check(Player::Black));
}

/// The king is found on its opening square; a board stripped of a
/// side's pieces has no king of that colour to find.
#[test]
fn king_positions_on_the_opening_board() {
    let board = ChessBoard::new();
    assert_eq!(board.find_king_position(Player::White), Some((0, 4)));
    assert_eq!(board.find_king_position(Player::Black), Some((7, 4)));
    let mut stripped = ChessBoard::new();
    mv(&mut stripped, "d1", "e8"); // the White queen erases the Black king
    assert_eq!(stripped.find_king_position(Player::Black), None);
    assert!(!stripped.is_check(Player::Black));
}

/// Relocation is mechanical: the destination takes the piece, the
/// source empties, and an empty source is the one failure.
#[test]
fn move_piece_relocates_and_rejects_empty_source() {
    let mut board = ChessBoard::new();
    assert_eq!(board.move_piece((1, 4), (3, 4)), Ok(()));
    assert_eq!(board.board[3][4], Some(Piece::Pawn(Player::White)));
    assert_eq!(board.board[1][4], None);
    let err = board.move_piece((4, 4), (5, 5));
    assert_eq!(err, Err("No piece at start position".to_string()));
    // A failed relocation changes nothing.
    assert_eq!(board.board[5][5], None);
}

/// Relocation performs no legality check: even an absurd jump is
/// applied, overwriting the destination's occupant.
#[test]
fn move_piece_ignores_legality_and_overwrites() {
    let mut board = ChessBoard::new();
    assert_eq!(board.move_piece((0, 0), (7, 7)), Ok(()));
    assert_eq!(board.board[7][7], Some(Piece::Rook(Player::White)));
    assert_eq!(board.board[0][0], None);
}

/// The move attempt records exactly the accepted moves, and leaves the
/// board itself untouched either way.
#[test]
fn move_if_valid_records_only_accepted_moves() {
    let mut board = ChessBoard::new();
    assert!(!board.move_if_valid((1, 4), (4, 4), Player::White)); // three forward: rejected
    assert_eq!(board.moves_history.len(), 0);
    assert!(board.move_if_valid((1, 4), (3, 4), Player::White)); // double advance: accepted
    assert_eq!(board.moves_history.len(), 1);
    assert_eq!(board.moves_history[0], "d4 "); // board row 3 -> file 'd', column 4 -> digit '4'
    // The attempt does not apply the move; the pawn still stands on e2.
    assert_eq!(board.board[1][4], Some(Piece::Pawn(Player::White)));
    assert_eq!(board.board[3][4], None);
}

/// Turn order alternates between the two players.
#[test]
fn next_player_alternates() {
    let board = ChessBoard::new();
    assert_eq!(board.next_player(Player::White), Player::Black);
    assert_eq!(board.next_player(Player::Black), Player::White);
}

/// Ownership testing: a piece is an opponent's exactly when its owner
/// differs from the player asking.
#[test]
fn is_opponent_compares_owners() {
    let board = ChessBoard::new();
    assert!(board.is_opponent(Piece::Queen(Player::Black), Player::White));
    assert!(!board.is_opponent(Piece::Queen(Player::White), Player::White));
    assert!(board.is_opponent(Piece::Pawn(Player::White), Player::Black));
}
