use ascii_chess::board::new_game;
use ascii_chess::BlockData;
use ascii_chess::Colour;
use ascii_chess::Matrix;
use ascii_chess::Piece;

/// The empty-square value for a coordinate: its parity checker colour.
fn cleared(r: usize, c: usize) -> BlockData {
    let colour = if (r + c) % 2 == 0 { Colour::Black } else { Colour::White };
    BlockData { colour, piece: Piece::Null }
}

fn snapshot(m: &Matrix) -> ([[BlockData; 8]; 8], (usize, usize), (usize, usize), Colour) {
    (m.board, m.arrow, m.selected_piece, m.turn)
}

#[test]
fn new_game_turn_and_cursor() {
    let m = new_game();
    assert_eq!(m.turn, Colour::White);
    assert_eq!(m.arrow, (7, 0));
    assert_eq!(m.selected_piece, (7, 0));
}

#[test]
fn new_game_checker_colours() {
    let m = new_game();
    for r in 2..6 {
        for c in 0..8 {
            assert_eq!(m.board[r][c].piece, Piece::Null);
            let expected = if (r + c) % 2 == 0 { Colour::Black } else { Colour::White };
            assert_eq!(m.board[r][c].colour, expected);
        }
    }
}

#[test]
fn new_game_standard_layout() {
    let m = new_game();
    let rank = [
        Piece::Rook,
        Piece::Knight,
        Piece::Bishop,
        Piece::King,
        Piece::Queen,
        Piece::Bishop,
        Piece::Knight,
        Piece::Rook,
    ];
    for c in 0..8 {
        assert_eq!(m.board[0][c].piece, rank[c]);
        assert_eq!(m.board[0][c].colour, Colour::White);
        assert_eq!(m.board[1][c].piece, Piece::Pawn);
        assert_eq!(m.board[1][c].colour, Colour::White);
        assert_eq!(m.board[6][c].piece, Piece::Pawn);
        assert_eq!(m.board[6][c].colour, Colour::Black);
        assert_eq!(m.board[7][c].colour, Colour::Black);
    }
    // The king and queen columns are mirrored between the sides.
    assert_eq!(m.board[0][3].piece, Piece::King);
    assert_eq!(m.board[0][4].piece, Piece::Queen);
    assert_eq!(m.board[7][3].piece, Piece::Queen);
    assert_eq!(m.board[7][4].piece, Piece::King);
}

#[test]
fn successful_move_relocates_and_flips_turn() {
    let mut m = new_game();
    m.arrow = (3, 4);
    let moved = m.movement((1, 4));
    assert!(moved);
    assert_eq!(m.board[3][4], BlockData { colour: Colour::White, piece: Piece::Pawn });
    assert_eq!(m.board[1][4], cleared(1, 4));
    assert_eq!(m.turn, Colour::Black);
}

#[test]
fn rejected_move_changes_nothing() {
    let mut m = new_game();
    m.arrow = (5, 5);
    let before = snapshot(&m);
    let moved = m.movement((0, 0));
    assert!(!moved);
    assert_eq!(snapshot(&m), before);
}

#[test]
fn rejection_is_idempotent() {
    let mut m = new_game();
    m.arrow = (5, 5);
    let before = snapshot(&m);
    assert!(!m.movement((0, 0)));
    assert_eq!(snapshot(&m), before);
    assert!(!m.movement((0, 0)));
    assert_eq!(snapshot(&m), before);
}

#[test]
fn cursor_wraps_at_edges() {
    let mut m = new_game();
    m.arrow = (3, 7);
    m.mutate_arrow((0, 1));
    assert_eq!(m.arrow, (3, 0));
    m.arrow = (0, 3);
    m.mutate_arrow((-1, 0));
    assert_eq!(m.arrow, (7, 3));
}

#[test]
fn cursor_plain_step_and_large_displacement() {
    let mut m = new_game();
    m.arrow = (3, 3);
    m.mutate_arrow((1, 0));
    assert_eq!(m.arrow, (4, 3));
    m.arrow = (3, 3);
    m.mutate_arrow((16, -16));
    assert_eq!(m.arrow, (3, 3));
}

#[test]
fn select_piece_records_cursor() {
    let mut m = new_game();
    m.arrow = (2, 5);
    m.select_piece();
    assert_eq!(m.selected_piece, (2, 5));
}

#[test]
fn pawn_two_step_from_start_rank() {
    let mut m = new_game();
    m.turn = Colour::Black;
    m.arrow = (4, 4);
    assert!(m.movement((6, 4)));
}

#[test]
fn pawn_three_step_rejected() {
    let mut m = new_game();
    m.turn = Colour::Black;
    m.arrow = (3, 4);
    assert!(!m.movement((6, 4)));
}

#[test]
fn pawn_two_step_blocked_by_intermediate() {
    let mut m = new_game();
    m.board[2][0] = BlockData { colour: Colour::Black, piece: Piece::Knight };
    m.arrow = (3, 0);
    assert!(!m.movement((1, 0)));
}

#[test]
fn pawn_two_step_needs_empty_destination() {
    let mut m = new_game();
    m.board[3][0] = BlockData { colour: Colour::Black, piece: Piece::Knight };
    m.arrow = (3, 0);
    assert!(!m.movement((1, 0)));
}

#[test]
fn pawn_single_step_needs_empty_destination() {
    let mut m = new_game();
    m.board[2][0] = BlockData { colour: Colour::Black, piece: Piece::Knight };
    m.arrow = (2, 0);
    assert!(!m.movement((1, 0)));
}

#[test]
fn pawn_diagonal_capture_needs_occupant() {
    let mut m = new_game();
    m.arrow = (2, 1);
    // Diagonally forward onto an empty square: rejected.
    assert!(!m.movement((1, 0)));
    // The same square holding an enemy piece: a legal capture.
    m.board[2][1] = BlockData { colour: Colour::Black, piece: Piece::Knight };
    assert!(m.movement((1, 0)));
    assert_eq!(m.board[2][1], BlockData { colour: Colour::White, piece: Piece::Pawn });
}

#[test]
fn rook_blocked_by_own_pawn() {
    let mut m = new_game();
    m.turn = Colour::Black;
    m.arrow = (5, 0);
    assert!(!m.movement((7, 0)));
}

#[test]
fn rook_moves_on_open_file() {
    let mut m = new_game();
    m.turn = Colour::Black;
    m.board[6][0] = cleared(6, 0);
    m.arrow = (4, 0);
    assert!(m.movement((7, 0)));
    assert_eq!(m.board[4][0], BlockData { colour: Colour::Black, piece: Piece::Rook });
    assert_eq!(m.board[7][0], cleared(7, 0));
}

#[test]
fn rook_rejects_non_line_target() {
    let mut m = new_game();
    m.turn = Colour::Black;
    m.board[6][0] = cleared(6, 0);
    m.arrow = (5, 1);
    assert!(!m.movement((7, 0)));
}

#[test]
fn bishop_clear_and_blocked_diagonal() {
    let mut m = new_game();
    m.turn = Colour::Black;
    m.board[6][1] = cleared(6, 1);
    m.arrow = (5, 0);
    assert!(m.movement((7, 2)));

    let mut blocked = new_game();
    blocked.turn = Colour::Black;
    blocked.board[6][1] = BlockData { colour: Colour::White, piece: Piece::Pawn };
    blocked.arrow = (5, 0);
    assert!(!blocked.movement((7, 2)));
}

#[test]
fn king_single_square_only() {
    let mut m = new_game();
    m.turn = Colour::Black;
    m.arrow = (5, 4);
    assert!(!m.movement((7, 4)));

    let mut open = new_game();
    open.turn = Colour::Black;
    open.board[6][4] = cleared(6, 4);
    open.arrow = (6, 4);
    assert!(open.movement((7, 4)));
}

#[test]
fn king_capture_of_opponent() {
    let mut m = new_game();
    m.turn = Colour::Black;
    m.board[6][4] = BlockData { colour: Colour::White, piece: Piece::Knight };
    m.arrow = (6, 4);
    assert!(m.movement((7, 4)));
    assert_eq!(m.board[6][4], BlockData { colour: Colour::Black, piece: Piece::King });
}

#[test]
fn king_rejects_standing_still() {
    let mut m = new_game();
    m.arrow = (0, 3);
    assert!(!m.movement((0, 3)));
}

#[test]
fn knight_jumps_over_pawns() {
    let mut m = new_game();
    m.arrow = (2, 2);
    assert!(m.movement((0, 1)));
    assert_eq!(m.board[2][2], BlockData { colour: Colour::White, piece: Piece::Knight });
}

#[test]
fn knight_rejects_other_offsets() {
    let mut m = new_game();
    m.arrow = (2, 1);
    assert!(!m.movement((0, 1)));
}

#[test]
fn queen_moves_straight_and_diagonally() {
    let mut m = new_game();
    m.board[1][4] = cleared(1, 4);
    m.arrow = (4, 4);
    assert!(m.movement((0, 4)));
    assert_eq!(m.board[4][4], BlockData { colour: Colour::White, piece: Piece::Queen });

    let mut d = new_game();
    d.board[1][3] = cleared(1, 3);
    d.arrow = (4, 0);
    assert!(d.movement((0, 4)));
    assert_eq!(d.board[4][0], BlockData { colour: Colour::White, piece: Piece::Queen });
}

#[test]
fn queen_blocked_through_own_pawn() {
    let mut m = new_game();
    m.arrow = (4, 4);
    assert!(!m.movement((0, 4)));
}

#[test]
fn out_of_turn_move_rejected() {
    let mut m = new_game();
    m.arrow = (5, 0);
    assert!(!m.movement((6, 0)));
}

#[test]
fn friendly_capture_rejected() {
    let mut m = new_game();
    m.arrow = (1, 0);
    assert!(!m.movement((0, 0)));
}

#[test]
fn moving_an_empty_square_rejected() {
    let mut m = new_game();
    // (4, 4) is empty; its checker colour even matches the turn, which
    // must not make it movable.
    m.turn = Colour::Black;
    m.arrow = (3, 4);
    assert!(!m.movement((4, 4)));
}

#[test]
fn turn_alternates_over_a_short_game() {
    let mut m = new_game();
    m.arrow = (2, 0);
    assert!(m.movement((1, 0)));
    assert_eq!(m.turn, Colour::Black);
    m.arrow = (5, 0);
    assert!(m.movement((6, 0)));
    assert_eq!(m.turn, Colour::White);
}

#[test]
fn fresh_board_without_pieces() {
    let m = Matrix::new();
    for r in 0..8 {
        for c in 0..8 {
            assert_eq!(m.board[r][c], cleared(r, c));
        }
    }
    assert_eq!(m.turn, Colour::White);
}

#[test]
fn populate_pieces_fills_four_rows() {
    let mut m = Matrix::new();
    m.populate_pieces();
    for c in 0..8 {
        assert_eq!(m.board[1][c], BlockData { colour: Colour::White, piece: Piece::Pawn });
        assert_eq!(m.board[6][c], BlockData { colour: Colour::Black, piece: Piece::Pawn });
    }
    for r in 2..6 {
        for c in 0..8 {
            assert_eq!(m.board[r][c], cleared(r, c));
        }
    }
    assert_eq!(m.board[0][0].piece, Piece::Rook);
    assert_eq!(m.board[7][7].piece, Piece::Rook);
}
