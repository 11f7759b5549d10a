use rgm::board::{Board, Square, Tint, BOARD_HEIGHT, BOARD_WIDTH};
use rgm::movement::RotIndex;
use rgm::piece::{Piece, PieceType};

fn filled(t: PieceType) -> Square {
    Square::Filled(Tint::Piece(t))
}

fn fill_row(board: &mut Board, row: usize, t: PieceType) {
    for col in 0..BOARD_WIDTH {
        board.state[row][col] = filled(t);
    }
}

fn piece(p_type: PieceType, rot_idx: RotIndex, x: i32, y: i32) -> Piece {
    Piece { p_type, rot_idx, x, y }
}

#[test]
fn board_has_ten_columns_and_twenty_one_rows() {
    assert_eq!(BOARD_WIDTH, 10);
    assert_eq!(BOARD_HEIGHT, 21);
    let board = Board::default();
    assert_eq!(board.state.len(), 21);
    assert_eq!(board.state[0].len(), 10);
}

#[test]
fn default_board_is_empty() {
    let board = Board::default();
    assert!(board.is_empty());
    for row in 0..BOARD_HEIGHT {
        for col in 0..BOARD_WIDTH {
            assert_eq!(board.state[row][col], Square::Empty);
        }
    }
}

#[test]
fn board_with_one_square_is_not_empty() {
    let mut board = Board::default();
    board.state[20][9] = filled(PieceType::I);
    assert!(!board.is_empty());
}

#[test]
fn clear_lines_without_full_row_changes_nothing() {
    let mut board = Board::default();
    board.state[0][0] = filled(PieceType::T);
    board.state[3][4] = filled(PieceType::L);
    let lines = board.clear_lines();
    assert_eq!(lines, 0);
    assert_eq!(board.state[0][0], filled(PieceType::T));
    assert_eq!(board.state[3][4], filled(PieceType::L));
    assert_eq!(board.state[1][0], Square::Empty);
}

#[test]
fn clear_lines_removes_full_rows_and_keeps_order() {
    let mut board = Board::default();
    fill_row(&mut board, 0, PieceType::Z);
    board.state[1][2] = filled(PieceType::T);
    fill_row(&mut board, 2, PieceType::S);
    board.state[3][7] = filled(PieceType::L);
    board.state[3][8] = filled(PieceType::J);
    fill_row(&mut board, 4, PieceType::O);
    board.state[5][0] = filled(PieceType::I);

    let lines = board.clear_lines();
    assert_eq!(lines, 3);

    // The rows that were not full, in their order, from the bottom.
    let mut expected = Board::default();
    expected.state[0][2] = filled(PieceType::T);
    expected.state[1][7] = filled(PieceType::L);
    expected.state[1][8] = filled(PieceType::J);
    expected.state[2][0] = filled(PieceType::I);
    for row in 0..BOARD_HEIGHT {
        assert_eq!(board.state[row], expected.state[row], "row {}", row);
    }
    assert_eq!(board.state.len(), 21);
}

#[test]
fn clear_lines_on_a_full_board_leaves_it_empty() {
    let mut board = Board::default();
    for row in 0..BOARD_HEIGHT {
        fill_row(&mut board, row, PieceType::O);
    }
    assert_eq!(board.clear_lines(), 21);
    assert!(board.is_empty());
}

#[test]
fn clear_lines_keeps_a_row_with_one_gap() {
    let mut board = Board::default();
    fill_row(&mut board, 0, PieceType::Z);
    board.state[0][9] = Square::Empty;
    assert_eq!(board.clear_lines(), 0);
    assert_eq!(board.state[0][0], filled(PieceType::Z));
    assert_eq!(board.state[0][9], Square::Empty);
}

#[test]
fn lock_piece_puts_box_row_zero_on_row_y_minus_one() {
    // The T piece in its neutral orientation fills box row 1, columns 0 to 2,
    // and box row 2, column 1.
    let mut board = Board::default();
    let lines = board.lock_piece(piece(PieceType::T, RotIndex::Neutral, 4, 3));
    assert_eq!(lines, 0);
    let mut expected = Board::default();
    expected.state[1][4] = filled(PieceType::T);
    expected.state[1][5] = filled(PieceType::T);
    expected.state[1][6] = filled(PieceType::T);
    expected.state[0][5] = filled(PieceType::T);
    for row in 0..BOARD_HEIGHT {
        assert_eq!(board.state[row], expected.state[row], "row {}", row);
    }
}

#[test]
fn lock_piece_leaves_squares_under_empty_cells_alone() {
    let mut board = Board::default();
    // Squares inside the piece's box, under cells that the piece leaves empty.
    board.state[0][4] = filled(PieceType::Z);
    board.state[0][6] = filled(PieceType::S);
    board.state[2][5] = filled(PieceType::L);
    board.state[2][7] = filled(PieceType::J);
    // A square far from the piece.
    board.state[10][0] = filled(PieceType::O);
    let lines = board.lock_piece(piece(PieceType::T, RotIndex::Neutral, 4, 3));
    assert_eq!(lines, 0);
    assert_eq!(board.state[0][4], filled(PieceType::Z));
    assert_eq!(board.state[0][6], filled(PieceType::S));
    assert_eq!(board.state[2][5], filled(PieceType::L));
    assert_eq!(board.state[2][7], filled(PieceType::J));
    assert_eq!(board.state[10][0], filled(PieceType::O));
    assert_eq!(board.state[1][4], filled(PieceType::T));
    assert_eq!(board.state[0][5], filled(PieceType::T));
    assert_eq!(board.state[2][4], Square::Empty);
    assert_eq!(board.state[2][6], Square::Empty);
}

#[test]
fn lock_piece_clears_the_row_it_completes() {
    let mut board = Board::default();
    for col in 4..BOARD_WIDTH {
        board.state[0][col] = filled(PieceType::Z);
    }
    board.state[1][9] = filled(PieceType::S);
    // The I piece lies flat in box row 1: grid row y - 2.
    let lines = board.lock_piece(piece(PieceType::I, RotIndex::Neutral, 0, 2));
    assert_eq!(lines, 1);
    assert_eq!(board.state[0][9], filled(PieceType::S));
    for col in 0..9 {
        assert_eq!(board.state[0][col], Square::Empty);
    }
    for row in 1..BOARD_HEIGHT {
        for col in 0..BOARD_WIDTH {
            assert_eq!(board.state[row][col], Square::Empty);
        }
    }
}

#[test]
fn lock_piece_clears_four_rows_with_an_upright_i() {
    let mut board = Board::default();
    for row in 0..4 {
        fill_row(&mut board, row, PieceType::J);
        board.state[row][2] = Square::Empty;
    }
    // The upright I fills box column 2, box rows 0 to 3.
    let lines = board.lock_piece(piece(PieceType::I, RotIndex::CW, 0, 4));
    assert_eq!(lines, 4);
    assert!(board.is_empty());
}

#[test]
fn monoify_drains_one_row_for_every_ten_ticks() {
    let mut board = Board::default();
    for row in 0..4 {
        board.state[row][row] = filled(PieceType::L);
    }
    board.monoify(25);
    assert_eq!(board.state[0][0], Square::Filled(Tint::Mono));
    assert_eq!(board.state[1][1], Square::Filled(Tint::Mono));
    assert_eq!(board.state[2][2], filled(PieceType::L));
    assert_eq!(board.state[3][3], filled(PieceType::L));
    assert_eq!(board.state[0][1], Square::Empty);
}

#[test]
fn monoify_does_nothing_before_ten_ticks_or_below_zero() {
    let mut board = Board::default();
    board.state[0][0] = filled(PieceType::L);
    board.monoify(9);
    assert_eq!(board.state[0][0], filled(PieceType::L));
    board.monoify(0);
    assert_eq!(board.state[0][0], filled(PieceType::L));
    board.monoify(-30);
    assert_eq!(board.state[0][0], filled(PieceType::L));
    board.monoify(10);
    assert_eq!(board.state[0][0], Square::Filled(Tint::Mono));
}

#[test]
fn monoify_drains_every_row_after_long_enough() {
    let mut board = Board::default();
    board.state[20][9] = filled(PieceType::I);
    board.monoify(209);
    assert_eq!(board.state[20][9], filled(PieceType::I));
    board.monoify(210);
    assert_eq!(board.state[20][9], Square::Filled(Tint::Mono));
    board.state[20][8] = filled(PieceType::I);
    board.monoify(i32::MAX);
    assert_eq!(board.state[20][8], Square::Filled(Tint::Mono));
}

#[test]
fn render_draws_the_top_row_first() {
    let mut board = Board::default();
    board.state[0][0] = filled(PieceType::T);
    board.state[20][9] = filled(PieceType::I);
    let text = board.render();
    let lines: Vec<&str> = text.split('\n').collect();
    // Twenty-one lines, each ended by a line feed.
    assert_eq!(lines.len(), 22);
    assert_eq!(lines[21], "");
    assert_eq!(lines[0], ".........X");
    assert_eq!(lines[20], "X.........");
    for line in &lines[1..20] {
        assert_eq!(*line, "..........");
    }
}
