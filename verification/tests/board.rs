use tictactoe::board::Board;
use tictactoe::board::Cell;

const POSITIONS: [&str; 9] = ["a0", "a1", "a2", "b0", "b1", "b2", "c0", "c1", "c2"];

fn board_with(cells: [Cell; 9]) -> Board {
    // Row-major: a0 b0 c0 / a1 b1 c1 / a2 b2 c2.
    Board {
        a0: cells[0],
        b0: cells[1],
        c0: cells[2],
        a1: cells[3],
        b1: cells[4],
        c1: cells[5],
        a2: cells[6],
        b2: cells[7],
        c2: cells[8],
    }
}

const E: Cell = Cell::Empty;
const O: Cell = Cell::O;
const X: Cell = Cell::X;

#[test]
fn move_succeeds_exactly_once_per_position() {
    for position in POSITIONS {
        for player in ['o', 'x'] {
            let mut board = Board::default();
            assert!(board.process_turn(player, position));
            let after_first = board;
            // A second move at the same position fails for either player
            // and leaves the board unchanged.
            assert!(!board.process_turn(player, position));
            assert_eq!(board, after_first);
            let other = if player == 'o' { 'x' } else { 'o' };
            assert!(!board.process_turn(other, position));
            assert_eq!(board, after_first);
        }
    }
}

#[test]
fn invalid_player_never_mutates() {
    for player in ['O', 'X', 'q', ' ', '\0', '0'] {
        let mut board = Board::default();
        assert!(!board.process_turn(player, "a0"));
        assert_eq!(board, Board::default());

        let mut marked = board_with([X, O, E, E, E, E, E, E, E]);
        let before = marked;
        assert!(!marked.process_turn(player, "c2"));
        assert_eq!(marked, before);
    }
}

#[test]
fn invalid_position_never_mutates() {
    for position in ["", "a", "d0", "a3", "a00", "0a", "A0", "b 1", "xx"] {
        let mut board = Board::default();
        assert!(!board.process_turn('x', position));
        assert_eq!(board, Board::default());

        let mut marked = board_with([X, O, E, E, X, E, E, E, O]);
        let before = marked;
        assert!(!marked.process_turn('o', position));
        assert_eq!(marked, before);
    }
}

#[test]
fn empty_board_has_no_winner() {
    assert_eq!(Board::default().get_state(), '\0');
}

#[test]
fn no_full_line_means_no_winner() {
    // Scattered marks, no three in a row anywhere.
    let board = board_with([X, O, X, E, O, E, O, X, E]);
    assert_eq!(board.get_state(), '\0');
    // Two in a row in several lines, never three.
    let board = board_with([X, X, O, O, O, X, X, O, X]);
    assert_eq!(board.get_state(), '\0');
}

#[test]
fn each_winning_line_is_detected() {
    // The eight lines, each fully marked on its own, for each player.
    let lines: [[usize; 3]; 8] = [
        [0, 1, 2], // row 0
        [3, 4, 5], // row 1
        [6, 7, 8], // row 2
        [0, 3, 6], // column a
        [1, 4, 7], // column b
        [2, 5, 8], // column c
        [0, 4, 8], // diagonal a0-b1-c2
        [6, 4, 2], // diagonal a2-b1-c0
    ];
    for line in lines {
        for (mark, expected) in [(X, 'x'), (O, 'o')] {
            let mut cells = [E; 9];
            for i in line {
                cells[i] = mark;
            }
            assert_eq!(board_with(cells).get_state(), expected);
        }
    }
}

#[test]
fn first_full_line_in_priority_order_wins() {
    // On a malformed board with two differently-owned full lines, the
    // fixed order row0, row1, row2, col a, col b, col c, diagonals decides.
    let rows = board_with([X, X, X, O, O, O, E, E, E]);
    assert_eq!(rows.get_state(), 'x');
    // Column a comes before column c in the order.
    let cols = board_with([O, E, X, O, E, X, O, E, X]);
    assert_eq!(cols.get_state(), 'o');
}

#[test]
fn cell_set_is_write_once() {
    let mut cell = Cell::default();
    assert_eq!(cell, Cell::Empty);
    assert!(!cell.set('q'));
    assert_eq!(cell, Cell::Empty);
    assert!(cell.set('x'));
    assert_eq!(cell, Cell::X);
    assert!(!cell.set('o'));
    assert_eq!(cell, Cell::X);
    let mut cell = Cell::default();
    assert!(cell.set('o'));
    assert_eq!(cell, Cell::O);
}

#[test]
fn render_shows_headers_rows_and_marks() {
    let empty = Board::default();
    assert_eq!(empty.render(), "  A B C\n0      \n1      \n2      \n");
    let board = board_with([X, O, E, E, X, E, E, E, O]);
    assert_eq!(board.render(), "  A B C\n0 X O  \n1   X  \n2     O\n");
}
