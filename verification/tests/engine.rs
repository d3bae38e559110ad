use tictactoe::BoardChar;
use tictactoe::Move;
use tictactoe::TicTacToe;

/// Builds a game (human plays O, machine plays X) and stamps the given marks.
fn game_with(marks: &[(usize, usize, BoardChar)]) -> TicTacToe {
    let mut g = TicTacToe::new(BoardChar::O);
    for &(row, col, c) in marks {
        let ok = g.do_move(&Move { row, col }, c);
        assert!(ok, "cell ({}, {}) stamped twice", row, col);
    }
    g
}

fn snapshot(g: &TicTacToe) -> Vec<BoardChar> {
    let mut cells = Vec::new();
    for row in 0..3 {
        for col in 0..3 {
            cells.push(g.cell(row, col));
        }
    }
    cells
}

#[test]
fn search_leaves_the_board_unchanged() {
    let mut g = game_with(&[(0, 0, BoardChar::X), (1, 1, BoardChar::O)]);
    let before = snapshot(&g);
    let chosen = g.find_best_move();
    assert!(chosen.is_some());
    assert_eq!(snapshot(&g), before);

    let mover = g.machine_char;
    g.minimax(mover);
    assert_eq!(snapshot(&g), before);
}

#[test]
fn empty_board_is_a_forced_draw() {
    // With the automated player to move first, optimal play by both sides
    // ends in a draw: the position's minimax value is 0.
    let mut g = TicTacToe::new(BoardChar::O);
    let mover = g.machine_char;
    assert_eq!(g.minimax(mover), 0);
}

#[test]
fn first_move_on_empty_board_is_a_corner_scoring_zero() {
    let mut g = TicTacToe::new(BoardChar::O);
    let chosen = g.find_best_move().expect("an empty board has a move");
    // Ties are never replaced, so the first cell in row-major scan order
    // wins: the (0, 0) corner.
    assert_eq!(chosen, Move { row: 0, col: 0 });
    // Re-scoring: after applying the move, the position with the human to
    // move is still worth 0 to the automated player.
    let machine = g.machine_char;
    let player = g.player_char;
    assert!(g.do_move(&chosen, machine));
    assert_eq!(g.minimax(player), 0);
}

#[test]
fn engine_completes_its_winning_row() {
    // Machine (X) holds (0,0) and (0,1); (0,2) completes the row.
    let mut g = game_with(&[(0, 0, BoardChar::X), (0, 1, BoardChar::X)]);
    let chosen = g.find_best_move().expect("moves remain");
    assert_eq!(chosen, Move { row: 0, col: 2 });
    let machine = g.machine_char;
    assert!(g.do_move(&chosen, machine));
    assert!(g.machine_won());
}

#[test]
fn engine_blocks_an_imminent_loss() {
    // Human (O) holds (1,0) and (1,1) and threatens to complete the middle
    // row; the machine (X) holds (0,0). Every cell but (1,2) loses outright
    // (the human then wins at (1,2)), while blocking at (1,2) holds the game,
    // so the engine must block.
    let mut g = game_with(&[
        (0, 0, BoardChar::X),
        (1, 0, BoardChar::O),
        (1, 1, BoardChar::O),
    ]);
    let chosen = g.find_best_move().expect("moves remain");
    assert_eq!(chosen, Move { row: 1, col: 2 });
}

#[test]
fn ties_keep_the_first_cell_in_scan_order() {
    // Two immediate wins exist, at (0,2) and (2,2); the earlier one in
    // row-major order is kept because only strict improvement replaces.
    let mut g = game_with(&[
        (0, 0, BoardChar::X),
        (0, 1, BoardChar::X),
        (2, 0, BoardChar::X),
        (2, 1, BoardChar::X),
        (1, 0, BoardChar::O),
        (1, 1, BoardChar::O),
    ]);
    let chosen = g.find_best_move().expect("moves remain");
    assert_eq!(chosen, Move { row: 0, col: 2 });
}

#[test]
fn machine_move_applies_the_returned_move() {
    let mut g = game_with(&[(0, 0, BoardChar::X), (0, 1, BoardChar::X)]);
    let done = g.machine_move().expect("moves remain");
    assert_eq!(done, Move { row: 0, col: 2 });
    assert_eq!(g.cell(0, 2), BoardChar::X);
    assert!(g.machine_won());
}

#[test]
fn full_board_yields_no_move() {
    // The drawn board again: no Empty cell, so the engine has nothing to do.
    let mut g = game_with(&[
        (0, 0, BoardChar::X),
        (0, 1, BoardChar::O),
        (0, 2, BoardChar::X),
        (1, 0, BoardChar::X),
        (1, 1, BoardChar::O),
        (1, 2, BoardChar::O),
        (2, 0, BoardChar::O),
        (2, 1, BoardChar::X),
        (2, 2, BoardChar::X),
    ]);
    let before = snapshot(&g);
    assert!(g.find_best_move().is_none());
    assert!(g.machine_move().is_none());
    assert_eq!(snapshot(&g), before);
}

/// Replays `g` (human O, machine X), lets the human try `(row, col)`, and if
/// the game goes on lets the engine answer; recurses over every human line.
/// Panics if any line ends with a human win.
fn play_out(g: &TicTacToe) {
    for row in 0..3 {
        for col in 0..3 {
            let mut h = TicTacToe::new(BoardChar::O);
            for r in 0..3 {
                for c in 0..3 {
                    let mark = g.cell(r, c);
                    if mark != BoardChar::Empty {
                        h.do_move(&Move { row: r, col: c }, mark);
                    }
                }
            }
            if !h.player_move(&Move { row, col }) {
                continue;
            }
            assert!(!h.player_won(), "the human forced a win");
            if h.is_game_over() {
                continue;
            }
            h.machine_move();
            if !h.is_game_over() {
                play_out(&h);
            }
        }
    }
}

#[test]
fn machine_never_loses_against_every_human_strategy() {
    // Exhaustive adversarial check: the human (O) tries every cell at every
    // turn against the engine; the machine (X) moves first. No line of the
    // game may end with a human win.
    let mut g = TicTacToe::new(BoardChar::O);
    g.machine_move().expect("an empty board has a move");
    play_out(&g);
}
