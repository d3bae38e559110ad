//! The 3x3 board: cell states, move addressing, mutation, and the
//! win/draw/ongoing evaluator.

use vstd::prelude::*;

verus! {

/// The content of one grid position: a player's mark or Empty.
#[derive(Clone, Copy, Debug, PartialEq, Eq, Structural)]
pub enum BoardChar {
    O,
    X,
    Empty,
}

/// The derived result of a position: still playable, a win, or a draw.
#[derive(Clone, Copy, Debug, PartialEq, Eq, Structural)]
pub enum GameOutcome {
    Ongoing,
    OWon,
    XWon,
    Draw,
}

/// A (row, column) coordinate identifying one cell; both in {0, 1, 2}.
#[derive(Clone, Copy, Debug, PartialEq, Eq, Structural)]
pub struct Move {
    pub row: usize,
    pub col: usize,
}

/// The total "other mark" mapping: the two players' marks swap, Empty is its
/// own opposite (it never flips into a player).
pub open spec fn opposite(c: BoardChar) -> BoardChar {
    match c {
        BoardChar::Empty => BoardChar::Empty,
        BoardChar::O => BoardChar::X,
        BoardChar::X => BoardChar::O,
    }
}

/// True iff the three flat positions i, j, k all hold mark c.
pub open spec fn line_is(b: Seq<BoardChar>, c: BoardChar, i: int, j: int, k: int) -> bool {
    b[i] == c && b[j] == c && b[k] == c
}

/// The eight index triples that form a winning line on the flat grid
/// (cell (row, col) lives at flat index 3 * row + col).
pub open spec fn is_line(i: int, j: int, k: int) -> bool {
    ||| (i == 0 && j == 1 && k == 2)
    ||| (i == 3 && j == 4 && k == 5)
    ||| (i == 6 && j == 7 && k == 8)
    ||| (i == 0 && j == 3 && k == 6)
    ||| (i == 1 && j == 4 && k == 7)
    ||| (i == 2 && j == 5 && k == 8)
    ||| (i == 0 && j == 4 && k == 8)
    ||| (i == 2 && j == 4 && k == 6)
}

/// True iff some row, column, or diagonal holds three marks equal to c.
pub open spec fn wins(b: Seq<BoardChar>, c: BoardChar) -> bool {
    ||| line_is(b, c, 0, 1, 2)
    ||| line_is(b, c, 3, 4, 5)
    ||| line_is(b, c, 6, 7, 8)
    ||| line_is(b, c, 0, 3, 6)
    ||| line_is(b, c, 1, 4, 7)
    ||| line_is(b, c, 2, 5, 8)
    ||| line_is(b, c, 0, 4, 8)
    ||| line_is(b, c, 2, 4, 6)
}

/// True iff at least one cell of the board is Empty.
pub open spec fn has_empty(b: Seq<BoardChar>) -> bool {
    exists|i: int| 0 <= i < 9 && b[i] == BoardChar::Empty
}

/// The outcome derived from a board: a win takes precedence, then an Empty
/// cell means the game is still Ongoing, and a full board with no line is a
/// Draw. (On boards reachable by legal play at most one player can have a
/// completed line, so the O-before-X precedence is never observable.)
pub open spec fn outcome_of(b: Seq<BoardChar>) -> GameOutcome {
    if wins(b, BoardChar::O) {
        GameOutcome::OWon
    } else if wins(b, BoardChar::X) {
        GameOutcome::XWon
    } else if has_empty(b) {
        GameOutcome::Ongoing
    } else {
        GameOutcome::Draw
    }
}

impl BoardChar {
    /// The executable form of `opposite`.
    pub fn to_opposite(&self) -> (r: BoardChar)
        ensures
            r == opposite(*self),
    {
        match *self {
            BoardChar::Empty => BoardChar::Empty,
            BoardChar::O => BoardChar::X,
            BoardChar::X => BoardChar::O,
        }
    }
}

impl Move {
    /// Both coordinates are on the grid.
    pub open spec fn wf(&self) -> bool {
        self.row < 3 && self.col < 3
    }

    /// The flat index of the addressed cell.
    pub open spec fn index(&self) -> int {
        3 * self.row + self.col
    }
}

/// One game instance: the grid (stored row-major as 9 cells) and the fixed
/// binding of the human and the automated player to the two marks.
pub struct TicTacToe {
    pub board: Vec<BoardChar>,
    pub player_char: BoardChar,
    pub machine_char: BoardChar,
}

impl TicTacToe {
    /// The grid always has exactly 9 cells.
    pub open spec fn board_wf(&self) -> bool {
        self.board@.len() == 9
    }

    /// Well-formed instance: a 9-cell grid, and the two sides bound to the
    /// two distinct non-Empty marks.
    pub open spec fn wf(&self) -> bool {
        &&& self.board_wf()
        &&& self.player_char != BoardChar::Empty
        &&& self.machine_char != BoardChar::Empty
        &&& self.machine_char == opposite(self.player_char)
    }

    /// A fresh game: every cell Empty, the human bound to `player_char` and
    /// the automated player to the opposite mark.
    pub fn new(player_char: BoardChar) -> (r: TicTacToe)
        requires
            player_char != BoardChar::Empty,
        ensures
            r.wf(),
            r.player_char == player_char,
            r.machine_char == opposite(player_char),
            forall|i: int| 0 <= i < 9 ==> r.board@[i] == BoardChar::Empty,
    {
        let mut cells: Vec<BoardChar> = Vec::new();
        let mut k: usize = 0;
        while k < 9
            invariant
                k <= 9,
                cells@.len() == k,
                forall|i: int| 0 <= i < k ==> cells@[i] == BoardChar::Empty,
            decreases 9 - k,
        {
            cells.push(BoardChar::Empty);
            k += 1;
        }
        TicTacToe { board: cells, player_char, machine_char: player_char.to_opposite() }
    }

    /// Read-only access to one cell, for rendering and for queries.
    pub fn cell(&self, row: usize, col: usize) -> (r: BoardChar)
        requires
            self.board_wf(),
            row < 3,
            col < 3,
        ensures
            r == self.board@[3 * row + col],
    {
        self.board[3 * row + col]
    }

    /// True iff there is at least one Empty cell left to play.
    pub fn has_moves(&self) -> (r: bool)
        requires
            self.board_wf(),
        ensures
            r == has_empty(self.board@),
    {
        let mut k: usize = 0;
        while k < 9
            invariant
                k <= 9,
                self.board_wf(),
                forall|i: int| 0 <= i < k ==> self.board@[i] != BoardChar::Empty,
            decreases 9 - k,
        {
            if self.board[k] == BoardChar::Empty {
                return true;
            }
            k += 1;
        }
        false
    }

    /// Move application: claims the addressed cell for mark `c` only if it is
    /// still Empty; an occupied cell leaves the board unchanged and reports
    /// failure.
    pub fn do_move(&mut self, m: &Move, c: BoardChar) -> (r: bool)
        requires
            old(self).board_wf(),
            m.wf(),
        ensures
            final(self).player_char == old(self).player_char,
            final(self).machine_char == old(self).machine_char,
            r == (old(self).board@[m.index()] == BoardChar::Empty),
            r ==> final(self).board@ == old(self).board@.update(m.index(), c),
            !r ==> final(self).board@ == old(self).board@,
    {
        let k = 3 * m.row + m.col;
        if self.board[k] == BoardChar::Empty {
            self.board.set(k, c);
            true
        } else {
            false
        }
    }

    /// The human's move: apply their mark under the occupied-cell rule.
    pub fn player_move(&mut self, m: &Move) -> (r: bool)
        requires
            old(self).wf(),
            m.wf(),
        ensures
            final(self).wf(),
            final(self).player_char == old(self).player_char,
            final(self).machine_char == old(self).machine_char,
            r == (old(self).board@[m.index()] == BoardChar::Empty),
            r ==> final(self).board@ == old(self).board@.update(m.index(), old(self).player_char),
            !r ==> final(self).board@ == old(self).board@,
    {
        let c = self.player_char;
        self.do_move(m, c)
    }

    /// True iff mark `c` has a completed row, column, or diagonal.
    pub fn evaluate(&self, c: BoardChar) -> (r: bool)
        requires
            self.board_wf(),
        ensures
            r == wins(self.board@, c),
    {
        // Rows, then columns, then the two diagonals.
        (self.cell(0, 0) == c && self.cell(0, 1) == c && self.cell(0, 2) == c)
            || (self.cell(1, 0) == c && self.cell(1, 1) == c && self.cell(1, 2) == c)
            || (self.cell(2, 0) == c && self.cell(2, 1) == c && self.cell(2, 2) == c)
            || (self.cell(0, 0) == c && self.cell(1, 0) == c && self.cell(2, 0) == c)
            || (self.cell(0, 1) == c && self.cell(1, 1) == c && self.cell(2, 1) == c)
            || (self.cell(0, 2) == c && self.cell(1, 2) == c && self.cell(2, 2) == c)
            || (self.cell(0, 0) == c && self.cell(1, 1) == c && self.cell(2, 2) == c)
            || (self.cell(0, 2) == c && self.cell(1, 1) == c && self.cell(2, 0) == c)
    }

    /// True iff the human's mark has a completed line.
    pub fn player_won(&self) -> (r: bool)
        requires
            self.board_wf(),
        ensures
            r == wins(self.board@, self.player_char),
    {
        self.evaluate(self.player_char)
    }

    /// True iff the automated player's mark has a completed line.
    pub fn machine_won(&self) -> (r: bool)
        requires
            self.board_wf(),
        ensures
            r == wins(self.board@, self.machine_char),
    {
        self.evaluate(self.machine_char)
    }

    /// True iff the position is terminal: a full board or a completed line.
    pub fn is_game_over(&self) -> (r: bool)
        requires
            self.board_wf(),
        ensures
            r == (!has_empty(self.board@) || wins(self.board@, self.player_char) || wins(
                self.board@,
                self.machine_char,
            )),
    {
        !self.has_moves() || self.player_won() || self.machine_won()
    }

    /// The derived outcome of the current position.
    pub fn outcome(&self) -> (r: GameOutcome)
        requires
            self.board_wf(),
        ensures
            r == outcome_of(self.board@),
    {
        if self.evaluate(BoardChar::O) {
            GameOutcome::OWon
        } else if self.evaluate(BoardChar::X) {
            GameOutcome::XWon
        } else if self.has_moves() {
            GameOutcome::Ongoing
        } else {
            GameOutcome::Draw
        }
    }
}

/// Any of the eight winning lines filled with three marks of one player is
/// detected as a win for that player, whatever the other six cells hold.
pub proof fn lemma_evaluator_detects_lines(b: Seq<BoardChar>, p: BoardChar, i: int, j: int, k: int)
    requires
        b.len() == 9,
        p != BoardChar::Empty,
        is_line(i, j, k),
        b[i] == p,
        b[j] == p,
        b[k] == p,
    ensures
        wins(b, p),
{
}

/// A fully occupied board with no completed line is a Draw.
pub proof fn lemma_draw_detection(b: Seq<BoardChar>)
    requires
        b.len() == 9,
        !has_empty(b),
        !wins(b, BoardChar::O),
        !wins(b, BoardChar::X),
    ensures
        outcome_of(b) == GameOutcome::Draw,
{
}

/// Any board with at least one Empty cell and no completed line is Ongoing.
pub proof fn lemma_ongoing_detection(b: Seq<BoardChar>)
    requires
        b.len() == 9,
        has_empty(b),
        !wins(b, BoardChar::O),
        !wins(b, BoardChar::X),
    ensures
        outcome_of(b) == GameOutcome::Ongoing,
{
}

} // verus!
