//! The decision engine: exhaustive adversarial (minimax) search over the
//! board, the spec-level game value it computes, and the first-best move
//! selection rule.

use vstd::prelude::*;

verus! {

use crate::board::BoardChar;
use crate::board::Move;
use crate::board::TicTacToe;
use crate::board::has_empty;
use crate::board::opposite;
use crate::board::wins;

/// How many cells from flat position i onward are Empty.
pub open spec fn count_empty_from(b: Seq<BoardChar>, i: int) -> nat
    decreases 9 - i,
{
    if i >= 9 {
        0
    } else {
        (if b[i] == BoardChar::Empty {
            1nat
        } else {
            0nat
        }) + count_empty_from(b, i + 1)
    }
}

/// How many cells of the whole board are Empty; the measure that bounds the
/// depth of the search.
pub open spec fn count_empty(b: Seq<BoardChar>) -> nat {
    count_empty_from(b, 0)
}

/// Writing a mark into an Empty cell lowers every suffix count that covers
/// that cell by exactly one, and leaves the others unchanged.
pub proof fn lemma_count_empty_update(b: Seq<BoardChar>, k: int, v: BoardChar, i: int)
    requires
        b.len() == 9,
        0 <= k < 9,
        0 <= i <= 9,
        b[k] == BoardChar::Empty,
        v != BoardChar::Empty,
    ensures
        count_empty_from(b.update(k, v), i) == if i <= k {
            count_empty_from(b, i) - 1
        } else {
            count_empty_from(b, i) as int
        },
    decreases 9 - i,
{
    if i < 9 {
        lemma_count_empty_update(b, k, v, i + 1);
    }
}

/// The game-theoretic value of the position for the automated player, with
/// `mover` to play: +1 when the automated player can force a win, -1 when the
/// human can, 0 when optimal play by both ends in a draw. A position already
/// won scores immediately; otherwise the value folds over all Empty cells.
pub open spec fn game_value(b: Seq<BoardChar>, mover: BoardChar, machine: BoardChar) -> int
    decreases count_empty(b), 10int,
    when mover != BoardChar::Empty && machine != BoardChar::Empty && b.len() == 9
{
    if wins(b, machine) {
        1
    } else if wins(b, opposite(machine)) {
        -1
    } else if !has_empty(b) {
        0
    } else {
        search_value(b, mover, machine, 9)
    }
}

/// The fold the search performs over the first `upto` cells in scan order:
/// for each Empty cell, the value of playing `mover` there; the automated
/// player takes the maximum over its options, the human the minimum, starting
/// from a sentinel strictly outside the [-1, 1] value range.
pub open spec fn search_value(b: Seq<BoardChar>, mover: BoardChar, machine: BoardChar, upto: int) -> int
    decreases count_empty(b), upto,
    when mover != BoardChar::Empty && machine != BoardChar::Empty && b.len() == 9 && 0 <= upto <= 9
{
    if upto <= 0 {
        if mover == machine {
            -10
        } else {
            10
        }
    } else {
        let rest = search_value(b, mover, machine, upto - 1);
        let k = upto - 1;
        if b[k] == BoardChar::Empty {
            proof {
                lemma_count_empty_update(b, k, mover, 0);
            }
            let v = game_value(b.update(k, mover), opposite(mover), machine);
            if mover == machine {
                if v > rest {
                    v
                } else {
                    rest
                }
            } else {
                if v < rest {
                    v
                } else {
                    rest
                }
            }
        } else {
            rest
        }
    }
}

/// The move-selection fold over the first `upto` cells in scan order: the
/// best value seen so far and the cell that first achieved it. Only a strict
/// improvement replaces the recorded cell, so among equally good cells the
/// first in scan order wins.
pub open spec fn best_choice(b: Seq<BoardChar>, machine: BoardChar, upto: int) -> (int, Option<int>)
    decreases upto,
{
    if upto <= 0 {
        (-10, None::<int>)
    } else {
        let prev = best_choice(b, machine, upto - 1);
        let k = upto - 1;
        if b[k] == BoardChar::Empty {
            let v = game_value(b.update(k, machine), opposite(machine), machine);
            if v > prev.0 {
                (v, Some(k))
            } else {
                prev
            }
        } else {
            prev
        }
    }
}

/// Game values always lie in [-1, 1]: a forced win, a forced loss, or a draw.
pub proof fn lemma_game_value_bounds(b: Seq<BoardChar>, mover: BoardChar, machine: BoardChar)
    requires
        b.len() == 9,
        mover != BoardChar::Empty,
        machine != BoardChar::Empty,
    ensures
        -1 <= game_value(b, mover, machine) <= 1,
    decreases count_empty(b), 10int,
{
    if !wins(b, machine) && !wins(b, opposite(machine)) && has_empty(b) {
        lemma_search_bounds(b, mover, machine, 9);
    }
}

/// The search fold stays in [-1, 1] once it has seen an Empty cell, and
/// still holds its sentinel before that.
proof fn lemma_search_bounds(b: Seq<BoardChar>, mover: BoardChar, machine: BoardChar, upto: int)
    requires
        b.len() == 9,
        mover != BoardChar::Empty,
        machine != BoardChar::Empty,
        0 <= upto <= 9,
    ensures
        (exists|k: int| 0 <= k < upto && b[k] == BoardChar::Empty) ==> -1 <= search_value(
            b,
            mover,
            machine,
            upto,
        ) <= 1,
        !(exists|k: int| 0 <= k < upto && b[k] == BoardChar::Empty) ==> search_value(
            b,
            mover,
            machine,
            upto,
        ) == (if mover == machine {
            -10int
        } else {
            10int
        }),
    decreases count_empty(b), upto,
{
    if upto > 0 {
        lemma_search_bounds(b, mover, machine, upto - 1);
        let k = upto - 1;
        if b[k] == BoardChar::Empty {
            lemma_count_empty_update(b, k, mover, 0);
            lemma_game_value_bounds(b.update(k, mover), opposite(mover), machine);
            assert(exists|j: int| 0 <= j < upto && b[j] == BoardChar::Empty);
        } else {
            assert((exists|j: int| 0 <= j < upto && b[j] == BoardChar::Empty) ==> (exists|j: int|
                0 <= j < upto - 1 && b[j] == BoardChar::Empty));
        }
    }
}

/// The selection fold tracks the search fold exactly: its best value is the
/// search value over the same prefix, it records a cell iff the prefix holds
/// an Empty cell, and any recorded cell is an Empty cell of the prefix.
pub proof fn lemma_choice_value(b: Seq<BoardChar>, machine: BoardChar, upto: int)
    requires
        b.len() == 9,
        machine != BoardChar::Empty,
        0 <= upto <= 9,
    ensures
        best_choice(b, machine, upto).0 == search_value(b, machine, machine, upto),
        (best_choice(b, machine, upto).1 is Some) <==> (exists|k: int|
            0 <= k < upto && b[k] == BoardChar::Empty),
        best_choice(b, machine, upto).1 matches Some(k) ==> 0 <= k < upto && b[k]
            == BoardChar::Empty,
        (best_choice(b, machine, upto).1 is None) ==> best_choice(b, machine, upto).0 == -10,
    decreases upto,
{
    if upto > 0 {
        lemma_choice_value(b, machine, upto - 1);
        let k = upto - 1;
        if b[k] == BoardChar::Empty {
            lemma_game_value_bounds(b.update(k, machine), opposite(machine), machine);
            assert(exists|j: int| 0 <= j < upto && b[j] == BoardChar::Empty);
        } else {
            assert((exists|j: int| 0 <= j < upto && b[j] == BoardChar::Empty) ==> (exists|j: int|
                0 <= j < upto - 1 && b[j] == BoardChar::Empty));
        }
    }
}

/// The search fold with the automated player to move dominates every single
/// candidate move in its prefix: no Empty cell scores more than the fold.
proof fn lemma_search_dominates(b: Seq<BoardChar>, machine: BoardChar, upto: int)
    requires
        b.len() == 9,
        machine != BoardChar::Empty,
        0 <= upto <= 9,
    ensures
        forall|k: int|
            0 <= k < upto && b[k] == BoardChar::Empty ==> game_value(
                b.update(k, machine),
                opposite(machine),
                machine,
            ) <= search_value(b, machine, machine, upto),
    decreases upto,
{
    if upto > 0 {
        lemma_search_dominates(b, machine, upto - 1);
    }
}

/// The search fold with the human to move is dominated by every single
/// candidate move in its prefix: the minimizing fold never exceeds the value
/// any one human move leads to.
proof fn lemma_search_min_dominated(b: Seq<BoardChar>, machine: BoardChar, upto: int)
    requires
        b.len() == 9,
        machine != BoardChar::Empty,
        0 <= upto <= 9,
    ensures
        forall|k: int|
            0 <= k < upto && b[k] == BoardChar::Empty ==> search_value(
                b,
                opposite(machine),
                machine,
                upto,
            ) <= game_value(b.update(k, opposite(machine)), machine, machine),
    decreases upto,
{
    if upto > 0 {
        lemma_search_min_dominated(b, machine, upto - 1);
    }
}

/// The human cannot lower the position's value: with the human to move on a
/// non-terminal board, every cell the human can claim leads to a position
/// worth at least as much to the automated player as the current one.
pub proof fn lemma_human_cannot_lower_value(b: Seq<BoardChar>, machine: BoardChar)
    requires
        b.len() == 9,
        machine != BoardChar::Empty,
        has_empty(b),
        !wins(b, machine),
        !wins(b, opposite(machine)),
    ensures
        forall|k: int|
            0 <= k < 9 && b[k] == BoardChar::Empty ==> game_value(
                b.update(k, opposite(machine)),
                machine,
                machine,
            ) >= game_value(b, opposite(machine), machine),
{
    lemma_search_min_dominated(b, machine, 9);
}

/// A position whose value is non-negative is not lost: the human does not
/// hold a completed line there.
pub proof fn lemma_nonnegative_value_means_no_loss(
    b: Seq<BoardChar>,
    mover: BoardChar,
    machine: BoardChar,
)
    requires
        b.len() == 9,
        mover != BoardChar::Empty,
        machine != BoardChar::Empty,
        !wins(b, machine),
        game_value(b, mover, machine) >= 0,
    ensures
        !wins(b, opposite(machine)),
{
}

/// Within any prefix of the scan, the recorded cell's own value is the
/// recorded best value, every Empty cell before the recorded one scores
/// strictly less, and no Empty cell of the prefix scores more.
proof fn lemma_choice_tie_break(b: Seq<BoardChar>, machine: BoardChar, upto: int)
    requires
        b.len() == 9,
        machine != BoardChar::Empty,
        0 <= upto <= 9,
    ensures
        best_choice(b, machine, upto).1 matches Some(k) ==> {
            &&& game_value(b.update(k, machine), opposite(machine), machine) == best_choice(
                b,
                machine,
                upto,
            ).0
            &&& forall|j: int|
                0 <= j < k && b[j] == BoardChar::Empty ==> game_value(
                    b.update(j, machine),
                    opposite(machine),
                    machine,
                ) < best_choice(b, machine, upto).0
            &&& forall|j: int|
                0 <= j < upto && b[j] == BoardChar::Empty ==> game_value(
                    b.update(j, machine),
                    opposite(machine),
                    machine,
                ) <= best_choice(b, machine, upto).0
        },
    decreases upto,
{
    if upto > 0 {
        lemma_choice_tie_break(b, machine, upto - 1);
        lemma_choice_value(b, machine, upto - 1);
        let k = upto - 1;
        if b[k] == BoardChar::Empty {
            lemma_game_value_bounds(b.update(k, machine), opposite(machine), machine);
        }
    }
}

/// First-encountered-wins tie-break: on a non-terminal board the engine's
/// recorded cell achieves the position's value exactly, every Empty cell
/// earlier in row-major scan order scores strictly less, and no Empty cell
/// anywhere scores more — so among equally optimal cells the first one in
/// scan order is kept.
pub proof fn lemma_first_best_tie_break(b: Seq<BoardChar>, machine: BoardChar)
    requires
        b.len() == 9,
        machine != BoardChar::Empty,
        has_empty(b),
        !wins(b, machine),
        !wins(b, opposite(machine)),
    ensures
        best_choice(b, machine, 9).1 matches Some(k) ==> {
            &&& game_value(b.update(k, machine), opposite(machine), machine) == game_value(
                b,
                machine,
                machine,
            )
            &&& forall|j: int|
                0 <= j < k && b[j] == BoardChar::Empty ==> game_value(
                    b.update(j, machine),
                    opposite(machine),
                    machine,
                ) < game_value(b, machine, machine)
        },
{
    lemma_choice_tie_break(b, machine, 9);
    lemma_choice_value(b, machine, 9);
}

/// Optimality of the engine: on any non-terminal board, the value of the
/// selected move equals the game-theoretic value of the position with the
/// automated player to move, and no available move scores better — the
/// engine never settles for less than the best outcome it can force.
pub proof fn lemma_engine_optimality(b: Seq<BoardChar>, machine: BoardChar)
    requires
        b.len() == 9,
        machine != BoardChar::Empty,
        has_empty(b),
        !wins(b, machine),
        !wins(b, opposite(machine)),
    ensures
        best_choice(b, machine, 9).0 == game_value(b, machine, machine),
        best_choice(b, machine, 9).1 is Some,
        forall|k: int|
            0 <= k < 9 && b[k] == BoardChar::Empty ==> game_value(
                b.update(k, machine),
                opposite(machine),
                machine,
            ) <= game_value(b, machine, machine),
{
    lemma_choice_value(b, machine, 9);
    lemma_search_dominates(b, machine, 9);
}

impl TicTacToe {
    /// The minimax scorer: the value of the current position with `c` to
    /// move, from the automated player's point of view. The search mutates
    /// the board while exploring but restores it exactly before returning.
    pub fn minimax(&mut self, c: BoardChar) -> (v: i16)
        requires
            old(self).wf(),
            c == old(self).machine_char || c == old(self).player_char,
        ensures
            final(self).board@ == old(self).board@,
            final(self).player_char == old(self).player_char,
            final(self).machine_char == old(self).machine_char,
            v as int == game_value(old(self).board@, c, old(self).machine_char),
        decreases count_empty(old(self).board@),
    {
        proof {
            assert(opposite(old(self).machine_char) == old(self).player_char);
        }
        if self.machine_won() {
            return 1;
        }
        if self.player_won() {
            return -1;
        }
        if !self.has_moves() {
            return 0;
        }
        let mut best: i16 = if c == self.machine_char {
            -10
        } else {
            10
        };
        let mut k: usize = 0;
        while k < 9
            invariant
                k <= 9,
                self.wf(),
                self.board@ == old(self).board@,
                self.player_char == old(self).player_char,
                self.machine_char == old(self).machine_char,
                c == old(self).machine_char || c == old(self).player_char,
                best as int == search_value(old(self).board@, c, old(self).machine_char, k as int),
            decreases 9 - k,
        {
            if self.board[k] == BoardChar::Empty {
                let mover = c;
                self.board.set(k, mover);
                proof {
                    lemma_count_empty_update(old(self).board@, k as int, mover, 0);
                }
                let next = self.minimax(c.to_opposite());
                self.board.set(k, BoardChar::Empty);
                proof {
                    assert(self.board@ =~= old(self).board@);
                }
                if c == self.machine_char {
                    if next > best {
                        best = next;
                    }
                } else {
                    if next < best {
                        best = next;
                    }
                }
            }
            k += 1;
        }
        best
    }

    /// The engine's move selection: the first cell in row-major scan order
    /// whose minimax value is strictly better than every cell before it, or
    /// None when the board is full. The board is returned exactly as found.
    pub fn find_best_move(&mut self) -> (r: Option<Move>)
        requires
            old(self).wf(),
        ensures
            final(self).board@ == old(self).board@,
            final(self).player_char == old(self).player_char,
            final(self).machine_char == old(self).machine_char,
            match r {
                Some(m) => m.wf() && best_choice(old(self).board@, old(self).machine_char, 9).1
                    == Some(m.index()) && old(self).board@[m.index()] == BoardChar::Empty,
                None => best_choice(old(self).board@, old(self).machine_char, 9).1 is None,
            },
            (r is Some) <==> has_empty(old(self).board@),
    {
        proof {
            assert(opposite(old(self).machine_char) == old(self).player_char);
        }
        let mut best_val: i16 = -10;
        let mut best_move: Option<Move> = None;
        let mut i: usize = 0;
        while i < 3
            invariant
                i <= 3,
                self.wf(),
                self.board@ == old(self).board@,
                self.player_char == old(self).player_char,
                self.machine_char == old(self).machine_char,
                best_val as int == best_choice(
                    old(self).board@,
                    old(self).machine_char,
                    3 * i as int,
                ).0,
                match best_move {
                    Some(m) => m.wf() && best_choice(
                        old(self).board@,
                        old(self).machine_char,
                        3 * i as int,
                    ).1 == Some(m.index()),
                    None => best_choice(old(self).board@, old(self).machine_char, 3 * i as int).1
                        is None,
                },
            decreases 3 - i,
        {
            let mut j: usize = 0;
            while j < 3
                invariant
                    i < 3,
                    j <= 3,
                    self.wf(),
                    self.board@ == old(self).board@,
                    self.player_char == old(self).player_char,
                    self.machine_char == old(self).machine_char,
                    best_val as int == best_choice(
                        old(self).board@,
                        old(self).machine_char,
                        3 * i as int + j as int,
                    ).0,
                    match best_move {
                        Some(m) => m.wf() && best_choice(
                            old(self).board@,
                            old(self).machine_char,
                            3 * i as int + j as int,
                        ).1 == Some(m.index()),
                        None => best_choice(
                            old(self).board@,
                            old(self).machine_char,
                            3 * i as int + j as int,
                        ).1 is None,
                    },
                decreases 3 - j,
            {
                let k = 3 * i + j;
                if self.board[k] == BoardChar::Empty {
                    let mover = self.machine_char;
                    self.board.set(k, mover);
                    proof {
                        lemma_count_empty_update(old(self).board@, k as int, mover, 0);
                    }
                    let move_val = self.minimax(self.player_char);
                    self.board.set(k, BoardChar::Empty);
                    proof {
                        assert(self.board@ =~= old(self).board@);
                    }
                    if move_val > best_val {
                        best_move = Some(Move { row: i, col: j });
                        best_val = move_val;
                    }
                }
                j += 1;
            }
            i += 1;
        }
        proof {
            lemma_choice_value(old(self).board@, old(self).machine_char, 9);
        }
        best_move
    }

    /// The automated player's turn: select the optimal move, apply it to the
    /// board, and report it; on a full board there is no move to make.
    pub fn machine_move(&mut self) -> (r: Option<Move>)
        requires
            old(self).wf(),
        ensures
            final(self).wf(),
            final(self).player_char == old(self).player_char,
            final(self).machine_char == old(self).machine_char,
            match r {
                Some(m) => m.wf() && best_choice(old(self).board@, old(self).machine_char, 9).1
                    == Some(m.index()) && final(self).board@ == old(self).board@.update(
                    m.index(),
                    old(self).machine_char,
                ),
                None => final(self).board@ == old(self).board@,
            },
            (r is Some) <==> has_empty(old(self).board@),
    {
        if let Some(m) = self.find_best_move() {
            let c = self.machine_char;
            self.do_move(&m, c);
            return Some(m);
        }
        None
    }
}

} // verus!
