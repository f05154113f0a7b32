//! The game controller: turn tracking, click handling and the
//! win/draw state machine.

use vstd::prelude::*;

use crate::area::{coord_in_range, FieldArea};
use crate::field::{
    cell_index, count_occupied, line_cells, line_winner, spec_set, valid_cell, Mark, PlayField,
};

verus! {

/// Represents the winner in a game of Tic-tac-toe.
#[derive(Clone, Copy, PartialEq, Eq, Structural, Debug)]
pub enum WinState {
    Win(Mark),
    Draw,
    Neither,
}

/// The mouse button reported with a click; only `Left` attempts a
/// placement.
#[derive(Clone, Copy, PartialEq, Eq, Structural, Debug)]
pub enum MouseButton {
    Unknown,
    Left,
    Middle,
    Right,
    X1,
    X2,
}

/// What a click accomplished.  The two refusals are surfaced by the
/// caller as diagnostic messages; neither changes the board.
#[derive(Clone, Copy, PartialEq, Eq, Structural, Debug)]
pub enum ClickOutcome {
    /// A mark was placed and the turn passed to the other player.
    Placed,
    /// The click fell outside the board area.
    OutOfBounds,
    /// The addressed cell already holds a mark.
    SpaceOccupied,
    /// Not the primary button, so no placement was attempted.
    Ignored,
}

/// The winner of the first winning line with index at least `i`, in
/// enumeration order, if any line from there on wins.
pub open spec fn first_winning_line_from(b: Seq<Option<Mark>>, i: int) -> Option<Mark>
    decreases 8 - i,
{
    if i >= 8 {
        None
    } else if line_winner(line_cells(b, i)) is Some {
        line_winner(line_cells(b, i))
    } else {
        first_winning_line_from(b, i + 1)
    }
}

/// The winner of the first winning line of the board, if any line wins.
pub open spec fn board_winner(b: Seq<Option<Mark>>) -> Option<Mark> {
    first_winning_line_from(b, 0)
}

/// The outcome that a board derives: a win if some line wins, a draw if
/// all nine cells are occupied with no winning line, and otherwise a
/// game still in progress.
pub open spec fn spec_outcome(b: Seq<Option<Mark>>) -> WinState {
    match board_winner(b) {
        Some(m) => WinState::Win(m),
        None => if count_occupied(b) == 9 {
            WinState::Draw
        } else {
            WinState::Neither
        },
    }
}

/// The outcome is a draw exactly when all nine cells are occupied and
/// no line has a winner.
pub proof fn lemma_draw_iff_full_without_winner(b: Seq<Option<Mark>>)
    ensures
        spec_outcome(b) == WinState::Draw <==> (board_winner(b) is None && count_occupied(b) == 9),
{
}

/// A board with all nine cells empty.
pub open spec fn empty_board() -> Seq<Option<Mark>> {
    Seq::new(9, |i: int| None)
}

/// An empty board derives no outcome: no line wins and no cell is
/// occupied.
pub proof fn lemma_empty_board_outcome(b: Seq<Option<Mark>>)
    requires
        b.len() == 9,
        forall|i: int| 0 <= i < 9 ==> b[i] is None,
    ensures
        spec_outcome(b) == WinState::Neither,
{
    assert forall|i: int| 0 <= i < 8 implies line_winner(line_cells(b, i)) is None by {
        assert(line_cells(b, i)[0] is None);
    }
    lemma_no_winning_line_from(b, 0);
    lemma_count_occupied_all_empty(b);
}

/// If no line from `i` on wins, the search finds no winner.
proof fn lemma_no_winning_line_from(b: Seq<Option<Mark>>, i: int)
    requires
        0 <= i <= 8,
        forall|j: int| i <= j < 8 ==> line_winner(#[trigger] line_cells(b, j)) is None,
    ensures
        first_winning_line_from(b, i) is None,
    decreases 8 - i,
{
    if i < 8 {
        lemma_no_winning_line_from(b, i + 1);
    }
}

/// A board with no marks has an occupied count of zero.
proof fn lemma_count_occupied_all_empty(b: Seq<Option<Mark>>)
    requires
        forall|i: int| 0 <= i < b.len() ==> b[i] is None,
    ensures
        count_occupied(b) == 0,
    decreases b.len(),
{
    if b.len() > 0 {
        lemma_count_occupied_all_empty(b.drop_last());
    }
}

/// A mathematical snapshot of the controller: the board cells, whose
/// turn it is, the current outcome, and the screen area.
#[verifier::ext_equal]
pub struct PlayModel {
    pub cells: Seq<Option<Mark>>,
    pub turn: Mark,
    pub winner: WinState,
    pub area: FieldArea,
}

/// The state a click starts from: if the previous game ended, the board
/// is cleared, the outcome forgotten, and the first player starts
/// again.
pub open spec fn spec_reset_if_over(s: PlayModel) -> PlayModel {
    if s.winner is Neither {
        s
    } else {
        PlayModel { cells: empty_board(), turn: Mark::X, winner: WinState::Neither, area: s.area }
    }
}

/// What one click does to the controller, and what it reports: reset a
/// finished game first; then, for a left click only, place the current
/// player's mark on the addressed empty cell and pass the turn, or
/// report why no mark was placed; finally derive the outcome afresh
/// from the board.
pub open spec fn spec_click(s: PlayModel, button: MouseButton, x: int, y: int) -> (PlayModel,
    ClickOutcome) {
    let t = spec_reset_if_over(s);
    if button != MouseButton::Left {
        (PlayModel { winner: spec_outcome(t.cells), ..t }, ClickOutcome::Ignored)
    } else {
        match t.area.spec_unproject(x, y) {
            None => (PlayModel { winner: spec_outcome(t.cells), ..t }, ClickOutcome::OutOfBounds),
            Some(rc) => {
                let ix = cell_index(rc.0, rc.1);
                if t.cells[ix] is Some {
                    (
                        PlayModel { winner: spec_outcome(t.cells), ..t },
                        ClickOutcome::SpaceOccupied,
                    )
                } else {
                    let placed = t.cells.update(ix, Some(t.turn));
                    (
                        PlayModel {
                            cells: placed,
                            turn: t.turn.spec_opposite(),
                            winner: spec_outcome(placed),
                            area: t.area,
                        },
                        ClickOutcome::Placed,
                    )
                }
            },
        }
    }
}

/// The game controller: owns the board, the screen area it is drawn
/// in, the player whose turn it is, and the current outcome.
pub struct PlayState {
    field: PlayField,
    area: FieldArea,
    turn: Mark,
    winner: WinState,
}

impl View for PlayState {
    type V = PlayModel;

    closed spec fn view(&self) -> PlayModel {
        PlayModel { cells: self.field@, turn: self.turn, winner: self.winner, area: self.area }
    }
}

impl PlayState {
    /// A usable controller: nine cells, a usable screen area, and a
    /// stored outcome that is exactly what the board derives, so the
    /// two can never drift apart.
    pub open spec fn wf(&self) -> bool {
        &&& self@.cells.len() == 9
        &&& self@.area.wf()
        &&& self@.winner == spec_outcome(self@.cells)
    }

    /// Builds a controller for a fresh game: an empty board, player X
    /// to move, no outcome yet, and the standard board area.
    pub fn new() -> (r: PlayState)
        ensures
            r.wf(),
            r@.cells == empty_board(),
            r@.turn == Mark::X,
            r@.winner == WinState::Neither,
            r@.area == (FieldArea { x: 100, y: 0, w: 600, h: 600 }),
    {
        let field = PlayField::new();
        let area = FieldArea::from_rect(100, 0, 600, 600);
        let r = PlayState { field, area, turn: Mark::X, winner: WinState::Neither };
        proof {
            assert(r@.cells =~= empty_board());
            lemma_empty_board_outcome(r@.cells);
        }
        r
    }

    /// Read-only access to the board, for the renderer.
    pub fn field(&self) -> (r: &PlayField)
        ensures
            r@ == self@.cells,
    {
        &self.field
    }

    /// Read-only access to the screen area, for the renderer.
    pub fn area(&self) -> (r: FieldArea)
        ensures
            r == self@.area,
    {
        self.area
    }

    /// The player whose turn it is.
    pub fn turn(&self) -> (r: Mark)
        ensures
            r == self@.turn,
    {
        self.turn
    }

    /// The current outcome of the game.
    pub fn winner(&self) -> (r: WinState)
        ensures
            r == self@.winner,
    {
        self.winner
    }

    /// Derives the outcome from the board: walks the eight lines in
    /// enumeration order and reports the first winner found, a draw on
    /// a full board, and otherwise a game still in progress.
    fn check_winner(&self) -> (r: WinState)
        requires
            self@.cells.len() == 9,
        ensures
            r == spec_outcome(self@.cells),
    {
        let ghost b = self.field@;
        let mut it = self.field.lines();
        let mut i: usize = 0;
        while i < 8
            invariant
                self@.cells.len() == 9,
                b == self.field@,
                it.wf(),
                it.board() == b,
                it.pos() == i,
                i <= 8,
                first_winning_line_from(b, 0) == first_winning_line_from(b, i as int),
            decreases 8 - i,
        {
            match it.next() {
                Some(line) => {
                    match line.is_win() {
                        Some(mark) => {
                            proof {
                                assert(first_winning_line_from(b, i as int) == Some(mark));
                            }
                            return WinState::Win(mark);
                        },
                        None => {},
                    }
                },
                None => {},
            }
            i = i + 1;
        }
        if self.field.occupied_count() == 9 {
            WinState::Draw
        } else {
            WinState::Neither
        }
    }

    /// Handles one mouse-down event at screen coordinates (x, y),
    /// exactly as `spec_click` states: a finished game is reset before
    /// anything else; a left click places the current player's mark if
    /// it addresses an empty cell of the board; and the stored outcome
    /// is recomputed from the board.  The returned `ClickOutcome` says
    /// what happened, for the caller's diagnostics; a transition into
    /// `Win` or `Draw` is visible through `winner()` afterwards.
    pub fn on_mouse_down(&mut self, button: MouseButton, x: i64, y: i64) -> (r: ClickOutcome)
        requires
            old(self).wf(),
            coord_in_range(x as int),
            coord_in_range(y as int),
        ensures
            final(self).wf(),
            ({
                let (s2, outcome) = spec_click(old(self)@, button, x as int, y as int);
                final(self)@ == s2 && r == outcome
            }),
    {
        let ghost t = spec_reset_if_over(old(self)@);
        match self.winner {
            WinState::Neither => {},
            _ => {
                self.field = PlayField::new();
                self.winner = WinState::Neither;
                self.turn = Mark::X;
            },
        }
        proof {
            if old(self)@.winner !is Neither {
                assert(self.field@ =~= empty_board());
            }
            assert(self@ =~= t);
        }
        let outcome: ClickOutcome;
        if button == MouseButton::Left {
            match self.area.unproject(x, y) {
                Some((row, col)) => {
                    match self.field.set(row as usize, col as usize, self.turn) {
                        Ok(()) => {
                            self.turn = self.turn.opposite();
                            outcome = ClickOutcome::Placed;
                        },
                        Err(_) => {
                            outcome = ClickOutcome::SpaceOccupied;
                        },
                    }
                },
                None => {
                    outcome = ClickOutcome::OutOfBounds;
                },
            }
        } else {
            outcome = ClickOutcome::Ignored;
        }
        let w = self.check_winner();
        self.winner = w;
        proof {
            assert(self@ =~= spec_click(old(self)@, button, x as int, y as int).0);
        }
        outcome
    }
}

} // verus!
