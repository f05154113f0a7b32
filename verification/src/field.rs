//! The Tic-tac-toe board: cell storage, line enumeration and win detection.

use vstd::prelude::*;

verus! {

/// Represents the players in a Tic-tac-toe game.
#[derive(Clone, Copy, PartialEq, Eq, Structural, Debug)]
pub enum Mark {
    X,
    O,
}

impl Mark {
    /// The opposite mark, as a mathematical value.
    pub open spec fn spec_opposite(self) -> Mark {
        match self {
            Mark::X => Mark::O,
            Mark::O => Mark::X,
        }
    }

    /// Returns the opposite mark.
    pub fn opposite(self) -> (r: Mark)
        ensures
            r == self.spec_opposite(),
    {
        match self {
            Mark::X => Mark::O,
            Mark::O => Mark::X,
        }
    }
}

/// Why a board access or placement was refused.
#[derive(Clone, Copy, PartialEq, Eq, Structural, Debug)]
pub enum FieldError {
    /// The requested row or column lies outside the 3x3 grid.
    InvalidCoordinate,
    /// The requested cell already holds a mark.
    CellOccupied,
}

/// The winner of a line of three cells: the mark that occupies all
/// three, if there is one.  Mixed or partially empty lines have none.
pub open spec fn line_winner(cells: Seq<Option<Mark>>) -> Option<Mark>
    recommends
        cells.len() == 3,
{
    if cells[0] is Some && cells[1] == cells[0] && cells[2] == cells[0] {
        cells[0]
    } else {
        None
    }
}

/// Represents a line of the Tic-tac-toe board. A line consists of three cells.
#[derive(Clone, Copy, Debug)]
pub struct PlayLine {
    pub cells: [Option<Mark>; 3],
}

impl PlayLine {
    /// Determines if this line counts as a win. Returns the winner wrapped in an
    /// Option, with None meaning that this line is not a winning one.
    pub fn is_win(&self) -> (r: Option<Mark>)
        ensures
            r == line_winner(self.cells@),
    {
        let mut xs: u32 = 0;
        let mut os: u32 = 0;
        let mut i: usize = 0;
        while i < 3
            invariant
                i <= 3,
                xs == mark_count(self.cells@.take(i as int), Mark::X),
                os == mark_count(self.cells@.take(i as int), Mark::O),
            decreases 3 - i,
        {
            proof {
                assert(self.cells@.take(i + 1).drop_last() =~= self.cells@.take(i as int));
                lemma_mark_count_bounds(self.cells@.take(i as int), Mark::X);
                lemma_mark_count_bounds(self.cells@.take(i as int), Mark::O);
            }
            match self.cells[i] {
                Some(Mark::X) => { xs = xs + 1; },
                Some(Mark::O) => { os = os + 1; },
                None => {},
            }
            i = i + 1;
        }
        proof {
            assert(self.cells@.take(3) =~= self.cells@);
            lemma_three_of_a_mark(self.cells@, Mark::X);
            lemma_three_of_a_mark(self.cells@, Mark::O);
            if line_winner(self.cells@) is Some {
                let w = self.cells@[0]->0;
                if w == Mark::X {
                    assert(mark_count(self.cells@, Mark::X) == 3);
                } else {
                    assert(mark_count(self.cells@, Mark::O) == 3);
                }
            }
        }
        if xs == 3 {
            Some(Mark::X)
        } else if os == 3 {
            Some(Mark::O)
        } else {
            None
        }
    }
}

/// How many cells of `cells` hold the mark `m`.
pub open spec fn mark_count(cells: Seq<Option<Mark>>, m: Mark) -> int
    decreases cells.len(),
{
    if cells.len() == 0 {
        0
    } else {
        mark_count(cells.drop_last(), m) + if cells.last() == Some(m) {
            1int
        } else {
            0int
        }
    }
}

/// A mark occurs between zero times and once per cell.
proof fn lemma_mark_count_bounds(cells: Seq<Option<Mark>>, m: Mark)
    ensures
        0 <= mark_count(cells, m) <= cells.len(),
    decreases cells.len(),
{
    if cells.len() > 0 {
        lemma_mark_count_bounds(cells.drop_last(), m);
    }
}

/// In a line of three cells, a mark occurs three times exactly when it
/// occupies every cell.
proof fn lemma_three_of_a_mark(cells: Seq<Option<Mark>>, m: Mark)
    requires
        cells.len() == 3,
    ensures
        mark_count(cells, m) == 3 <==> (cells[0] == Some(m) && cells[1] == Some(m) && cells[2]
            == Some(m)),
{
    let d1 = cells.drop_last();
    let d2 = d1.drop_last();
    let d3 = d2.drop_last();
    assert(d3 =~= Seq::<Option<Mark>>::empty());
    assert(mark_count(d3, m) == 0);
    assert(d2.last() == cells[0]);
    assert(d1.last() == cells[1]);
    assert(cells.last() == cells[2]);
    assert(mark_count(d2, m) == if cells[0] == Some(m) {
        1int
    } else {
        0int
    });
    assert(mark_count(d1, m) == mark_count(d2, m) + if cells[1] == Some(m) {
        1int
    } else {
        0int
    });
    assert(mark_count(cells, m) == mark_count(d1, m) + if cells[2] == Some(m) {
        1int
    } else {
        0int
    });
}

/// Whether (row, col) addresses one of the nine cells.
pub open spec fn valid_cell(row: int, col: int) -> bool {
    0 <= row < 3 && 0 <= col < 3
}

/// The flat, row-major index of the cell at (row, col).
pub open spec fn cell_index(row: int, col: int) -> int {
    row * 3 + col
}

/// How many cells of a board are occupied.
pub open spec fn count_occupied(cells: Seq<Option<Mark>>) -> int
    decreases cells.len(),
{
    if cells.len() == 0 {
        0
    } else {
        count_occupied(cells.drop_last()) + if cells.last() is Some {
            1int
        } else {
            0int
        }
    }
}

/// Placing a mark on an empty cell raises the occupied count by exactly
/// one; so after N placements on an initially empty board the count is N.
pub proof fn lemma_place_increments_count(cells: Seq<Option<Mark>>, ix: int, m: Mark)
    requires
        0 <= ix < cells.len(),
        cells[ix] is None,
    ensures
        count_occupied(cells.update(ix, Some(m))) == count_occupied(cells) + 1,
    decreases cells.len(),
{
    let upd = cells.update(ix, Some(m));
    if ix == cells.len() - 1 {
        assert(upd.drop_last() =~= cells.drop_last());
    } else {
        assert(upd.drop_last() =~= cells.drop_last().update(ix, Some(m)));
        lemma_place_increments_count(cells.drop_last(), ix, m);
    }
}

/// What `PlayField::set` decides and what the board holds afterwards.
pub open spec fn spec_set(cells: Seq<Option<Mark>>, row: int, col: int, mark: Mark) -> (Result<
    (),
    FieldError,
>, Seq<Option<Mark>>)
    recommends
        cells.len() == 9,
{
    if !valid_cell(row, col) {
        (Err(FieldError::InvalidCoordinate), cells)
    } else if cells[cell_index(row, col)] is Some {
        (Err(FieldError::CellOccupied), cells)
    } else {
        (Ok(()), cells.update(cell_index(row, col), Some(mark)))
    }
}

/// On an unoccupied cell, `set` succeeds once and then fails: the first
/// placement fills the cell, a second placement on the same cell is
/// refused with `CellOccupied`, and the cell keeps the first mark.
pub proof fn lemma_set_twice_same_cell(
    cells: Seq<Option<Mark>>,
    row: int,
    col: int,
    m1: Mark,
    m2: Mark,
)
    requires
        cells.len() == 9,
        valid_cell(row, col),
        cells[cell_index(row, col)] is None,
    ensures
        ({
            let (r1, b1) = spec_set(cells, row, col, m1);
            let (r2, b2) = spec_set(b1, row, col, m2);
            &&& r1 == Ok::<(), FieldError>(())
            &&& r2 == Err::<(), FieldError>(FieldError::CellOccupied)
            &&& b2 == b1
            &&& b2[cell_index(row, col)] == Some(m1)
        }),
{
}

/// Stores the board data associated with a game of Tic-tac-toe.
#[derive(Debug)]
pub struct PlayField {
    cells: Vec<Option<Mark>>,
}

impl View for PlayField {
    type V = Seq<Option<Mark>>;

    closed spec fn view(&self) -> Seq<Option<Mark>> {
        self.cells@
    }
}

impl PlayField {
    /// A board always holds exactly nine cells.
    pub open spec fn wf(&self) -> bool {
        self@.len() == 9
    }

    /// Builds a board with all nine cells empty.
    pub fn new() -> (r: PlayField)
        ensures
            r.wf(),
            forall|i: int| 0 <= i < 9 ==> r@[i] is None,
    {
        let mut cells: Vec<Option<Mark>> = Vec::new();
        let mut i: usize = 0;
        while i < 9
            invariant
                i <= 9,
                cells@.len() == i,
                forall|j: int| 0 <= j < i ==> cells@[j] is None,
            decreases 9 - i,
        {
            cells.push(None);
            i = i + 1;
        }
        PlayField { cells }
    }

    /// Maps board coordinates to the flat cell index: `Some(y * 3 + x)`
    /// when both coordinates lie in the grid, `None` otherwise.
    pub fn map_xy(x: usize, y: usize) -> (r: Option<usize>)
        ensures
            x < 3 && y < 3 ==> r == Some((cell_index(y as int, x as int)) as usize),
            !(x < 3 && y < 3) ==> r is None,
    {
        if x < 3 && y < 3 {
            Some(y * 3 + x)
        } else {
            None
        }
    }

    /// Reads the cell in column `x` and row `y`.  An out-of-grid
    /// coordinate is refused with `InvalidCoordinate`; an empty cell in
    /// the grid reads as `Ok(None)`.
    pub fn get_cell_xy(&self, x: usize, y: usize) -> (r: Result<Option<Mark>, FieldError>)
        requires
            self.wf(),
        ensures
            valid_cell(y as int, x as int) ==> r == Ok::<_, FieldError>(
                self@[cell_index(y as int, x as int)],
            ),
            !valid_cell(y as int, x as int) ==> r == Err::<Option<Mark>, _>(
                FieldError::InvalidCoordinate,
            ),
    {
        match Self::map_xy(x, y) {
            Some(ix) => Ok(self.cells[ix]),
            None => Err(FieldError::InvalidCoordinate),
        }
    }

    /// Places `mark` at (row, col).  Fails with `InvalidCoordinate` if
    /// the coordinates lie outside the grid and with `CellOccupied` if
    /// the cell already holds a mark; on success exactly that one cell
    /// changes.
    pub fn set(&mut self, row: usize, col: usize, mark: Mark) -> (r: Result<(), FieldError>)
        requires
            old(self).wf(),
        ensures
            final(self).wf(),
            ({
                let (res, cells) = spec_set(old(self)@, row as int, col as int, mark);
                r == res && final(self)@ == cells
            }),
    {
        match Self::map_xy(col, row) {
            Some(ix) => {
                if self.cells[ix].is_some() {
                    Err(FieldError::CellOccupied)
                } else {
                    self.cells[ix] = Some(mark);
                    Ok(())
                }
            },
            None => Err(FieldError::InvalidCoordinate),
        }
    }

    /// Hands out the cell in column `x` and row `y` for writing, or
    /// `None` if the coordinates lie outside the grid.  The board
    /// afterwards holds whatever the caller leaves in the cell.
    pub fn get_mut_cell_xy(&mut self, x: usize, y: usize) -> (r: Option<&mut Option<Mark>>)
        requires
            old(self).wf(),
        ensures
            final(self).wf(),
            valid_cell(y as int, x as int) ==> (r matches Some(cell) && *cell == old(
                self,
            )@[cell_index(y as int, x as int)] && final(self)@ == old(self)@.update(
                cell_index(y as int, x as int),
                *final(cell),
            )),
            !valid_cell(y as int, x as int) ==> r is None && final(self)@ == old(self)@,
    {
        match Self::map_xy(x, y) {
            Some(ix) => Some(&mut self.cells[ix]),
            None => None,
        }
    }

    /// Returns the number of occupied cells.
    pub fn occupied_count(&self) -> (r: i64)
        requires
            self.wf(),
        ensures
            r == count_occupied(self@),
            0 <= r <= 9,
    {
        let mut count: i64 = 0;
        let mut i: usize = 0;
        while i < 9
            invariant
                self.wf(),
                i <= 9,
                count == count_occupied(self@.take(i as int)),
                0 <= count <= i,
            decreases 9 - i,
        {
            proof {
                assert(self@.take(i + 1).drop_last() =~= self@.take(i as int));
            }
            if self.cells[i].is_some() {
                count = count + 1;
            }
            i = i + 1;
        }
        proof {
            assert(self@.take(9) =~= self@);
        }
        count
    }
}

/// The three cells of the `i`-th of the eight winning lines of a board,
/// in the fixed enumeration order: row 0, row 1, row 2, column 0,
/// column 1, column 2, the left-to-right diagonal, the right-to-left
/// diagonal.
pub open spec fn line_cells(b: Seq<Option<Mark>>, i: int) -> Seq<Option<Mark>>
    recommends
        b.len() == 9,
        0 <= i < 8,
{
    if 0 <= i < 3 {
        seq![b[3 * i], b[3 * i + 1], b[3 * i + 2]]
    } else if 3 <= i < 6 {
        let c = i - 3;
        seq![b[c], b[c + 3], b[c + 6]]
    } else if i == 6 {
        seq![b[0], b[4], b[8]]
    } else {
        seq![b[2], b[4], b[6]]
    }
}

/// All eight winning lines of a board, in enumeration order.
pub open spec fn all_lines(b: Seq<Option<Mark>>) -> Seq<Seq<Option<Mark>>> {
    Seq::new(8, |i: int| line_cells(b, i))
}

/// A board always has exactly eight winning lines of three cells each,
/// determined by the board contents alone; enumerating them twice
/// yields the same lines in the same order.
pub proof fn lemma_eight_lines(b: Seq<Option<Mark>>)
    requires
        b.len() == 9,
    ensures
        all_lines(b).len() == 8,
        forall|i: int| 0 <= i < 8 ==> (#[trigger] all_lines(b)[i]).len() == 3,
        forall|i: int| 0 <= i < 8 ==> #[trigger] all_lines(b)[i] == line_cells(b, i),
{
}

impl PlayField {
    fn horizontal_line(&self, row: usize) -> (r: Option<PlayLine>)
        requires
            self.wf(),
        ensures
            row < 3 ==> (r matches Some(l) && l.cells@ == line_cells(self@, row as int)),
            row >= 3 ==> r is None,
    {
        match Self::map_xy(0, row) {
            Some(ix) => {
                let l = PlayLine { cells: [self.cells[ix], self.cells[ix + 1], self.cells[ix + 2]] };
                proof {
                    assert(l.cells@ =~= line_cells(self@, row as int));
                }
                Some(l)
            },
            None => None,
        }
    }

    fn vertical_line(&self, col: usize) -> (r: Option<PlayLine>)
        requires
            self.wf(),
        ensures
            col < 3 ==> (r matches Some(l) && l.cells@ == line_cells(self@, col + 3)),
            col >= 3 ==> r is None,
    {
        match Self::map_xy(col, 0) {
            Some(ix) => {
                let l = PlayLine { cells: [self.cells[ix], self.cells[ix + 3], self.cells[ix + 6]] };
                proof {
                    assert(l.cells@ =~= line_cells(self@, col + 3));
                }
                Some(l)
            },
            None => None,
        }
    }

    fn ltr_diagonal_line(&self) -> (r: PlayLine)
        requires
            self.wf(),
        ensures
            r.cells@ == line_cells(self@, 6),
    {
        let l = PlayLine { cells: [self.cells[0], self.cells[4], self.cells[8]] };
        proof {
            assert(l.cells@ =~= line_cells(self@, 6));
        }
        l
    }

    fn rtl_diagonal_line(&self) -> (r: PlayLine)
        requires
            self.wf(),
        ensures
            r.cells@ == line_cells(self@, 7),
    {
        let l = PlayLine { cells: [self.cells[2], self.cells[4], self.cells[6]] };
        proof {
            assert(l.cells@ =~= line_cells(self@, 7));
        }
        l
    }

    /// Returns an iterator over the `PlayLine`s in this field.
    pub fn lines<'a>(&'a self) -> (r: LineIterator<'a>)
        requires
            self.wf(),
        ensures
            r.wf(),
            r.board() == self@,
            r.pos() == 0,
    {
        LineIterator::from_field(self)
    }
}

enum LineIteratorState {
    Row(usize),
    Column(usize),
    LtrDiagonal,
    RtlDiagonal,
    Finished,
}

impl LineIteratorState {
    spec fn inv(self) -> bool {
        match self {
            LineIteratorState::Row(place) => place < 3,
            LineIteratorState::Column(place) => place < 3,
            _ => true,
        }
    }

    /// Which line this state yields next, counting the eight lines in
    /// enumeration order; 8 means the iterator is exhausted.
    spec fn line_index(self) -> int {
        match self {
            LineIteratorState::Row(place) => place as int,
            LineIteratorState::Column(place) => place + 3,
            LineIteratorState::LtrDiagonal => 6,
            LineIteratorState::RtlDiagonal => 7,
            LineIteratorState::Finished => 8,
        }
    }
}

/// Enumerates the eight winning lines of a board, in the fixed order:
/// rows, then columns, then the two diagonals.
pub struct LineIterator<'a> {
    field: &'a PlayField,
    state: LineIteratorState,
}

impl<'a> LineIterator<'a> {
    /// The board whose lines are enumerated.
    pub closed spec fn board(&self) -> Seq<Option<Mark>> {
        self.field@
    }

    /// How many lines have been yielded so far.
    pub closed spec fn pos(&self) -> int {
        self.state.line_index()
    }

    pub closed spec fn wf(&self) -> bool {
        self.field.wf() && self.state.inv()
    }

    fn from_field(f: &'a PlayField) -> (r: LineIterator<'a>)
        requires
            f.wf(),
        ensures
            r.wf(),
            r.board() == f@,
            r.pos() == 0,
    {
        LineIterator { field: f, state: LineIteratorState::Row(0) }
    }

    /// Yields the next line, or `None` once all eight lines have been
    /// yielded.
    pub fn next(&mut self) -> (r: Option<PlayLine>)
        requires
            old(self).wf(),
        ensures
            final(self).wf(),
            final(self).board() == old(self).board(),
            old(self).pos() < 8 ==> ({
                &&& r matches Some(l) && l.cells@ == line_cells(old(self).board(), old(self).pos())
                &&& final(self).pos() == old(self).pos() + 1
            }),
            old(self).pos() == 8 ==> r is None && final(self).pos() == 8,
    {
        match self.state {
            LineIteratorState::Row(place) => {
                self.state = if place + 1 < 3 {
                    LineIteratorState::Row(place + 1)
                } else {
                    LineIteratorState::Column(0)
                };
                self.field.horizontal_line(place)
            },
            LineIteratorState::Column(place) => {
                self.state = if place + 1 < 3 {
                    LineIteratorState::Column(place + 1)
                } else {
                    LineIteratorState::LtrDiagonal
                };
                self.field.vertical_line(place)
            },
            LineIteratorState::LtrDiagonal => {
                self.state = LineIteratorState::RtlDiagonal;
                Some(self.field.ltr_diagonal_line())
            },
            LineIteratorState::RtlDiagonal => {
                self.state = LineIteratorState::Finished;
                Some(self.field.rtl_diagonal_line())
            },
            LineIteratorState::Finished => None,
        }
    }
}

/// A line wins for a mark exactly when all three of its cells hold that
/// mark; in particular a mixed or partially empty line has no winner.
pub proof fn lemma_line_win_iff(cells: Seq<Option<Mark>>, m: Mark)
    requires
        cells.len() == 3,
    ensures
        line_winner(cells) == Some(m) <==> (cells[0] == Some(m) && cells[1] == Some(m) && cells[2]
            == Some(m)),
        line_winner(cells) is None <==> !(exists|w: Mark|
            cells[0] == Some(w) && cells[1] == Some(w) && cells[2] == Some(w)),
{
    if cells[0] is Some && cells[1] == cells[0] && cells[2] == cells[0] {
        let w = cells[0]->0;
        assert(cells[0] == Some(w) && cells[1] == Some(w) && cells[2] == Some(w));
    }
}

} // verus!
