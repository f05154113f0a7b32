//! The on-screen rectangle that the board is drawn in, and the
//! pixel-coordinate to (row, col) projection arithmetic.

use vstd::prelude::*;

verus! {

/// Represents an on-screen area where a Tic-tac-toe board can be interacted
/// with.
#[derive(Clone, Copy, PartialEq, Eq, Structural, Debug)]
pub struct FieldArea {
    pub x: i64,
    pub y: i64,
    pub w: i64,
    pub h: i64,
}

impl FieldArea {
    /// A usable area: the origin and extent come from a window rectangle
    /// (32-bit coordinates), and the extent is large enough that a cell
    /// spans at least one pixel in each direction.
    pub open spec fn wf(self) -> bool {
        &&& -0x8000_0000 <= self.x < 0x8000_0000
        &&& -0x8000_0000 <= self.y < 0x8000_0000
        &&& 3 <= self.w <= 0xffff_ffff
        &&& 3 <= self.h <= 0xffff_ffff
    }

    /// Builds an area from the components of a window rectangle.
    pub fn from_rect(x: i32, y: i32, w: u32, h: u32) -> (r: FieldArea)
        ensures
            r == (FieldArea { x: x as i64, y: y as i64, w: w as i64, h: h as i64 }),
            w >= 3 && h >= 3 ==> r.wf(),
    {
        FieldArea { x: x as i64, y: y as i64, w: w as i64, h: h as i64 }
    }

    /// The width of an individual cell, as a mathematical value.
    pub open spec fn spec_cell_width(self) -> int {
        self.w / 3
    }

    /// The height of an individual cell, as a mathematical value.
    pub open spec fn spec_cell_height(self) -> int {
        self.h / 3
    }

    /// Returns the width of an individual cell.
    pub fn cell_width(&self) -> (r: i64)
        requires
            self.wf(),
        ensures
            r == self.spec_cell_width(),
            1 <= r,
    {
        self.w / 3
    }

    /// Returns the height of an individual cell.
    pub fn cell_height(&self) -> (r: i64)
        requires
            self.wf(),
        ensures
            r == self.spec_cell_height(),
            1 <= r,
    {
        self.h / 3
    }
    /// The row at on-screen Y-coordinate `y`, as a mathematical value:
    /// the truncating quotient of the offset from the area's origin by
    /// the cell height, if `y` lies at or below the origin and the
    /// quotient is a valid row.
    pub open spec fn spec_unproject_row(self, y: int) -> Option<int> {
        if y >= self.y && (y - self.y) / self.spec_cell_height() <= 2 {
            Some((y - self.y) / self.spec_cell_height())
        } else {
            None
        }
    }

    /// The column at on-screen X-coordinate `x`, as a mathematical value.
    pub open spec fn spec_unproject_col(self, x: int) -> Option<int> {
        if x >= self.x && (x - self.x) / self.spec_cell_width() <= 2 {
            Some((x - self.x) / self.spec_cell_width())
        } else {
            None
        }
    }

    /// The (row, col) cell at the on-screen point (x, y): both
    /// coordinates must resolve, or the point is rejected outright.
    pub open spec fn spec_unproject(self, x: int, y: int) -> Option<(int, int)> {
        match (self.spec_unproject_row(y), self.spec_unproject_col(x)) {
            (Some(row), Some(col)) => Some((row, col)),
            _ => None,
        }
    }

    /// The on-screen point at the top-left corner of the cell at
    /// (row, col).
    pub open spec fn spec_project(self, row: int, col: int) -> (int, int) {
        (self.x + col * self.spec_cell_width(), self.y + row * self.spec_cell_height())
    }

    /// Computes the row at a given on-screen Y-coordinate.
    pub fn unproject_row(&self, y: i64) -> (r: Option<i64>)
        requires
            self.wf(),
            coord_in_range(y as int),
        ensures
            r is Some <==> self.spec_unproject_row(y as int) is Some,
            (r matches Some(row) ==> self.spec_unproject_row(y as int) == Some(row as int)),
            (r matches Some(row) ==> 0 <= row <= 2),
    {
        if y >= self.y {
            let ix = (y - self.y) / self.cell_height();
            if ix > 2 {
                None
            } else {
                Some(ix)
            }
        } else {
            None
        }
    }

    /// Computes the column at a given on-screen X-coordinate.
    pub fn unproject_col(&self, x: i64) -> (r: Option<i64>)
        requires
            self.wf(),
            coord_in_range(x as int),
        ensures
            r is Some <==> self.spec_unproject_col(x as int) is Some,
            (r matches Some(col) ==> self.spec_unproject_col(x as int) == Some(col as int)),
            (r matches Some(col) ==> 0 <= col <= 2),
    {
        if x >= self.x {
            let ix = (x - self.x) / self.cell_width();
            if ix > 2 {
                None
            } else {
                Some(ix)
            }
        } else {
            None
        }
    }

    /// Computes the row and column given on-screen X and Y coordinates.
    /// A click that resolves in one axis but not the other is rejected
    /// entirely.
    pub fn unproject(&self, x: i64, y: i64) -> (r: Option<(i64, i64)>)
        requires
            self.wf(),
            coord_in_range(x as int),
            coord_in_range(y as int),
        ensures
            r is Some <==> self.spec_unproject(x as int, y as int) is Some,
            (r matches Some(rc) ==> self.spec_unproject(x as int, y as int) == Some(
                (rc.0 as int, rc.1 as int),
            )),
            (r matches Some(rc) ==> 0 <= rc.0 <= 2 && 0 <= rc.1 <= 2),
    {
        let row = match self.unproject_row(y) {
            Some(row) => row,
            None => {
                return None;
            },
        };
        let col = match self.unproject_col(x) {
            Some(col) => col,
            None => {
                return None;
            },
        };
        Some((row, col))
    }

    /// Computes the on-screen X and Y coordinates of the top-left corner
    /// of the cell at the given row and column.
    pub fn project(&self, row: i64, col: i64) -> (r: (i64, i64))
        requires
            self.wf(),
            0 <= row <= 2,
            0 <= col <= 2,
        ensures
            (r.0 as int, r.1 as int) == self.spec_project(row as int, col as int),
    {
        proof {
            lemma_small_multiple_bounds(col as int, self.spec_cell_width());
            lemma_small_multiple_bounds(row as int, self.spec_cell_height());
        }
        let x = self.x + col * self.cell_width();
        let y = self.y + row * self.cell_height();
        (x, y)
    }
}

/// Whether a value fits a 32-bit screen coordinate.
pub open spec fn coord_in_range(v: int) -> bool {
    -0x8000_0000 <= v < 0x8000_0000
}

/// A row or column multiplied by a cell extent stays between zero and
/// three extents.
proof fn lemma_small_multiple_bounds(k: int, sz: int)
    requires
        0 <= k <= 2,
        0 <= sz,
    ensures
        0 <= k * sz <= 2 * sz,
{
    assert(0 <= k * sz <= 2 * sz) by (nonlinear_arith)
        requires
            0 <= k <= 2,
            0 <= sz,
    ;
}

/// Projecting a cell and unprojecting the resulting corner point leads
/// back to the same cell: for every valid row and column, `unproject`
/// of `project` of (row, col) is exactly (row, col).
pub proof fn lemma_project_unproject_round_trip(area: FieldArea, row: int, col: int)
    requires
        area.wf(),
        0 <= row <= 2,
        0 <= col <= 2,
    ensures
        ({
            let (px, py) = area.spec_project(row, col);
            area.spec_unproject(px, py) == Some((row, col))
        }),
{
    let cw = area.spec_cell_width();
    let ch = area.spec_cell_height();
    let (px, py) = area.spec_project(row, col);
    lemma_small_multiple_bounds(col, cw);
    lemma_small_multiple_bounds(row, ch);
    assert(px - area.x == col * cw);
    assert(py - area.y == row * ch);
    vstd::arithmetic::div_mod::lemma_div_multiples_vanish(col, cw);
    vstd::arithmetic::div_mod::lemma_div_multiples_vanish(row, ch);
    assert((col * cw) / cw == col);
    assert((row * ch) / ch == row);
}

} // verus!
