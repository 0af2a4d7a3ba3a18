//! Selection: a range of cells over the history and the grid.
//!
//! Rows are counted over the whole buffer: the oldest kept history row is
//! row 0, and the grid's top row follows the newest history row.

use vstd::prelude::*;

verus! {

/// A cell position in the buffer.
#[derive(Clone, Copy, PartialEq, Eq, Structural, Debug)]
pub struct Point {
    pub row: usize,
    pub col: usize,
}

/// How the two ends of a selection span the cells between them.
#[derive(Clone, Copy, PartialEq, Eq, Structural, Debug)]
pub enum SelectionMode {
    /// In reading order, from `start` up to but not including `end`.
    Linear,
    /// The rectangle of rows `start.row..=end.row` and columns `start.col..end.col`.
    Block,
    /// Like `Linear`; the ends were placed on word boundaries.
    Word,
    /// Every cell of the rows `start.row..=end.row`.
    Line,
}

/// A selection. `start` is its first cell; `end` is one past its last cell
/// in the last row.
#[derive(Clone, Copy, PartialEq, Eq, Structural, Debug)]
pub struct Selection {
    pub start: Point,
    pub end: Point,
    pub mode: SelectionMode,
}

/// Whether `a` comes before `b` in reading order, or is `b`.
pub open spec fn point_le(a: Point, b: Point) -> bool {
    a.row < b.row || (a.row == b.row && a.col <= b.col)
}

/// `n`, but at most `hi`.
pub open spec fn at_most(n: int, hi: int) -> int {
    if n > hi { hi } else { n }
}

/// `p` pulled into a buffer of `total` rows and `cols` columns.
pub open spec fn clamp_point(p: Point, total: int, cols: int) -> Point {
    if p.row >= total {
        Point { row: (total - 1) as usize, col: cols as usize }
    } else {
        Point { row: p.row, col: at_most(p.col as int, cols) as usize }
    }
}

/// The selection between two points given in any order. For `Block` the
/// start is the upper left corner and the end the lower right; otherwise the
/// start is the first of the two in reading order.
pub open spec fn between(a: Point, b: Point, mode: SelectionMode) -> Selection {
    if mode == SelectionMode::Block {
        Selection {
            start: Point {
                row: if a.row <= b.row { a.row } else { b.row },
                col: if a.col <= b.col { a.col } else { b.col },
            },
            end: Point {
                row: if a.row <= b.row { b.row } else { a.row },
                col: if a.col <= b.col { b.col } else { a.col },
            },
            mode,
        }
    } else if point_le(a, b) {
        Selection { start: a, end: b, mode }
    } else {
        Selection { start: b, end: a, mode }
    }
}

impl Selection {
    /// Whether the selection holds the cell at buffer row `row`, column `col`.
    pub open spec fn covers(self, row: int, col: int) -> bool {
        match self.mode {
            SelectionMode::Linear | SelectionMode::Word => {
                &&& (self.start.row < row || (self.start.row == row && self.start.col <= col))
                &&& (row < self.end.row || (row == self.end.row && col < self.end.col))
            },
            SelectionMode::Block => {
                &&& self.start.row <= row <= self.end.row
                &&& self.start.col <= col < self.end.col
            },
            SelectionMode::Line => self.start.row <= row <= self.end.row,
        }
    }

    /// Whether buffer row `row` lies between the selection's first and last row.
    pub open spec fn spans(self, row: int) -> bool {
        self.start.row <= row <= self.end.row
    }

    /// Whether the ends are in order: the start's row is not below the end's,
    /// and within a row (for `Block`: always) the start's column is not right
    /// of the end's.
    pub open spec fn ordered(self) -> bool {
        &&& self.start.row <= self.end.row
        &&& self.mode == SelectionMode::Block ==> self.start.col <= self.end.col
        &&& (self.mode == SelectionMode::Linear || self.mode == SelectionMode::Word) ==> point_le(
            self.start,
            self.end,
        )
    }

    /// Whether the ends are in order and inside a buffer of `total` rows and
    /// `cols` columns.
    pub open spec fn within(self, total: int, cols: int) -> bool {
        &&& self.ordered()
        &&& self.end.row < total
        &&& self.start.col <= cols
        &&& self.end.col <= cols
    }

    /// The selection pulled into a buffer of `total` rows and `cols` columns:
    /// an end below the last row goes to the end of the last row, and a
    /// column right of the last one becomes `cols`.
    pub open spec fn clamp_spec(self, total: int, cols: int) -> Selection {
        Selection {
            start: clamp_point(self.start, total, cols),
            end: clamp_point(self.end, total, cols),
            mode: self.mode,
        }
    }

    /// The selection after the buffer has lost its oldest row: it follows its
    /// text one row up. A part that was in the lost row is cut off; `None` if
    /// nothing is left.
    pub open spec fn shift_spec(self) -> Option<Selection> {
        if self.end.row == 0 {
            None
        } else if self.start.row == 0 {
            let start_col = if self.mode == SelectionMode::Block { self.start.col } else { 0 };
            Some(
                Selection {
                    start: Point { row: 0, col: start_col },
                    end: Point { row: (self.end.row - 1) as usize, col: self.end.col },
                    mode: self.mode,
                },
            )
        } else {
            Some(
                Selection {
                    start: Point { row: (self.start.row - 1) as usize, col: self.start.col },
                    end: Point { row: (self.end.row - 1) as usize, col: self.end.col },
                    mode: self.mode,
                },
            )
        }
    }

    /// The selection between two points given in any order.
    pub fn new(a: Point, b: Point, mode: SelectionMode) -> (s: Selection)
        ensures
            s == between(a, b, mode),
            s.ordered(),
    {
        match mode {
            SelectionMode::Block => {
                let (r0, r1) = if a.row <= b.row { (a.row, b.row) } else { (b.row, a.row) };
                let (c0, c1) = if a.col <= b.col { (a.col, b.col) } else { (b.col, a.col) };
                Selection {
                    start: Point { row: r0, col: c0 },
                    end: Point { row: r1, col: c1 },
                    mode,
                }
            },
            _ => {
                if a.row < b.row || (a.row == b.row && a.col <= b.col) {
                    Selection { start: a, end: b, mode }
                } else {
                    Selection { start: b, end: a, mode }
                }
            },
        }
    }

    /// Whether the selection holds the cell at buffer row `row`, column `col`.
    pub fn contains(&self, row: usize, col: usize) -> (b: bool)
        ensures
            b == self.covers(row as int, col as int),
    {
        match self.mode {
            SelectionMode::Linear | SelectionMode::Word => {
                (self.start.row < row || (self.start.row == row && self.start.col <= col)) && (row
                    < self.end.row || (row == self.end.row && col < self.end.col))
            },
            SelectionMode::Block => {
                self.start.row <= row && row <= self.end.row && self.start.col <= col && col
                    < self.end.col
            },
            SelectionMode::Line => self.start.row <= row && row <= self.end.row,
        }
    }

    /// Whether buffer row `row` lies between the selection's first and last row.
    pub fn spans_row(&self, row: usize) -> (b: bool)
        ensures
            b == self.spans(row as int),
    {
        self.start.row <= row && row <= self.end.row
    }

    /// Pulls the selection into a buffer of `total` rows and `cols` columns.
    pub fn clamp(&self, total: usize, cols: usize) -> (s: Selection)
        requires
            total >= 1,
            self.ordered(),
        ensures
            s == self.clamp_spec(total as int, cols as int),
            s.within(total as int, cols as int),
    {
        let start = if self.start.row >= total {
            Point { row: total - 1, col: cols }
        } else {
            Point { row: self.start.row, col: if self.start.col > cols { cols } else { self.start.col } }
        };
        let end = if self.end.row >= total {
            Point { row: total - 1, col: cols }
        } else {
            Point { row: self.end.row, col: if self.end.col > cols { cols } else { self.end.col } }
        };
        Selection { start, end, mode: self.mode }
    }

    /// Follows the text one row up after the buffer has lost its oldest row.
    pub fn shift_up(&self) -> (s: Option<Selection>)
        ensures
            s == self.shift_spec(),
    {
        if self.end.row == 0 {
            None
        } else if self.start.row == 0 {
            let start_col = match self.mode {
                SelectionMode::Block => self.start.col,
                _ => 0,
            };
            Some(
                Selection {
                    start: Point { row: 0, col: start_col },
                    end: Point { row: self.end.row - 1, col: self.end.col },
                    mode: self.mode,
                },
            )
        } else {
            Some(
                Selection {
                    start: Point { row: self.start.row - 1, col: self.start.col },
                    end: Point { row: self.end.row - 1, col: self.end.col },
                    mode: self.mode,
                },
            )
        }
    }
}

/// A selection that is inside a buffer stays inside it when it follows its
/// text one row up.
pub proof fn lemma_shift_within(s: Selection, total: int, cols: int)
    requires
        s.within(total, cols),
    ensures
        s.shift_spec() matches Some(t) ==> t.within(total, cols),
{
}

} // verus!
