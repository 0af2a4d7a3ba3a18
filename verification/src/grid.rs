//! The grid: a rectangle of cells, row 0 at the top of the visible region.

use vstd::prelude::*;
use crate::cell::{Cell, blank_cell};

verus! {

/// A row of `cols` empty cells.
pub open spec fn blank_row(cols: nat) -> Seq<Cell> {
    Seq::new(cols, |i: int| blank_cell())
}

/// `rows` rows of `cols` empty cells.
pub open spec fn blank_grid(rows: nat, cols: nat) -> Seq<Seq<Cell>> {
    Seq::new(rows, |i: int| blank_row(cols))
}

/// Whether `g` has `rows` rows of `cols` cells each.
pub open spec fn rect(g: Seq<Seq<Cell>>, rows: nat, cols: nat) -> bool {
    &&& g.len() == rows
    &&& forall|i: int| 0 <= i < rows ==> (#[trigger] g[i]).len() == cols
}

/// `row` cut or padded with empty cells to `cols` cells.
pub open spec fn fit_row(row: Seq<Cell>, cols: nat) -> Seq<Cell> {
    Seq::new(cols, |i: int| if i < row.len() { row[i] } else { blank_cell() })
}

/// `g` cut or padded to `rows` rows of `cols` cells: rows and cells keep their
/// index, what does not fit is dropped, what is new is empty.
pub open spec fn fit_grid(g: Seq<Seq<Cell>>, rows: nat, cols: nat) -> Seq<Seq<Cell>> {
    Seq::new(rows, |i: int| if i < g.len() { fit_row(g[i], cols) } else { blank_row(cols) })
}

/// `row` with the cells at columns `from..to` emptied.
pub open spec fn erase_cells(row: Seq<Cell>, from: int, to: int) -> Seq<Cell> {
    Seq::new(row.len(), |i: int| if from <= i < to { blank_cell() } else { row[i] })
}

/// `g` with the rows `from..to` emptied.
pub open spec fn erase_rows(g: Seq<Seq<Cell>>, from: int, to: int) -> Seq<Seq<Cell>> {
    Seq::new(g.len(), |i: int| if from <= i < to { blank_row(g[i].len()) } else { g[i] })
}

/// `g` moved up by one row: the top row leaves, an empty row enters at the bottom.
pub open spec fn scrolled_up(g: Seq<Seq<Cell>>) -> Seq<Seq<Cell>> {
    g.skip(1).push(blank_row(g[0].len()))
}

/// `n`, but at least 1.
pub open spec fn at_least_one(n: nat) -> nat {
    if n == 0 { 1 } else { n }
}

/// A grid of cells. Its view is the sequence of its rows, top to bottom, each
/// a sequence of cells, left to right.
pub struct Grid {
    cells: Vec<Vec<Cell>>,
    cols: usize,
}

/// Makes a row of `cols` empty cells.
pub fn make_blank_row(cols: usize) -> (row: Vec<Cell>)
    ensures
        row@ == blank_row(cols as nat),
{
    let mut row: Vec<Cell> = Vec::new();
    let mut i: usize = 0;
    while i < cols
        invariant
            i <= cols,
            row@ == blank_row(i as nat),
        decreases cols - i,
    {
        row.push(Cell::blank());
        i += 1;
        assert(row@ =~= blank_row(i as nat));
    }
    row
}

impl Grid {
    /// The rows of the grid.
    pub closed spec fn view(&self) -> Seq<Seq<Cell>> {
        Seq::new(self.cells@.len(), |i: int| self.cells@[i]@)
    }

    /// The number of columns.
    pub closed spec fn width(&self) -> nat {
        self.cols as nat
    }

    /// The number of rows.
    pub open spec fn height(&self) -> nat {
        self@.len()
    }

    /// The grid's invariant: at least one row and one column, and every row
    /// has exactly `width()` cells.
    pub open spec fn wf(&self) -> bool {
        &&& self.height() >= 1
        &&& self.width() >= 1
        &&& rect(self@, self.height(), self.width())
    }

    /// An empty grid of `rows` by `cols` cells; a dimension of 0 is taken as 1.
    pub fn new(rows: usize, cols: usize) -> (g: Grid)
        ensures
            g.wf(),
            g.height() == at_least_one(rows as nat),
            g.width() == at_least_one(cols as nat),
            g@ == blank_grid(g.height(), g.width()),
    {
        let rows: usize = if rows == 0 { 1 } else { rows };
        let cols: usize = if cols == 0 { 1 } else { cols };
        let mut cells: Vec<Vec<Cell>> = Vec::new();
        let mut i: usize = 0;
        while i < rows
            invariant
                i <= rows,
                cells@.len() == i,
                forall|k: int| 0 <= k < i ==> (#[trigger] cells@[k])@ == blank_row(cols as nat),
            decreases rows - i,
        {
            cells.push(make_blank_row(cols));
            i += 1;
        }
        let g = Grid { cells, cols };
        assert(g@ =~= blank_grid(rows as nat, cols as nat));
        g
    }

    /// The number of rows.
    pub fn rows(&self) -> (n: usize)
        ensures
            n == self.height(),
    {
        self.cells.len()
    }

    /// The number of columns.
    pub fn cols(&self) -> (n: usize)
        ensures
            n == self.width(),
    {
        self.cols
    }

    /// The cell at row `r`, column `c`.
    pub fn get(&self, r: usize, c: usize) -> (cell: Cell)
        requires
            self.wf(),
            r < self.height(),
            c < self.width(),
        ensures
            cell == self@[r as int][c as int],
    {
        assert(self@[r as int].len() == self.width());
        self.cells[r][c]
    }

    /// The cell at row `r`, column `c`, or `None` outside the grid.
    pub fn cell(&self, r: usize, c: usize) -> (cell: Option<Cell>)
        requires
            self.wf(),
        ensures
            cell == (if r < self.height() && c < self.width() {
                Some(self@[r as int][c as int])
            } else {
                None
            }),
    {
        if r < self.cells.len() && c < self.cols {
            Some(self.get(r, c))
        } else {
            None
        }
    }

    /// Row `r`.
    pub fn row(&self, r: usize) -> (row: &Vec<Cell>)
        requires
            r < self.height(),
        ensures
            row@ == self@[r as int],
    {
        &self.cells[r]
    }

    /// Writes `cell` at row `r`, column `c`.
    pub fn put(&mut self, r: usize, c: usize, cell: Cell)
        requires
            old(self).wf(),
            r < old(self).height(),
            c < old(self).width(),
        ensures
            final(self).wf(),
            final(self).width() == old(self).width(),
            final(self)@ == old(self)@.update(r as int, old(self)@[r as int].update(c as int, cell)),
    {
        assert(self@[r as int].len() == self.width());
        self.cells[r][c] = cell;
        assert(self@ =~= old(self)@.update(
            r as int,
            old(self)@[r as int].update(c as int, cell),
        ));
    }

    /// Empties the cells of row `r` at columns `from..to`.
    pub fn erase(&mut self, r: usize, from: usize, to: usize)
        requires
            old(self).wf(),
            r < old(self).height(),
            from <= to <= old(self).width(),
        ensures
            final(self).wf(),
            final(self).width() == old(self).width(),
            final(self)@ == old(self)@.update(
                r as int,
                erase_cells(old(self)@[r as int], from as int, to as int),
            ),
    {
        let mut c: usize = from;
        assert(erase_cells(self@[r as int], from as int, from as int) =~= self@[r as int]);
        assert(self@ =~= self@.update(r as int, self@[r as int]));
        while c < to
            invariant
                from <= c <= to,
                to <= self.width(),
                r < self.height(),
                self.wf(),
                old(self).wf(),
                r < old(self).height(),
                self.width() == old(self).width(),
                self@ == old(self)@.update(
                    r as int,
                    erase_cells(old(self)@[r as int], from as int, c as int),
                ),
            decreases to - c,
        {
            let ghost before = self@;
            self.put(r, c, Cell::blank());
            c += 1;
            assert(before[r as int].update(c - 1, blank_cell()) =~= erase_cells(
                old(self)@[r as int],
                from as int,
                c as int,
            ));
        }
    }

    /// Empties the rows `from..to`.
    pub fn erase_rows(&mut self, from: usize, to: usize)
        requires
            old(self).wf(),
            from <= to <= old(self).height(),
        ensures
            final(self).wf(),
            final(self).width() == old(self).width(),
            final(self)@ == erase_rows(old(self)@, from as int, to as int),
    {
        let mut r: usize = from;
        while r < to
            invariant
                from <= r <= to,
                to <= self.height(),
                self.wf(),
                self.width() == old(self).width(),
                self.height() == old(self).height(),
                old(self).wf(),
                self@ == erase_rows(old(self)@, from as int, r as int),
            decreases to - r,
        {
            let ghost before = self@;
            self.erase(r, 0, self.cols);
            r += 1;
            assert(erase_cells(before[r - 1], 0, self.width() as int) =~= blank_row(self.width()));
            assert(self@ =~= erase_rows(old(self)@, from as int, r as int));
        }
        assert(self@ =~= erase_rows(old(self)@, from as int, to as int));
    }

    /// Moves every row up by one. The top row leaves the grid and is returned;
    /// an empty row enters at the bottom.
    pub fn scroll_up(&mut self) -> (top: Vec<Cell>)
        requires
            old(self).wf(),
        ensures
            final(self).wf(),
            final(self).width() == old(self).width(),
            final(self).height() == old(self).height(),
            top@ == old(self)@[0],
            final(self)@ == scrolled_up(old(self)@),
    {
        let top = self.cells.remove(0);
        self.cells.push(make_blank_row(self.cols));
        assert(old(self)@[0].len() == self.width());
        assert(self@ =~= scrolled_up(old(self)@));
        assert(top@ == old(self)@[0]);
        top
    }

    /// Gives the grid `rows` rows and `cols` columns; a dimension of 0 is taken
    /// as 1. Rows and cells keep their index: what no longer fits is dropped,
    /// what is new is empty.
    pub fn resize(&mut self, rows: usize, cols: usize)
        requires
            old(self).wf(),
        ensures
            final(self).wf(),
            final(self).height() == at_least_one(rows as nat),
            final(self).width() == at_least_one(cols as nat),
            final(self)@ == fit_grid(old(self)@, final(self).height(), final(self).width()),
    {
        let rows: usize = if rows == 0 { 1 } else { rows };
        let cols: usize = if cols == 0 { 1 } else { cols };
        let mut cells: Vec<Vec<Cell>> = Vec::new();
        let mut r: usize = 0;
        while r < rows
            invariant
                r <= rows,
                self.wf(),
                *self == *old(self),
                cells@.len() == r,
                forall|k: int| 0 <= k < r ==> (#[trigger] cells@[k])@ == fit_grid(
                    self@,
                    rows as nat,
                    cols as nat,
                )[k],
            decreases rows - r,
        {
            if r < self.cells.len() {
                let mut row: Vec<Cell> = Vec::new();
                let mut c: usize = 0;
                while c < cols
                    invariant
                        c <= cols,
                        r < self.height(),
                        self.wf(),
                        row@ == fit_row(self@[r as int], c as nat),
                    decreases cols - c,
                {
                    if c < self.cols {
                        row.push(self.get(r, c));
                    } else {
                        row.push(Cell::blank());
                    }
                    c += 1;
                    assert(row@ =~= fit_row(self@[r as int], c as nat));
                }
                cells.push(row);
            } else {
                cells.push(make_blank_row(cols));
            }
            r += 1;
        }
        self.cells = cells;
        self.cols = cols;
        assert(self@ =~= fit_grid(old(self)@, rows as nat, cols as nat));
    }
}

} // verus!
