//! The render adapter: from the rows that need drawing to draw
//! instructions for the host. Neighbouring cells that look alike are drawn
//! as one run.

use vstd::prelude::*;
use crate::cell::{Cell, Style};
use crate::model::{ScreenView, cell_text, cells_text};
use crate::modes::CursorShape;
use crate::screen::{Screen, push_text};

verus! {

/// What cells must share to be drawn as one run.
#[derive(Clone, Copy, PartialEq, Eq, Structural, Debug)]
pub struct RunKey {
    pub style: Style,
    pub link: Option<u32>,
    /// The cells are inside the selection and are to be highlighted.
    pub selected: bool,
}

/// A run: the cells of one row from column `col` on, `width` of them, that
/// share `key`, and their text.
#[derive(Clone, PartialEq, Eq, Debug)]
pub struct Run {
    pub col: usize,
    pub width: usize,
    pub key: RunKey,
    pub text: Vec<char>,
}

/// The draw instructions for one row.
#[derive(Clone, PartialEq, Eq, Debug)]
pub struct Line {
    pub row: usize,
    pub runs: Vec<Run>,
}

/// How the cursor is to be drawn.
#[derive(Clone, Copy, PartialEq, Eq, Structural, Debug)]
pub struct CursorOverlay {
    pub row: usize,
    pub col: usize,
    pub shape: CursorShape,
    /// Draw the outline only: the terminal does not have the focus.
    pub hollow: bool,
    pub blink: bool,
}

/// The draw instructions for one frame.
#[derive(Clone, PartialEq, Eq, Debug)]
pub struct Frame {
    /// The rows to draw, top to bottom.
    pub lines: Vec<Line>,
    /// The cursor, unless it is hidden.
    pub cursor: Option<CursorOverlay>,
}

/// Whether the cell at grid row `r`, column `c` is inside the selection.
pub open spec fn is_selected(s: ScreenView, r: int, c: int) -> bool {
    s.selection matches Some(sel) && sel.covers(s.base() + r, c)
}

/// The key of the cell at grid row `r`, column `c`.
pub open spec fn key_at(s: ScreenView, r: int, c: int) -> RunKey {
    RunKey {
        style: s.grid[r][c].style,
        link: s.grid[r][c].link,
        selected: is_selected(s, r, c),
    }
}

/// Whether `run` is a run of row `r`: it is not empty, lies inside the row,
/// all its cells have its key, and its text is theirs.
pub open spec fn is_run(s: ScreenView, r: int, run: Run) -> bool {
    &&& run.width >= 1
    &&& run.col + run.width <= s.cols
    &&& forall|c: int| run.col <= c < run.col + run.width ==> #[trigger] key_at(s, r, c) == run.key
    &&& run.text@ == cells_text(s.grid[r].subrange(run.col as int, run.col + run.width))
}

/// Whether `runs` are the runs of row `r`: they cover the row from left to
/// right without gap or overlap, and no two neighbours share a key, so that
/// no run could be longer.
pub open spec fn is_runs(s: ScreenView, r: int, runs: Seq<Run>) -> bool {
    &&& runs.len() >= 1
    &&& runs[0].col == 0
    &&& runs.last().col + runs.last().width == s.cols
    &&& forall|k: int| 0 <= k < runs.len() ==> is_run(s, r, #[trigger] runs[k])
    &&& forall|j: int, k: int|
        0 <= j && j + 1 == k && k < runs.len() ==> {
            &&& (#[trigger] runs[j]).col + runs[j].width == (#[trigger] runs[k]).col
            &&& runs[j].key != runs[k].key
        }
}

/// Whether grid row `r` is drawn: it is dirty, or holds the cursor, or
/// lies between the selection's first and last row.
pub open spec fn needs_draw(s: ScreenView, r: int) -> bool {
    ||| s.damage.contains(r)
    ||| r == s.cursor.row
    ||| (s.selection matches Some(sel) && sel.spans(s.base() + r))
}

/// How the cursor is drawn: not at all while hidden; in its shape, and
/// blinking if it blinks, with the focus; as the outline of a block without.
pub open spec fn cursor_overlay(s: ScreenView, focused: bool) -> Option<CursorOverlay> {
    if s.cursor.visible {
        Some(
            CursorOverlay {
                row: s.cursor.row,
                col: s.cursor.col,
                shape: if focused { s.cursor.shape } else { CursorShape::Block },
                hollow: !focused,
                blink: focused && s.cursor.blink,
            },
        )
    } else {
        None
    }
}

/// Whether `f` is the frame of screen `s`: it holds the runs of exactly the
/// rows that are drawn, top to bottom, and the cursor.
pub open spec fn is_frame(s: ScreenView, focused: bool, f: Frame) -> bool {
    &&& f.cursor == cursor_overlay(s, focused)
    &&& forall|k: int|
        0 <= k < f.lines@.len() ==> {
            &&& (#[trigger] f.lines@[k]).row < s.rows()
            &&& needs_draw(s, f.lines@[k].row as int)
            &&& is_runs(s, f.lines@[k].row as int, f.lines@[k].runs@)
        }
    &&& forall|j: int, k: int|
        0 <= j < k < f.lines@.len() ==> (#[trigger] f.lines@[j]).row < (#[trigger] f.lines@[k]).row
    &&& forall|r: int|
        0 <= r < s.rows() && #[trigger] needs_draw(s, r) ==> exists|k: int|
            0 <= k < f.lines@.len() && (#[trigger] f.lines@[k]).row == r
}

fn key_of(screen: &Screen, cells: &Vec<Cell>, r: usize, c: usize) -> (key: RunKey)
    requires
        screen.wf(),
        r < screen@.rows(),
        c < screen@.cols,
        cells@ == screen@.grid[r as int],
    ensures
        key == key_at(screen@, r as int, c as int),
{
    let cell = cells[c];
    let selected = match screen.selection() {
        Some(sel) => sel.contains(screen.base() + r, c),
        None => false,
    };
    RunKey { style: cell.style, link: cell.link, selected }
}

fn take_run(screen: &Screen, cells: &Vec<Cell>, r: usize, from: usize) -> (run: Run)
    requires
        screen.wf(),
        r < screen@.rows(),
        from < screen@.cols,
        cells@ == screen@.grid[r as int],
    ensures
        is_run(screen@, r as int, run),
        run.col == from,
        run.col + run.width < screen@.cols ==> key_at(
            screen@,
            r as int,
            run.col + run.width,
        ) != run.key,
{
    let cols = screen.cols();
    let key = key_of(screen, cells, r, from);
    let mut text: Vec<char> = Vec::new();
    push_text(&mut text, cells[from]);
    let mut end: usize = from + 1;
    proof {
        let none = cells@.subrange(from as int, from as int);
        let one = cells@.subrange(from as int, end as int);
        assert(one.drop_last() =~= none);
        assert(cells_text(none) =~= Seq::<char>::empty());
        assert(one.last() == cells@[from as int]);
        assert(cells_text(one) =~= cell_text(cells@[from as int]));
    }
    loop
        invariant
            screen.wf(),
            r < screen@.rows(),
            cols == screen@.cols,
            cells@ == screen@.grid[r as int],
            cells@.len() == cols,
            from < end <= cols,
            forall|c: int| from <= c < end ==> #[trigger] key_at(screen@, r as int, c) == key,
            text@ == cells_text(cells@.subrange(from as int, end as int)),
        ensures
            end < cols ==> key_at(screen@, r as int, end as int) != key,
        decreases cols - end,
    {
        if end >= cols {
            break ;
        }
        let next = key_of(screen, cells, r, end);
        if next != key {
            break ;
        }
        push_text(&mut text, cells[end]);
        end += 1;
        assert(cells@.subrange(from as int, end as int).drop_last() =~= cells@.subrange(
            from as int,
            end - 1,
        ));
    }
    Run { col: from, width: end - from, key, text }
}

/// The runs of grid row `r`.
pub fn draw_row(screen: &Screen, r: usize) -> (runs: Vec<Run>)
    requires
        screen.wf(),
        r < screen@.rows(),
    ensures
        is_runs(screen@, r as int, runs@),
{
    let cols = screen.cols();
    let cells = screen.row(r);
    let mut runs: Vec<Run> = Vec::new();
    let first = take_run(screen, cells, r, 0);
    let mut c: usize = first.width;
    runs.push(first);
    while c < cols
        invariant
            screen.wf(),
            r < screen@.rows(),
            cols == screen@.cols,
            cells@ == screen@.grid[r as int],
            c <= cols,
            runs@.len() >= 1,
            runs@[0].col == 0,
            runs@.last().col + runs@.last().width == c,
            c < cols ==> key_at(screen@, r as int, c as int) != runs@.last().key,
            forall|k: int| 0 <= k < runs@.len() ==> is_run(screen@, r as int, #[trigger] runs@[k]),
            forall|j: int, k: int|
                0 <= j && j + 1 == k && k < runs@.len() ==> {
                    &&& (#[trigger] runs@[j]).col + runs@[j].width == (#[trigger] runs@[k]).col
                    &&& runs@[j].key != runs@[k].key
                },
        decreases cols - c,
    {
        let run = take_run(screen, cells, r, c);
        assert(key_at(screen@, r as int, c as int) == run.key);
        c = c + run.width;
        runs.push(run);
    }
    runs
}

fn overlay(screen: &Screen, focused: bool) -> (o: Option<CursorOverlay>)
    ensures
        o == cursor_overlay(screen@, focused),
{
    let cursor = screen.cursor();
    if cursor.visible {
        Some(
            CursorOverlay {
                row: cursor.row,
                col: cursor.col,
                shape: if focused { cursor.shape } else { CursorShape::Block },
                hollow: !focused,
                blink: focused && cursor.blink,
            },
        )
    } else {
        None
    }
}

fn wants_draw(screen: &Screen, r: usize) -> (b: bool)
    requires
        screen.wf(),
        r < screen@.rows(),
    ensures
        b == needs_draw(screen@, r as int),
{
    screen.is_dirty(r) || r == screen.cursor().row || match screen.selection() {
        Some(sel) => sel.spans_row(screen.base() + r),
        None => false,
    }
}

/// Draws one frame: the runs of every row that is dirty, holds the cursor
/// or is spanned by the selection, and the cursor. The cells are not
/// changed; the damage is cleared.
pub fn draw(screen: &mut Screen, focused: bool) -> (frame: Frame)
    requires
        old(screen).wf(),
    ensures
        final(screen).wf(),
        final(screen)@ == (ScreenView { damage: Set::empty(), ..old(screen)@ }),
        is_frame(old(screen)@, focused, frame),
{
    let rows = screen.rows();
    let mut lines: Vec<Line> = Vec::new();
    let mut r: usize = 0;
    while r < rows
        invariant
            screen.wf(),
            *screen == *old(screen),
            rows == screen@.rows(),
            r <= rows,
            forall|k: int|
                0 <= k < lines@.len() ==> {
                    &&& (#[trigger] lines@[k]).row < r
                    &&& needs_draw(screen@, lines@[k].row as int)
                    &&& is_runs(screen@, lines@[k].row as int, lines@[k].runs@)
                },
            forall|j: int, k: int|
                0 <= j < k < lines@.len() ==> (#[trigger] lines@[j]).row < (#[trigger] lines@[k]).row,
            forall|q: int|
                0 <= q < r && #[trigger] needs_draw(screen@, q) ==> exists|k: int|
                    0 <= k < lines@.len() && (#[trigger] lines@[k]).row == q,
        decreases rows - r,
    {
        if wants_draw(screen, r) {
            let runs = draw_row(screen, r);
            let ghost before = lines@;
            lines.push(Line { row: r, runs });
            assert forall|q: int| 0 <= q < r + 1 && #[trigger] needs_draw(screen@, q) implies exists|
                k: int,
            | 0 <= k < lines@.len() && (#[trigger] lines@[k]).row == q by {
                if q < r {
                    let k = choose|k: int| 0 <= k < before.len() && (#[trigger] before[k]).row == q;
                    assert(lines@[k].row == q);
                } else {
                    assert(lines@[lines@.len() - 1].row == q);
                }
            }
        }
        r += 1;
    }
    let cursor = overlay(screen, focused);
    screen.clear_damage();
    Frame { lines, cursor }
}

/// The rows of a picture made to be `rows` rows: rows keep their index, what
/// no longer fits is dropped, and new rows have no runs yet.
pub open spec fn fitted(picture: Seq<Seq<Run>>, rows: nat) -> Seq<Seq<Run>> {
    Seq::new(rows, |i: int| if i < picture.len() { picture[i] } else { Seq::empty() })
}

/// The rows of a picture after the runs of one line have taken the place of
/// those of its row. A line below the picture is dropped.
pub open spec fn placed(picture: Seq<Seq<Run>>, line: Line) -> Seq<Seq<Run>> {
    if line.row < picture.len() {
        picture.update(line.row as int, line.runs@)
    } else {
        picture
    }
}

/// The rows of a picture after the lines of a frame have been placed in
/// it. Should two lines name one row, the first of them stays.
pub open spec fn merged(picture: Seq<Seq<Run>>, lines: Seq<Line>) -> Seq<Seq<Run>>
    decreases lines.len(),
{
    if lines.len() == 0 {
        picture
    } else {
        merged(placed(picture, lines.last()), lines.drop_last())
    }
}

/// Merging keeps the number of rows, and a row that no line names stays as
/// it is.
pub proof fn lemma_merged_others(picture: Seq<Seq<Run>>, lines: Seq<Line>)
    ensures
        merged(picture, lines).len() == picture.len(),
        forall|r: int|
            0 <= r < picture.len() && (forall|k: int|
                0 <= k < lines.len() ==> (#[trigger] lines[k]).row != r) ==> #[trigger] merged(
                picture,
                lines,
            )[r] == picture[r],
    decreases lines.len(),
{
    if lines.len() > 0 {
        let head = lines.drop_last();
        let next = placed(picture, lines.last());
        lemma_merged_others(next, head);
        assert forall|r: int|
            0 <= r < picture.len() && (forall|k: int|
                0 <= k < lines.len() ==> (#[trigger] lines[k]).row != r) implies #[trigger] merged(
            picture,
            lines,
        )[r] == picture[r] by {
            assert(lines[lines.len() - 1].row != r);
            assert forall|k: int| 0 <= k < head.len() implies (#[trigger] head[k]).row != r by {
                assert(head[k] == lines[k]);
            }
        }
    }
}

/// Merging the lines of a frame, whose rows differ, shows each line in its
/// row.
pub proof fn lemma_merged_lines(picture: Seq<Seq<Run>>, lines: Seq<Line>, k: int)
    requires
        forall|i: int, j: int|
            0 <= i < j < lines.len() ==> (#[trigger] lines[i]).row < (#[trigger] lines[j]).row,
        0 <= k < lines.len(),
        lines[k].row < picture.len(),
    ensures
        merged(picture, lines)[lines[k].row as int] == lines[k].runs@,
    decreases lines.len(),
{
    let head = lines.drop_last();
    let next = placed(picture, lines.last());
    if k == lines.len() - 1 {
        lemma_merged_others(next, head);
        assert forall|i: int| 0 <= i < head.len() implies (#[trigger] head[i]).row
            != lines[k].row by {
            assert(head[i] == lines[i]);
        }
    } else {
        assert(head[k] == lines[k]);
        assert forall|i: int, j: int| 0 <= i < j < head.len() implies (#[trigger] head[i]).row < (
        #[trigger] head[j]).row by {
            assert(head[i] == lines[i] && head[j] == lines[j]);
        }
        lemma_merged_lines(next, head, k);
    }
}

/// The picture that the host shows: for every row of the grid the runs
/// that were drawn last, and the cursor. Frames hold only the rows that
/// changed; the picture takes them in.
pub struct Picture {
    lines: Vec<Vec<Run>>,
    cursor: Option<CursorOverlay>,
}

impl Picture {
    /// The runs of the rows, top to bottom.
    pub closed spec fn rows(&self) -> Seq<Seq<Run>> {
        Seq::new(self.lines@.len(), |i: int| self.lines@[i]@)
    }

    /// The cursor as it was drawn last.
    pub closed spec fn overlay(&self) -> Option<CursorOverlay> {
        self.cursor
    }

    /// A picture without rows or cursor.
    pub fn new() -> (p: Picture)
        ensures
            p.rows() == Seq::<Seq<Run>>::empty(),
            p.overlay() is None,
    {
        let p = Picture { lines: Vec::new(), cursor: None };
        assert(p.rows() =~= Seq::<Seq<Run>>::empty());
        p
    }

    /// The number of rows.
    pub fn len(&self) -> (n: usize)
        ensures
            n == self.rows().len(),
    {
        self.lines.len()
    }

    /// The runs of row `r`.
    pub fn line(&self, r: usize) -> (runs: &Vec<Run>)
        requires
            r < self.rows().len(),
        ensures
            runs@ == self.rows()[r as int],
    {
        &self.lines[r]
    }

    /// The cursor as it was drawn last.
    pub fn cursor(&self) -> (c: Option<CursorOverlay>)
        ensures
            c == self.overlay(),
    {
        self.cursor
    }

    fn fit(&mut self, rows: usize)
        ensures
            final(self).rows() == fitted(old(self).rows(), rows as nat),
            final(self).overlay() == old(self).overlay(),
    {
        self.lines.truncate(rows);
        while self.lines.len() < rows
            invariant
                self.lines@.len() <= rows,
                self.lines@.len() < rows ==> old(self).rows().len() <= self.lines@.len(),
                self.overlay() == old(self).overlay(),
                self.rows() == fitted(old(self).rows(), self.lines@.len() as nat),
            decreases rows - self.lines@.len(),
        {
            let ghost before = self.rows();
            let ghost n = self.lines@.len() as int;
            let empty: Vec<Run> = Vec::new();
            self.lines.push(empty);
            assert forall|i: int| 0 <= i < n + 1 implies self.rows()[i] == fitted(
                old(self).rows(),
                (n + 1) as nat,
            )[i] by {
                if i < n {
                    assert(self.rows()[i] == before[i]);
                    assert(before[i] == fitted(old(self).rows(), n as nat)[i]);
                }
            }
            assert(self.rows() =~= fitted(old(self).rows(), (n + 1) as nat));
        }
        assert(self.rows() =~= fitted(old(self).rows(), rows as nat));
    }

    /// Takes a frame in: the picture is made to be `rows` rows, the runs of
    /// every line of the frame take the place of those of its row, and the
    /// cursor is the frame's.
    pub fn update(&mut self, frame: Frame, rows: usize)
        ensures
            final(self).rows() == merged(fitted(old(self).rows(), rows as nat), frame.lines@),
            final(self).overlay() == frame.cursor,
    {
        self.fit(rows);
        self.cursor = frame.cursor;
        let mut lines = frame.lines;
        loop
            invariant
                self.overlay() == frame.cursor,
                merged(self.rows(), lines@) == merged(
                    fitted(old(self).rows(), rows as nat),
                    frame.lines@,
                ),
            ensures
                lines@.len() == 0,
            decreases lines@.len(),
        {
            match lines.pop() {
                Some(line) => {
                    let ghost before = self.rows();
                    let row = line.row;
                    if row < self.lines.len() {
                        self.lines[row] = line.runs;
                        assert(self.rows() =~= placed(before, line));
                    }
                },
                None => {
                    break ;
                },
            }
        }
    }
}

} // verus!
