//! The screen as a mathematical value, and what each action makes of it.

use vstd::prelude::*;
use crate::action::{ActionView, DisplayErase, EffectView, EventView, LineErase, Motion, Report};
use crate::cell::{Cell, Glyph, Style, glyph_width, is_wide};
use crate::damage::all_rows;
use crate::grid::{blank_grid, erase_cells, erase_rows, fit_grid, rect, scrolled_up};
use crate::modes::{Cursor, Modes, MouseTracking};
use crate::scrollback::pushed;
use crate::selection::Selection;
use crate::sgr::apply_sgr;

verus! {

/// The largest number of history rows that a screen keeps.
pub const MAX_HISTORY: usize = 1_000_000;

/// The largest number of hyperlink targets that a screen keeps.
pub const MAX_LINKS: usize = 65_536;

/// The largest number of rows or columns of a grid.
pub const MAX_DIM: usize = 0xFFFF;

/// The number of palette entries.
pub const PALETTE_SIZE: usize = 256;

/// The mathematical value of a screen.
pub struct ScreenView {
    /// The grid that is shown: the rows, top to bottom.
    pub grid: Seq<Seq<Cell>>,
    /// The number of columns.
    pub cols: nat,
    /// The grid that is not shown. While the alternate screen is shown this
    /// is the primary grid.
    pub other: Seq<Seq<Cell>>,
    /// The rows that have left the top of the primary grid, oldest first.
    pub history: Seq<Seq<Cell>>,
    /// The largest number of history rows kept.
    pub capacity: nat,
    pub cursor: Cursor,
    /// The cursor of the screen that is not shown.
    pub saved_cursor: Cursor,
    /// The style given to what is printed.
    pub pen: Style,
    /// The hyperlink given to what is printed.
    pub link: Option<u32>,
    /// The hyperlink targets, by their index.
    pub links: Seq<Seq<u8>>,
    pub modes: Modes,
    /// The rows whose cells changed since the last draw.
    pub damage: Set<int>,
    pub selection: Option<Selection>,
    /// The palette entries that the program has set, by their index.
    pub palette: Seq<Option<(u8, u8, u8)>>,
}

/// The smaller of two integers.
pub open spec fn min(a: int, b: int) -> int {
    if a <= b { a } else { b }
}

/// The larger of two integers.
pub open spec fn max(a: int, b: int) -> int {
    if a >= b { a } else { b }
}

/// The set of the rows `from..to`.
pub open spec fn row_range(from: int, to: int) -> Set<int> {
    Set::new(|i: int| from <= i < to)
}

/// Whether `c` is inside a grid of `rows` by `cols` cells.
pub open spec fn cursor_inside(c: Cursor, rows: nat, cols: nat) -> bool {
    c.row < rows && c.col < cols
}

impl ScreenView {
    /// The number of rows.
    pub open spec fn rows(self) -> nat {
        self.grid.len()
    }

    /// The number of history rows that lie above the shown grid in the
    /// buffer: none while the alternate screen is shown.
    pub open spec fn base(self) -> nat {
        if self.modes.alt_screen { 0 } else { self.history.len() }
    }

    /// The screen's invariant: both grids are rectangles of the same size
    /// with at least one cell, both cursors are inside, the history is
    /// within its capacity, only rows are damaged, the selection is inside
    /// the buffer, and links point into the table.
    pub open spec fn wf(self) -> bool {
        &&& 1 <= self.rows() <= MAX_DIM
        &&& 1 <= self.cols <= MAX_DIM
        &&& rect(self.grid, self.rows(), self.cols)
        &&& rect(self.other, self.rows(), self.cols)
        &&& cursor_inside(self.cursor, self.rows(), self.cols)
        &&& cursor_inside(self.saved_cursor, self.rows(), self.cols)
        &&& self.history.len() <= self.capacity <= MAX_HISTORY
        &&& self.damage.subset_of(all_rows(self.rows()))
        &&& (self.selection matches Some(sel) ==> sel.within(
            (self.base() + self.rows()) as int,
            self.cols as int,
        ))
        &&& self.palette.len() == PALETTE_SIZE
        &&& self.links.len() <= MAX_LINKS
        &&& (self.link matches Some(id) ==> id < self.links.len())
    }
}

/// The screen after the grid has moved up by one row. On the primary
/// screen the top row enters the history; on the alternate screen it is
/// lost. Every row is damaged. The selection follows its text.
pub open spec fn scroll(s: ScreenView) -> ScreenView {
    let lost = s.modes.alt_screen || s.history.len() >= s.capacity;
    ScreenView {
        grid: scrolled_up(s.grid),
        history: if s.modes.alt_screen {
            s.history
        } else {
            pushed(s.history, s.capacity, s.grid[0])
        },
        selection: match s.selection {
            Some(sel) => if lost { sel.shift_spec() } else { Some(sel) },
            None => None,
        },
        damage: all_rows(s.rows()),
        ..s
    }
}

/// The screen after a line feed: the cursor goes down one row; on the last
/// row the grid scrolls instead.
pub open spec fn line_feed(s: ScreenView) -> ScreenView {
    if s.cursor.row + 1 < s.rows() {
        ScreenView {
            cursor: Cursor { row: (s.cursor.row + 1) as usize, pending_wrap: false, ..s.cursor },
            ..s
        }
    } else {
        scroll(ScreenView { cursor: Cursor { pending_wrap: false, ..s.cursor }, ..s })
    }
}

/// The screen with the cursor at column 0.
pub open spec fn carriage_return(s: ScreenView) -> ScreenView {
    ScreenView { cursor: Cursor { col: 0, pending_wrap: false, ..s.cursor }, ..s }
}

/// The grid with `ch` written at `row`, `col` in the pen's style; a wide
/// character also takes the cell to the right.
pub open spec fn write_at(s: ScreenView, row: int, col: int, ch: char) -> Seq<Seq<Cell>> {
    let lead = Cell { glyph: Glyph::Char(ch), style: s.pen, link: s.link };
    let line = s.grid[row].update(col, lead);
    let line = if is_wide(ch) {
        line.update(col + 1, Cell { glyph: Glyph::Continuation, style: s.pen, link: s.link })
    } else {
        line
    };
    s.grid.update(row, line)
}

/// The screen just before `ch` is written: the cursor is where `ch` goes.
/// A pending wrap is carried out; a character that does not fit in the rest
/// of the row goes to the next row with auto-wrap, and to the end of the row
/// without.
pub open spec fn make_room(s: ScreenView, ch: char) -> ScreenView {
    let w = glyph_width(ch);
    if s.cursor.pending_wrap || (s.cursor.col + w > s.cols && s.modes.auto_wrap) {
        line_feed(carriage_return(s))
    } else if s.cursor.col + w > s.cols {
        ScreenView { cursor: Cursor { col: (s.cols - w) as usize, ..s.cursor }, ..s }
    } else {
        s
    }
}

/// The screen after `ch` has been written at the cursor, which has room for
/// it. The cursor moves past the character; at the end of the row it stays
/// on the last column, and with auto-wrap the wrap is pending. The row is
/// damaged.
pub open spec fn place(t: ScreenView, ch: char) -> ScreenView {
    let w = glyph_width(ch);
    let at_end = t.cursor.col + w >= t.cols;
    ScreenView {
        grid: write_at(t, t.cursor.row as int, t.cursor.col as int, ch),
        cursor: Cursor {
            col: if at_end { (t.cols - 1) as usize } else { (t.cursor.col + w) as usize },
            pending_wrap: at_end && t.modes.auto_wrap,
            ..t.cursor
        },
        damage: t.damage.insert(t.cursor.row as int),
        ..t
    }
}

/// The screen after `ch` has been printed. A character wider than the grid
/// is not printed.
pub open spec fn print(s: ScreenView, ch: char) -> ScreenView {
    if glyph_width(ch) > s.cols {
        s
    } else {
        place(make_room(s, ch), ch)
    }
}

/// The column `n` tab stops after column `c`; tab stops are 8 columns apart.
pub open spec fn tab_forward(c: int, n: int) -> int {
    if n <= 0 { c } else { (c / 8 + n) * 8 }
}

/// The column `n` tab stops before column `c`.
pub open spec fn tab_back(c: int, n: int) -> int {
    if n <= 0 { c } else { ((c + 7) / 8 - n) * 8 }
}

/// The cursor after a movement: every target is clamped into the grid.
pub open spec fn moved(s: ScreenView, m: Motion) -> Cursor {
    let last_row = s.rows() - 1;
    let last_col = s.cols - 1;
    let r = s.cursor.row as int;
    let c = s.cursor.col as int;
    let (row, col) = match m {
        Motion::Up(n) => (max(r - n, 0), c),
        Motion::Down(n) => (min(r + n, last_row), c),
        Motion::Forward(n) => (r, min(c + n, last_col)),
        Motion::Back(n) => (r, max(c - n, 0)),
        Motion::NextLine(n) => (min(r + n, last_row), 0),
        Motion::PrevLine(n) => (max(r - n, 0), 0),
        Motion::Column(x) => (r, min(x as int, last_col)),
        Motion::Row(y) => (min(y as int, last_row), c),
        Motion::Position { row, col } => (min(row as int, last_row), min(col as int, last_col)),
        Motion::CarriageReturn => (r, 0),
        Motion::Backspace => (r, max(c - 1, 0)),
        Motion::Tab(n) => (r, min(tab_forward(c, n as int), last_col)),
        Motion::BackTab(n) => (r, max(tab_back(c, n as int), 0)),
    };
    Cursor { row: row as usize, col: col as usize, pending_wrap: false, ..s.cursor }
}

/// The screen after an erase in the cursor's row.
pub open spec fn erase_line(s: ScreenView, e: LineErase) -> ScreenView {
    let r = s.cursor.row as int;
    let c = s.cursor.col as int;
    let (from, to) = match e {
        LineErase::ToEnd => (c, s.cols as int),
        LineErase::ToStart => (0, c + 1),
        LineErase::All => (0, s.cols as int),
    };
    ScreenView {
        grid: s.grid.update(r, erase_cells(s.grid[r], from, to)),
        damage: s.damage.insert(r),
        ..s
    }
}

/// The screen after an erase in the display. Erasing the history empties
/// it and drops the selection, which is counted over it. The alternate
/// screen has no history: while it is shown, erasing the history changes
/// nothing, and the history of the primary screen stays as it is.
pub open spec fn erase_display(s: ScreenView, e: DisplayErase) -> ScreenView {
    let r = s.cursor.row as int;
    let c = s.cursor.col as int;
    let rows = s.rows() as int;
    match e {
        DisplayErase::Below => ScreenView {
            grid: erase_rows(
                s.grid.update(r, erase_cells(s.grid[r], c, s.cols as int)),
                r + 1,
                rows,
            ),
            damage: s.damage.union(row_range(r, rows)),
            ..s
        },
        DisplayErase::Above => ScreenView {
            grid: erase_rows(s.grid.update(r, erase_cells(s.grid[r], 0, c + 1)), 0, r),
            damage: s.damage.union(row_range(0, r + 1)),
            ..s
        },
        DisplayErase::All => ScreenView {
            grid: blank_grid(s.rows(), s.cols),
            damage: all_rows(s.rows()),
            ..s
        },
        DisplayErase::History => if s.modes.alt_screen {
            s
        } else {
            ScreenView { history: Seq::empty(), selection: None, ..s }
        },
    }
}

/// The screen after a switch to the alternate screen (`on`) or back to the
/// primary one. The alternate screen starts empty; the primary grid and its
/// cursor wait, untouched, for the switch back. A switch to the screen that
/// is shown already changes nothing.
pub open spec fn switch_screen(s: ScreenView, on: bool) -> ScreenView {
    if on == s.modes.alt_screen {
        s
    } else if on {
        ScreenView {
            grid: blank_grid(s.rows(), s.cols),
            other: s.grid,
            cursor: Cursor { pending_wrap: false, ..s.cursor },
            saved_cursor: s.cursor,
            modes: Modes { alt_screen: true, ..s.modes },
            selection: None,
            damage: all_rows(s.rows()),
            ..s
        }
    } else {
        ScreenView {
            grid: s.other,
            other: s.grid,
            cursor: s.saved_cursor,
            saved_cursor: s.cursor,
            modes: Modes { alt_screen: false, ..s.modes },
            selection: None,
            damage: all_rows(s.rows()),
            ..s
        }
    }
}

/// The screen after one private mode has been set (`on`) or reset. Codes
/// that are not recognised change nothing.
pub open spec fn mode_one(s: ScreenView, code: u16, on: bool) -> ScreenView {
    if code == 1 {
        ScreenView { modes: Modes { app_cursor: on, ..s.modes }, ..s }
    } else if code == 6 {
        ScreenView {
            modes: Modes { origin: on, ..s.modes },
            cursor: Cursor { row: 0, col: 0, pending_wrap: false, ..s.cursor },
            ..s
        }
    } else if code == 7 {
        ScreenView {
            modes: Modes { auto_wrap: on, ..s.modes },
            cursor: Cursor { pending_wrap: s.cursor.pending_wrap && on, ..s.cursor },
            ..s
        }
    } else if code == 12 {
        ScreenView { cursor: Cursor { blink: on, ..s.cursor }, ..s }
    } else if code == 25 {
        ScreenView { cursor: Cursor { visible: on, ..s.cursor }, ..s }
    } else if code == 66 {
        ScreenView { modes: Modes { app_keypad: on, ..s.modes }, ..s }
    } else if code == 1000 {
        ScreenView {
            modes: Modes {
                mouse: if on { MouseTracking::Click } else { MouseTracking::Off },
                ..s.modes
            },
            ..s
        }
    } else if code == 1002 {
        ScreenView {
            modes: Modes {
                mouse: if on { MouseTracking::Drag } else { MouseTracking::Off },
                ..s.modes
            },
            ..s
        }
    } else if code == 1003 {
        ScreenView {
            modes: Modes {
                mouse: if on { MouseTracking::Motion } else { MouseTracking::Off },
                ..s.modes
            },
            ..s
        }
    } else if code == 1006 {
        ScreenView { modes: Modes { mouse_sgr: on, ..s.modes }, ..s }
    } else if code == 2004 {
        ScreenView { modes: Modes { bracketed_paste: on, ..s.modes }, ..s }
    } else if code == 47 || code == 1047 || code == 1049 {
        switch_screen(s, on)
    } else {
        s
    }
}

/// The screen after the private modes with these codes have been set or
/// reset, in order.
pub open spec fn set_modes(s: ScreenView, codes: Seq<u16>, on: bool) -> ScreenView
    decreases codes.len(),
{
    if codes.len() == 0 {
        s
    } else {
        mode_one(set_modes(s, codes.drop_last(), on), codes.last(), on)
    }
}

/// The screen after the hyperlink for what is printed next has been set.
/// A new target joins the table; when the table is full the link is dropped.
pub open spec fn set_link(s: ScreenView, target: Option<Seq<u8>>) -> ScreenView {
    match target {
        Some(t) => if s.links.len() < MAX_LINKS {
            ScreenView { links: s.links.push(t), link: Some(s.links.len() as u32), ..s }
        } else {
            ScreenView { link: None, ..s }
        },
        None => ScreenView { link: None, ..s },
    }
}

/// The decimal digits of `n`, as bytes.
pub open spec fn decimal(n: nat) -> Seq<u8>
    decreases n,
{
    if n < 10 {
        seq![(0x30 + n) as u8]
    } else {
        decimal(n / 10).push((0x30 + n % 10) as u8)
    }
}

/// The bytes that answer a report request.
pub open spec fn report(s: ScreenView, r: Report) -> Seq<u8> {
    match r {
        Report::Status => seq![0x1Bu8, 0x5B, 0x30, 0x6E],
        Report::CursorPosition => seq![0x1Bu8, 0x5B] + decimal((s.cursor.row + 1) as nat)
            + seq![0x3Bu8] + decimal((s.cursor.col + 1) as nat) + seq![0x52u8],
        Report::DeviceAttributes => seq![0x1Bu8, 0x5B, 0x3F, 0x36, 0x63],
    }
}

/// The screen after an action.
pub open spec fn apply(s: ScreenView, a: ActionView) -> ScreenView {
    match a {
        ActionView::Print(ch) => print(s, ch),
        ActionView::LineFeed => line_feed(s),
        ActionView::CursorMove(m) => ScreenView { cursor: moved(s, m), ..s },
        ActionView::EraseInLine(e) => erase_line(s, e),
        ActionView::EraseInDisplay(e) => erase_display(s, e),
        ActionView::SetSgr(params) => ScreenView { pen: apply_sgr(s.pen, params), ..s },
        ActionView::SetMode { codes, enable } => set_modes(s, codes, enable),
        ActionView::SwitchAlternateScreen(on) => switch_screen(s, on),
        ActionView::SetCursorStyle { shape, blink } => ScreenView {
            cursor: Cursor { shape, blink, ..s.cursor },
            ..s
        },
        ActionView::SetTitle(_) => s,
        ActionView::Bell => s,
        ActionView::SetPaletteColor { index, r, g, b } => ScreenView {
            palette: s.palette.update(index as int, Some((r, g, b))),
            damage: all_rows(s.rows()),
            ..s
        },
        ActionView::RequestReport(_) => s,
        ActionView::SetHyperlink(target) => set_link(s, target),
        ActionView::WriteClipboard(_) => s,
    }
}

/// The red, green and blue of the indexed colour `i` on this screen: what
/// the program has set for it, else the palette's own.
pub open spec fn indexed_rgb(s: ScreenView, i: u8) -> (u8, u8, u8) {
    match s.palette[i as int] {
        Some(rgb) => rgb,
        None => crate::palette::default_rgb(i),
    }
}

/// What an action asks of the surroundings: a title, a bell or a clipboard
/// write is announced to the host, a report is sent to the program; the rest
/// asks nothing.
pub open spec fn effect(s: ScreenView, a: ActionView) -> EffectView {
    match a {
        ActionView::SetTitle(t) => EffectView::Emit(EventView::TitleChanged(t)),
        ActionView::Bell => EffectView::Emit(EventView::BellRung),
        ActionView::WriteClipboard(bytes) => EffectView::Emit(
            EventView::ClipboardWriteRequested(bytes),
        ),
        ActionView::RequestReport(r) => EffectView::Reply(report(s, r)),
        _ => EffectView::Nothing,
    }
}

/// A grid dimension as the screen takes it: at least 1.
pub open spec fn dimension(n: u16) -> nat {
    if n == 0 { 1 } else { n as nat }
}

/// `c` pulled into a grid of `rows` by `cols` cells.
pub open spec fn clamp_cursor(c: Cursor, rows: nat, cols: nat) -> Cursor {
    Cursor {
        row: min(c.row as int, rows - 1) as usize,
        col: min(c.col as int, cols - 1) as usize,
        pending_wrap: false,
        ..c
    }
}

/// The screen after a resize to `rows` by `cols` cells (0 is taken as 1).
/// Rows and cells keep their index; what no longer fits is dropped and what
/// is new is empty. Cursors and selection are pulled inside; every row is
/// damaged.
pub open spec fn resize(s: ScreenView, rows: u16, cols: u16) -> ScreenView {
    let rows = dimension(rows);
    let cols = dimension(cols);
    ScreenView {
        grid: fit_grid(s.grid, rows, cols),
        cols,
        other: fit_grid(s.other, rows, cols),
        cursor: clamp_cursor(s.cursor, rows, cols),
        saved_cursor: clamp_cursor(s.saved_cursor, rows, cols),
        selection: match s.selection {
            Some(sel) => Some(sel.clamp_spec((s.base() + rows) as int, cols as int)),
            None => None,
        },
        damage: all_rows(rows),
        ..s
    }
}

/// The screen after the host has selected the cells between two buffer
/// positions, given in any order and pulled into the buffer.
pub open spec fn select(
    s: ScreenView,
    a: crate::selection::Point,
    b: crate::selection::Point,
    mode: crate::selection::SelectionMode,
) -> ScreenView {
    ScreenView {
        selection: Some(
            crate::selection::between(a, b, mode).clamp_spec(
                (s.base() + s.rows()) as int,
                s.cols as int,
            ),
        ),
        damage: all_rows(s.rows()),
        ..s
    }
}

/// Whether a cell is part of a word: it shows a character that is no space.
pub open spec fn is_word_cell(cell: Cell) -> bool {
    cell.glyph != Glyph::Empty && cell.glyph != Glyph::Char(' ')
}

/// The column at which the word that reaches up to column `col` starts:
/// the least column from which all cells up to `col` are word cells.
pub open spec fn word_start(row: Seq<Cell>, col: int) -> int
    decreases col,
{
    if 0 < col <= row.len() && is_word_cell(row[col - 1]) {
        word_start(row, col - 1)
    } else {
        col
    }
}

/// The column at which the word that begins at column `col` ends: the
/// first column at or after `col` whose cell is no word cell, or the end of
/// the row.
pub open spec fn word_end(row: Seq<Cell>, col: int) -> int
    decreases row.len() - col,
{
    if 0 <= col < row.len() && is_word_cell(row[col]) {
        word_end(row, col + 1)
    } else {
        col
    }
}

/// The screen after the host has selected the word at grid row `r`, column
/// `c`: the longest stretch of word cells around that cell, or the cell
/// alone if it is no word cell. A position outside the grid selects nothing
/// and changes nothing.
pub open spec fn select_word(s: ScreenView, r: int, c: int) -> ScreenView {
    if 0 <= r < s.rows() && 0 <= c < s.cols {
        let row = s.grid[r];
        let (from, to) = if is_word_cell(row[c]) {
            (word_start(row, c), word_end(row, c))
        } else {
            (c, c + 1)
        };
        ScreenView {
            selection: Some(
                Selection {
                    start: crate::selection::Point {
                        row: (s.base() + r) as usize,
                        col: from as usize,
                    },
                    end: crate::selection::Point { row: (s.base() + r) as usize, col: to as usize },
                    mode: crate::selection::SelectionMode::Word,
                },
            ),
            damage: all_rows(s.rows()),
            ..s
        }
    } else {
        s
    }
}

/// Selecting a word keeps the screen's invariant.
pub proof fn lemma_select_word_wf(s: ScreenView, r: int, c: int)
    requires
        s.wf(),
    ensures
        select_word(s, r, c).wf(),
{
    if 0 <= r < s.rows() && 0 <= c < s.cols {
        if is_word_cell(s.grid[r][c]) {
            lemma_word_span(s.grid[r], c);
        }
    }
}

/// A word is a stretch of word cells that cannot be made longer.
pub proof fn lemma_word_span(row: Seq<Cell>, c: int)
    requires
        0 <= c < row.len(),
        is_word_cell(row[c]),
    ensures
        0 <= word_start(row, c) <= c < word_end(row, c) <= row.len(),
        forall|k: int| word_start(row, c) <= k < word_end(row, c) ==> is_word_cell(#[trigger] row[k]),
        word_start(row, c) == 0 || !is_word_cell(row[word_start(row, c) - 1]),
        word_end(row, c) == row.len() || !is_word_cell(row[word_end(row, c)]),
{
    lemma_word_start(row, c);
    lemma_word_end(row, c);
}

/// The cells from the start of a word up to where it was looked for are
/// word cells, and the cell before them is none.
pub proof fn lemma_word_start(row: Seq<Cell>, c: int)
    requires
        0 <= c <= row.len(),
    ensures
        0 <= word_start(row, c) <= c,
        forall|k: int| word_start(row, c) <= k < c ==> is_word_cell(#[trigger] row[k]),
        word_start(row, c) == 0 || !is_word_cell(row[word_start(row, c) - 1]),
    decreases c,
{
    if 0 < c && is_word_cell(row[c - 1]) {
        lemma_word_start(row, c - 1);
    }
}

/// The cells from where a word was looked for up to its end are word cells,
/// and the cell after them is none.
pub proof fn lemma_word_end(row: Seq<Cell>, c: int)
    requires
        0 <= c <= row.len(),
    ensures
        c <= word_end(row, c) <= row.len(),
        forall|k: int| c <= k < word_end(row, c) ==> is_word_cell(#[trigger] row[k]),
        word_end(row, c) == row.len() || !is_word_cell(row[word_end(row, c)]),
    decreases row.len() - c,
{
    if c < row.len() && is_word_cell(row[c]) {
        lemma_word_end(row, c + 1);
    }
}

/// The text that a cell contributes: a space where it is empty, nothing
/// where it is the right half of a wide character.
pub open spec fn cell_text(cell: Cell) -> Seq<char> {
    match cell.glyph {
        Glyph::Empty => seq![' '],
        Glyph::Char(c) => seq![c],
        Glyph::Continuation => Seq::empty(),
    }
}

/// The text of some cells, left to right.
pub open spec fn cells_text(cells: Seq<Cell>) -> Seq<char>
    decreases cells.len(),
{
    if cells.len() == 0 {
        Seq::empty()
    } else {
        cells_text(cells.drop_last()) + cell_text(cells.last())
    }
}

/// Row `r` of the buffer: the history rows that lie above the grid come
/// first, then the rows of the grid.
pub open spec fn buffer_row(s: ScreenView, r: int) -> Seq<Cell> {
    if r < s.base() { s.history[r] } else { s.grid[r - s.base()] }
}

/// The columns `from..to` of a buffer row of `width` cells that a selection
/// holds, if the row is one of its rows.
pub open spec fn covered(sel: Selection, r: int, width: int) -> (int, int) {
    match sel.mode {
        crate::selection::SelectionMode::Linear | crate::selection::SelectionMode::Word => (
            if r == sel.start.row { min(sel.start.col as int, width) } else { 0 },
            if r == sel.end.row { min(sel.end.col as int, width) } else { width },
        ),
        crate::selection::SelectionMode::Block => (
            min(sel.start.col as int, width),
            min(sel.end.col as int, width),
        ),
        crate::selection::SelectionMode::Line => (0, width),
    }
}

/// The text that a selection holds in buffer row `r`.
pub open spec fn line_text(s: ScreenView, sel: Selection, r: int) -> Seq<char> {
    let row = buffer_row(s, r);
    let (from, to) = covered(sel, r, row.len() as int);
    cells_text(row.subrange(from, max(from, to)))
}

/// The text that a selection holds in its rows up to buffer row `upto`,
/// with a line feed between rows.
pub open spec fn text_upto(s: ScreenView, sel: Selection, upto: int) -> Seq<char>
    decreases upto - sel.start.row,
{
    if upto < sel.start.row {
        Seq::empty()
    } else if upto == sel.start.row {
        line_text(s, sel, upto)
    } else {
        text_upto(s, sel, upto - 1) + seq!['\n'] + line_text(s, sel, upto)
    }
}

/// The text that the selection holds; nothing without a selection.
pub open spec fn selected_text(s: ScreenView) -> Seq<char> {
    match s.selection {
        Some(sel) => text_upto(s, sel, sel.end.row as int),
        None => Seq::empty(),
    }
}

/// The screen without a selection.
pub open spec fn deselect(s: ScreenView) -> ScreenView {
    ScreenView { selection: None, damage: all_rows(s.rows()), ..s }
}

/// A fresh screen of `rows` by `cols` cells that keeps up to `capacity`
/// history rows (at most `MAX_HISTORY`).
pub open spec fn fresh(rows: u16, cols: u16, capacity: usize) -> ScreenView {
    ScreenView {
        grid: blank_grid(dimension(rows), dimension(cols)),
        cols: dimension(cols),
        other: blank_grid(dimension(rows), dimension(cols)),
        history: Seq::empty(),
        capacity: min(capacity as int, MAX_HISTORY as int) as nat,
        cursor: crate::modes::initial_cursor(),
        saved_cursor: crate::modes::initial_cursor(),
        pen: crate::cell::plain_style(),
        link: None,
        links: Seq::empty(),
        modes: crate::modes::initial_modes(),
        damage: all_rows(dimension(rows)),
        selection: None,
        palette: Seq::new(PALETTE_SIZE as nat, |i: int| None),
    }
}

/// Scrolling keeps the screen's invariant.
pub proof fn lemma_scroll_wf(s: ScreenView)
    requires
        s.wf(),
    ensures
        scroll(s).wf(),
        scroll(s).rows() == s.rows(),
        scroll(s).cols == s.cols,
{
    let t = scroll(s);
    assert(rect(t.grid, s.rows(), s.cols));
    if let Some(sel) = s.selection {
        crate::selection::lemma_shift_within(sel, (s.base() + s.rows()) as int, s.cols as int);
    }
}

/// A line feed keeps the screen's invariant.
pub proof fn lemma_line_feed_wf(s: ScreenView)
    requires
        s.wf(),
    ensures
        line_feed(s).wf(),
        line_feed(s).rows() == s.rows(),
        line_feed(s).cols == s.cols,
{
    if s.cursor.row + 1 >= s.rows() {
        lemma_scroll_wf(ScreenView { cursor: Cursor { pending_wrap: false, ..s.cursor }, ..s });
    }
}

/// Making room keeps the screen's invariant and leaves the cursor where the
/// character fits.
pub proof fn lemma_make_room_wf(s: ScreenView, ch: char)
    requires
        s.wf(),
        glyph_width(ch) <= s.cols,
    ensures
        make_room(s, ch).wf(),
        make_room(s, ch).rows() == s.rows(),
        make_room(s, ch).cols == s.cols,
        make_room(s, ch).cursor.col + glyph_width(ch) <= s.cols,
        !make_room(s, ch).cursor.pending_wrap,
{
    lemma_line_feed_wf(carriage_return(s));
}

/// Writing a character where it fits keeps the screen's invariant.
pub proof fn lemma_place_wf(t: ScreenView, ch: char)
    requires
        t.wf(),
        t.cursor.col + glyph_width(ch) <= t.cols,
    ensures
        place(t, ch).wf(),
        place(t, ch).rows() == t.rows(),
        place(t, ch).cols == t.cols,
{
    let g = write_at(t, t.cursor.row as int, t.cursor.col as int, ch);
    assert(rect(g, t.rows(), t.cols));
}

/// Printing keeps the screen's invariant.
pub proof fn lemma_print_wf(s: ScreenView, ch: char)
    requires
        s.wf(),
    ensures
        print(s, ch).wf(),
        print(s, ch).rows() == s.rows(),
        print(s, ch).cols == s.cols,
{
    if glyph_width(ch) <= s.cols {
        lemma_make_room_wf(s, ch);
        lemma_place_wf(make_room(s, ch), ch);
    }
}

/// Switching screens keeps the screen's invariant.
pub proof fn lemma_switch_wf(s: ScreenView, on: bool)
    requires
        s.wf(),
    ensures
        switch_screen(s, on).wf(),
        switch_screen(s, on).rows() == s.rows(),
        switch_screen(s, on).cols == s.cols,
{
}

/// Setting or resetting a mode keeps the screen's invariant.
pub proof fn lemma_mode_one_wf(s: ScreenView, code: u16, on: bool)
    requires
        s.wf(),
    ensures
        mode_one(s, code, on).wf(),
        mode_one(s, code, on).rows() == s.rows(),
        mode_one(s, code, on).cols == s.cols,
{
    lemma_switch_wf(s, on);
}

/// Setting or resetting modes keeps the screen's invariant.
pub proof fn lemma_set_modes_wf(s: ScreenView, codes: Seq<u16>, on: bool)
    requires
        s.wf(),
    ensures
        set_modes(s, codes, on).wf(),
        set_modes(s, codes, on).rows() == s.rows(),
        set_modes(s, codes, on).cols == s.cols,
    decreases codes.len(),
{
    if codes.len() > 0 {
        lemma_set_modes_wf(s, codes.drop_last(), on);
        lemma_mode_one_wf(set_modes(s, codes.drop_last(), on), codes.last(), on);
    }
}

/// An erase keeps the screen's invariant.
pub proof fn lemma_erase_wf(s: ScreenView)
    requires
        s.wf(),
    ensures
        forall|e: LineErase| #[trigger] erase_line(s, e).wf(),
        forall|e: DisplayErase| #[trigger] erase_display(s, e).wf(),
{
    assert forall|e: LineErase| #[trigger] erase_line(s, e).wf() by {
        assert(rect(erase_line(s, e).grid, s.rows(), s.cols));
    }
    assert forall|e: DisplayErase| #[trigger] erase_display(s, e).wf() by {
        assert(rect(erase_display(s, e).grid, s.rows(), s.cols));
    }
}

/// Every action keeps the screen's invariant and the size of the grid:
/// whatever is applied, the cursor stays inside the grid and all rows keep
/// the same width.
pub proof fn lemma_apply_wf(s: ScreenView, a: ActionView)
    requires
        s.wf(),
    ensures
        apply(s, a).wf(),
        apply(s, a).rows() == s.rows(),
        apply(s, a).cols == s.cols,
{
    match a {
        ActionView::Print(ch) => lemma_print_wf(s, ch),
        ActionView::LineFeed => lemma_line_feed_wf(s),
        ActionView::CursorMove(m) => {},
        ActionView::EraseInLine(e) => lemma_erase_wf(s),
        ActionView::EraseInDisplay(e) => lemma_erase_wf(s),
        ActionView::SetMode { codes, enable } => lemma_set_modes_wf(s, codes, enable),
        ActionView::SwitchAlternateScreen(on) => lemma_switch_wf(s, on),
        _ => {},
    }
}

/// A resize gives a well-formed screen of the size asked for.
pub proof fn lemma_resize_wf(s: ScreenView, rows: u16, cols: u16)
    requires
        s.wf(),
    ensures
        resize(s, rows, cols).wf(),
        resize(s, rows, cols).rows() == dimension(rows),
        resize(s, rows, cols).cols == dimension(cols),
{
    let t = resize(s, rows, cols);
    assert(rect(t.grid, dimension(rows), dimension(cols)));
    assert(rect(t.other, dimension(rows), dimension(cols)));
}

/// Resizing twice to the same size gives the same screen as resizing once.
pub proof fn lemma_resize_idempotent(s: ScreenView, rows: u16, cols: u16)
    requires
        s.wf(),
    ensures
        resize(resize(s, rows, cols), rows, cols) == resize(s, rows, cols),
{
    let once = resize(s, rows, cols);
    let twice = resize(once, rows, cols);
    lemma_resize_wf(s, rows, cols);
    assert(twice.grid =~~= once.grid);
    assert(twice.other =~~= once.other);
    assert(twice.selection == once.selection);
}

} // verus!
