//! The screen model: the grid, the history, the cursor and the modes, and
//! the actions applied to them.

use vstd::prelude::*;
use crate::action::{Action, DisplayErase, Effect, Event, LineErase, Motion, Report};
use crate::cell::{Cell, Glyph, Style, glyph_width, wide};
use crate::damage::{Damage, all_rows};
use crate::grid::{Grid, blank_grid};
use crate::model::{
    MAX_DIM, MAX_HISTORY, MAX_LINKS, PALETTE_SIZE, ScreenView, apply, buffer_row, carriage_return,
    cell_text, cells_text, covered, decimal, is_word_cell, lemma_select_word_wf, line_text,
    select_word, selected_text, text_upto, word_end, word_start, deselect, effect, erase_display,
    erase_line, fresh, lemma_erase_wf, lemma_line_feed_wf, lemma_make_room_wf, lemma_mode_one_wf,
    lemma_place_wf, lemma_resize_wf, place, lemma_scroll_wf, lemma_switch_wf, line_feed, make_room,
    mode_one, moved, print, report, resize, scroll, select, set_link, set_modes, switch_screen,
    write_at,
};
use crate::modes::{Cursor, Modes, MouseTracking};
use crate::scrollback::Scrollback;
use crate::selection::{Point, Selection, SelectionMode};
use crate::sgr::restyle;

verus! {

/// The screen model. Its view is a [`ScreenView`].
pub struct Screen {
    grid: Grid,
    other: Grid,
    history: Scrollback,
    cursor: Cursor,
    saved_cursor: Cursor,
    pen: Style,
    link: Option<u32>,
    links: Vec<Vec<u8>>,
    modes: Modes,
    damage: Damage,
    selection: Option<Selection>,
    palette: Vec<Option<(u8, u8, u8)>>,
}

impl View for Screen {
    type V = ScreenView;

    closed spec fn view(&self) -> ScreenView {
        ScreenView {
            grid: self.grid@,
            cols: self.grid.width(),
            other: self.other@,
            history: self.history@,
            capacity: self.history.capacity(),
            cursor: self.cursor,
            saved_cursor: self.saved_cursor,
            pen: self.pen,
            link: self.link,
            links: Seq::new(self.links@.len(), |i: int| self.links@[i]@),
            modes: self.modes,
            damage: self.damage@,
            selection: self.selection,
            palette: self.palette@,
        }
    }
}

impl Screen {
    /// What the representation adds to the invariant of the view.
    pub closed spec fn inv(&self) -> bool {
        &&& self.grid.wf()
        &&& self.other.wf()
        &&& self.other.width() == self.grid.width()
        &&& self.history.wf()
        &&& self.damage.height() == self.grid.height()
    }

    /// The screen's invariant. Every constructor gives it and every method
    /// keeps it.
    pub open spec fn wf(&self) -> bool {
        self.inv() && self@.wf()
    }

    /// A fresh screen of `rows` by `cols` cells (0 is taken as 1) that keeps
    /// up to `capacity` history rows, at most `MAX_HISTORY`.
    pub fn new(rows: u16, cols: u16, capacity: usize) -> (s: Screen)
        ensures
            s.wf(),
            s@ == fresh(rows, cols, capacity),
    {
        let capacity = if capacity > MAX_HISTORY { MAX_HISTORY } else { capacity };
        let grid = Grid::new(rows as usize, cols as usize);
        let other = Grid::new(rows as usize, cols as usize);
        let mut palette: Vec<Option<(u8, u8, u8)>> = Vec::new();
        let mut i: usize = 0;
        while i < PALETTE_SIZE
            invariant
                i <= PALETTE_SIZE,
                palette@.len() == i,
                forall|k: int| 0 <= k < i ==> palette@[k] == None::<(u8, u8, u8)>,
            decreases PALETTE_SIZE - i,
        {
            palette.push(None);
            i += 1;
        }
        let damage = Damage::new(grid.rows());
        let s = Screen {
            grid,
            other,
            history: Scrollback::new(capacity),
            cursor: Cursor::initial(),
            saved_cursor: Cursor::initial(),
            pen: Style::plain(),
            link: None,
            links: Vec::new(),
            modes: Modes::initial(),
            damage,
            selection: None,
            palette,
        };
        assert(s@.links =~= Seq::<Seq<u8>>::empty());
        assert(s@.palette =~= fresh(rows, cols, capacity).palette);
        assert(s@ =~= fresh(rows, cols, capacity));
        s
    }

    /// The number of rows.
    pub fn rows(&self) -> (n: usize)
        requires
            self.wf(),
        ensures
            n == self@.rows(),
            1 <= n <= MAX_DIM,
    {
        self.grid.rows()
    }

    /// The number of columns.
    pub fn cols(&self) -> (n: usize)
        requires
            self.wf(),
        ensures
            n == self@.cols,
            1 <= n <= MAX_DIM,
    {
        self.grid.cols()
    }

    /// The cursor.
    pub fn cursor(&self) -> (c: Cursor)
        ensures
            c == self@.cursor,
    {
        self.cursor
    }

    /// The mode flags.
    pub fn modes(&self) -> (m: Modes)
        ensures
            m == self@.modes,
    {
        self.modes
    }

    /// The pen: the style given to what is printed.
    pub fn pen(&self) -> (p: Style)
        ensures
            p == self@.pen,
    {
        self.pen
    }

    /// The selection.
    pub fn selection(&self) -> (s: Option<Selection>)
        ensures
            s == self@.selection,
    {
        self.selection
    }

    /// The cell at row `r`, column `c` of the shown grid, or `None` outside it.
    pub fn cell(&self, r: usize, c: usize) -> (cell: Option<Cell>)
        requires
            self.wf(),
        ensures
            cell == (if r < self@.rows() && c < self@.cols {
                Some(self@.grid[r as int][c as int])
            } else {
                None
            }),
    {
        self.grid.cell(r, c)
    }

    /// Row `r` of the shown grid.
    pub fn row(&self, r: usize) -> (row: &Vec<Cell>)
        requires
            self.wf(),
            r < self@.rows(),
        ensures
            row@ == self@.grid[r as int],
    {
        self.grid.row(r)
    }

    /// The number of history rows kept.
    pub fn history_len(&self) -> (n: usize)
        requires
            self.wf(),
        ensures
            n == self@.history.len(),
            n <= MAX_HISTORY,
    {
        self.history.len()
    }

    /// The `i`-th oldest history row.
    pub fn history_row(&self, i: usize) -> (row: &Vec<Cell>)
        requires
            self.wf(),
            i < self@.history.len(),
        ensures
            row@ == self@.history[i as int],
    {
        self.history.get(i)
    }

    /// Whether the cells of row `r` changed since the last draw.
    pub fn is_dirty(&self, r: usize) -> (b: bool)
        ensures
            b == self@.damage.contains(r as int),
    {
        self.damage.is_dirty(r)
    }

    /// The palette colour that the program has set for `index`, if any.
    pub fn palette_color(&self, index: u8) -> (c: Option<(u8, u8, u8)>)
        requires
            self.wf(),
        ensures
            c == self@.palette[index as int],
    {
        self.palette[index as usize]
    }

    /// The red, green and blue of the indexed colour `index`: what the
    /// program has set for it, else the palette's own.
    pub fn indexed_rgb(&self, index: u8) -> (rgb: (u8, u8, u8))
        requires
            self.wf(),
        ensures
            rgb == crate::model::indexed_rgb(self@, index),
    {
        match self.palette[index as usize] {
            Some(rgb) => rgb,
            None => crate::palette::palette_rgb(index),
        }
    }

    /// The target of hyperlink `id`, or `None` if there is no such link.
    pub fn link_target(&self, id: u32) -> (t: Option<&Vec<u8>>)
        ensures
            match t {
                Some(t) => id < self@.links.len() && t@ == self@.links[id as int],
                None => id >= self@.links.len(),
            },
    {
        if (id as usize) < self.links.len() {
            Some(&self.links[id as usize])
        } else {
            None
        }
    }

    /// The number of history rows above the shown grid in the buffer.
    pub fn base(&self) -> (n: usize)
        requires
            self.wf(),
        ensures
            n == self@.base(),
            n <= MAX_HISTORY,
    {
        if self.modes.alt_screen { 0 } else { self.history.len() }
    }

    /// Marks every row clean.
    pub fn clear_damage(&mut self)
        requires
            old(self).wf(),
        ensures
            final(self).wf(),
            final(self)@ == (ScreenView { damage: Set::empty(), ..old(self)@ }),
    {
        self.damage.clear();
        assert(self@ =~= (ScreenView { damage: Set::empty(), ..old(self)@ }));
    }

    fn scroll(&mut self)
        requires
            old(self).wf(),
        ensures
            final(self).wf(),
            final(self)@ == scroll(old(self)@),
    {
        proof {
            lemma_scroll_wf(self@);
        }
        let top = self.grid.scroll_up();
        let lost = if self.modes.alt_screen {
            true
        } else {
            let full = self.history.len() >= self.history.cap();
            self.history.push(top);
            full
        };
        if lost {
            if let Some(sel) = self.selection {
                self.selection = sel.shift_up();
            }
        }
        self.damage.mark_all();
        assert(self@ =~= scroll(old(self)@));
    }

    fn line_feed(&mut self)
        requires
            old(self).wf(),
        ensures
            final(self).wf(),
            final(self)@ == line_feed(old(self)@),
    {
        proof {
            lemma_line_feed_wf(self@);
        }
        let c = self.cursor;
        if c.row + 1 < self.grid.rows() {
            self.cursor = Cursor { row: c.row + 1, pending_wrap: false, ..c };
        } else {
            self.cursor = Cursor { pending_wrap: false, ..c };
            self.scroll();
        }
    }

    fn make_room(&mut self, ch: char, w: usize)
        requires
            old(self).wf(),
            w == glyph_width(ch),
            w <= old(self)@.cols,
        ensures
            final(self).wf(),
            final(self)@ == make_room(old(self)@, ch),
    {
        proof {
            lemma_make_room_wf(self@, ch);
            lemma_line_feed_wf(carriage_return(self@));
        }
        let cols = self.grid.cols();
        let c = self.cursor;
        if c.pending_wrap || (w > cols - c.col && self.modes.auto_wrap) {
            self.cursor = Cursor { col: 0, pending_wrap: false, ..c };
            self.line_feed();
        } else if w > cols - c.col {
            self.cursor = Cursor { col: cols - w, ..c };
        }
    }

    fn place(&mut self, ch: char, is_wide: bool)
        requires
            old(self).wf(),
            is_wide == crate::cell::is_wide(ch),
            old(self)@.cursor.col + glyph_width(ch) <= old(self)@.cols,
        ensures
            final(self).wf(),
            final(self)@ == place(old(self)@, ch),
    {
        let ghost t = self@;
        let w: usize = if is_wide { 2 } else { 1 };
        let cols = self.grid.cols();
        let r = self.cursor.row;
        let c = self.cursor.col;
        self.write_glyph(r, c, ch, is_wide);
        let at_end = w >= cols - c;
        let before = self.cursor;
        self.cursor = Cursor {
            col: if at_end { cols - 1 } else { c + w },
            pending_wrap: at_end && self.modes.auto_wrap,
            ..before
        };
        self.damage.mark(r);
        proof {
            lemma_place_wf(t, ch);
        }
    }

    fn write_glyph(&mut self, r: usize, c: usize, ch: char, is_wide: bool)
        requires
            old(self).wf(),
            is_wide == crate::cell::is_wide(ch),
            r < old(self)@.rows(),
            c + glyph_width(ch) <= old(self)@.cols,
        ensures
            final(self).inv(),
            final(self)@ == (ScreenView {
                grid: write_at(old(self)@, r as int, c as int, ch),
                ..old(self)@
            }),
    {
        let ghost g0 = self.grid@;
        let lead = Cell { glyph: Glyph::Char(ch), style: self.pen, link: self.link };
        self.grid.put(r, c, lead);
        if is_wide {
            let tail = Cell { glyph: Glyph::Continuation, style: self.pen, link: self.link };
            self.grid.put(r, c + 1, tail);
            assert(self.grid@ =~= g0.update(
                r as int,
                g0[r as int].update(c as int, lead).update(c + 1, tail),
            ));
        }
        assert(self.grid@ == write_at(old(self)@, r as int, c as int, ch));
    }

    fn print(&mut self, ch: char)
        requires
            old(self).wf(),
        ensures
            final(self).wf(),
            final(self)@ == print(old(self)@, ch),
    {
        let is_wide = wide(ch);
        let w: usize = if is_wide { 2 } else { 1 };
        if w <= self.grid.cols() {
            proof {
                lemma_make_room_wf(self@, ch);
            }
            self.make_room(ch, w);
            self.place(ch, is_wide);
        }
    }

    fn move_cursor(&mut self, m: Motion)
        requires
            old(self).wf(),
        ensures
            final(self).wf(),
            final(self)@ == (ScreenView { cursor: moved(old(self)@, m), ..old(self)@ }),
    {
        let rows = self.grid.rows();
        let cols = self.grid.cols();
        let r = self.cursor.row;
        let c = self.cursor.col;
        let (row, col): (usize, usize) = match m {
            Motion::Up(n) => (if n as usize > r { 0 } else { r - n as usize }, c),
            Motion::Down(n) => (if n as usize >= rows - r { rows - 1 } else { r + n as usize }, c),
            Motion::Forward(n) => (
                r,
                if n as usize >= cols - c { cols - 1 } else { c + n as usize },
            ),
            Motion::Back(n) => (r, if n as usize > c { 0 } else { c - n as usize }),
            Motion::NextLine(n) => (
                if n as usize >= rows - r { rows - 1 } else { r + n as usize },
                0,
            ),
            Motion::PrevLine(n) => (if n as usize > r { 0 } else { r - n as usize }, 0),
            Motion::Column(x) => (r, if x as usize >= cols { cols - 1 } else { x as usize }),
            Motion::Row(y) => (if y as usize >= rows { rows - 1 } else { y as usize }, c),
            Motion::Position { row, col } => (
                if row as usize >= rows { rows - 1 } else { row as usize },
                if col as usize >= cols { cols - 1 } else { col as usize },
            ),
            Motion::CarriageReturn => (r, 0),
            Motion::Backspace => (r, if c == 0 { 0 } else { c - 1 }),
            Motion::Tab(n) => {
                if n == 0 {
                    (r, c)
                } else {
                    let target: usize = (c / 8 + n as usize) * 8;
                    (r, if target >= cols { cols - 1 } else { target })
                }
            },
            Motion::BackTab(n) => {
                if n == 0 {
                    (r, c)
                } else {
                    let stops: usize = (c + 7) / 8;
                    (r, if n as usize >= stops { 0 } else { (stops - n as usize) * 8 })
                }
            },
        };
        let before = self.cursor;
        self.cursor = Cursor { row, col, pending_wrap: false, ..before };
    }
}

impl Screen {
    fn erase_line(&mut self, e: LineErase)
        requires
            old(self).wf(),
        ensures
            final(self).wf(),
            final(self)@ == erase_line(old(self)@, e),
    {
        proof {
            lemma_erase_wf(self@);
        }
        let cols = self.grid.cols();
        let r = self.cursor.row;
        let c = self.cursor.col;
        match e {
            LineErase::ToEnd => self.grid.erase(r, c, cols),
            LineErase::ToStart => self.grid.erase(r, 0, c + 1),
            LineErase::All => self.grid.erase(r, 0, cols),
        }
        self.damage.mark(r);
    }

    fn erase_below(&mut self)
        requires
            old(self).wf(),
        ensures
            final(self).wf(),
            final(self)@ == erase_display(old(self)@, DisplayErase::Below),
    {
        proof {
            lemma_erase_wf(self@);
        }
        let rows = self.grid.rows();
        let r = self.cursor.row;
        self.grid.erase(r, self.cursor.col, self.grid.cols());
        self.grid.erase_rows(r + 1, rows);
        self.damage.mark_range(r, rows);
        assert(self@.damage =~= erase_display(old(self)@, DisplayErase::Below).damage);
    }

    fn erase_above(&mut self)
        requires
            old(self).wf(),
        ensures
            final(self).wf(),
            final(self)@ == erase_display(old(self)@, DisplayErase::Above),
    {
        proof {
            lemma_erase_wf(self@);
        }
        let r = self.cursor.row;
        self.grid.erase(r, 0, self.cursor.col + 1);
        self.grid.erase_rows(0, r);
        self.damage.mark_range(0, r + 1);
        assert(self@.damage =~= erase_display(old(self)@, DisplayErase::Above).damage);
    }

    fn erase_all(&mut self)
        requires
            old(self).wf(),
        ensures
            final(self).wf(),
            final(self)@ == erase_display(old(self)@, DisplayErase::All),
    {
        proof {
            lemma_erase_wf(self@);
        }
        self.grid.erase_rows(0, self.grid.rows());
        self.damage.mark_all();
        assert(self@.grid =~~= blank_grid(old(self)@.rows(), old(self)@.cols));
    }

    fn erase_history(&mut self)
        requires
            old(self).wf(),
        ensures
            final(self).wf(),
            final(self)@ == erase_display(old(self)@, DisplayErase::History),
    {
        proof {
            lemma_erase_wf(self@);
        }
        if !self.modes.alt_screen {
            self.history.clear();
            self.selection = None;
        }
    }

    fn erase_display(&mut self, e: DisplayErase)
        requires
            old(self).wf(),
        ensures
            final(self).wf(),
            final(self)@ == erase_display(old(self)@, e),
    {
        match e {
            DisplayErase::Below => self.erase_below(),
            DisplayErase::Above => self.erase_above(),
            DisplayErase::All => self.erase_all(),
            DisplayErase::History => self.erase_history(),
        }
    }

    fn set_pen(&mut self, params: &Vec<u16>)
        requires
            old(self).wf(),
        ensures
            final(self).wf(),
            final(self)@ == (ScreenView {
                pen: crate::sgr::apply_sgr(old(self)@.pen, params@),
                ..old(self)@
            }),
    {
        self.pen = restyle(self.pen, params);
    }

    fn set_cursor_style(&mut self, shape: crate::modes::CursorShape, blink: bool)
        requires
            old(self).wf(),
        ensures
            final(self).wf(),
            final(self)@ == (ScreenView {
                cursor: Cursor { shape, blink, ..old(self)@.cursor },
                ..old(self)@
            }),
    {
        let c = self.cursor;
        self.cursor = Cursor { shape, blink, ..c };
    }

    fn switch_screen(&mut self, on: bool)
        requires
            old(self).wf(),
        ensures
            final(self).wf(),
            final(self)@ == switch_screen(old(self)@, on),
    {
        proof {
            lemma_switch_wf(self@, on);
        }
        if on == self.modes.alt_screen {
            return ;
        }
        let rows = self.grid.rows();
        core::mem::swap(&mut self.grid, &mut self.other);
        let c = self.cursor;
        if on {
            self.grid.erase_rows(0, rows);
            assert(self@.grid =~~= blank_grid(old(self)@.rows(), old(self)@.cols));
            self.saved_cursor = c;
            self.cursor = Cursor { pending_wrap: false, ..c };
        } else {
            self.cursor = self.saved_cursor;
            self.saved_cursor = c;
        }
        let m = self.modes;
        self.modes = Modes { alt_screen: on, ..m };
        self.selection = None;
        self.damage.mark_all();
    }

    fn mode_one(&mut self, code: u16, on: bool)
        requires
            old(self).wf(),
        ensures
            final(self).wf(),
            final(self)@ == mode_one(old(self)@, code, on),
    {
        proof {
            lemma_mode_one_wf(self@, code, on);
        }
        let m = self.modes;
        let c = self.cursor;
        if code == 1 {
            self.modes = Modes { app_cursor: on, ..m };
        } else if code == 6 {
            self.modes = Modes { origin: on, ..m };
            self.cursor = Cursor { row: 0, col: 0, pending_wrap: false, ..c };
        } else if code == 7 {
            self.modes = Modes { auto_wrap: on, ..m };
            self.cursor = Cursor { pending_wrap: c.pending_wrap && on, ..c };
        } else if code == 12 {
            self.cursor = Cursor { blink: on, ..c };
        } else if code == 25 {
            self.cursor = Cursor { visible: on, ..c };
        } else if code == 66 {
            self.modes = Modes { app_keypad: on, ..m };
        } else if code == 1000 {
            self.modes = Modes {
                mouse: if on { MouseTracking::Click } else { MouseTracking::Off },
                ..m
            };
        } else if code == 1002 {
            self.modes = Modes {
                mouse: if on { MouseTracking::Drag } else { MouseTracking::Off },
                ..m
            };
        } else if code == 1003 {
            self.modes = Modes {
                mouse: if on { MouseTracking::Motion } else { MouseTracking::Off },
                ..m
            };
        } else if code == 1006 {
            self.modes = Modes { mouse_sgr: on, ..m };
        } else if code == 2004 {
            self.modes = Modes { bracketed_paste: on, ..m };
        } else if code == 47 || code == 1047 || code == 1049 {
            self.switch_screen(on);
        }
    }

    fn set_modes(&mut self, codes: &Vec<u16>, on: bool)
        requires
            old(self).wf(),
        ensures
            final(self).wf(),
            final(self)@ == set_modes(old(self)@, codes@, on),
    {
        let mut i: usize = 0;
        assert(codes@.take(0) =~= Seq::<u16>::empty());
        while i < codes.len()
            invariant
                i <= codes.len(),
                self.wf(),
                self@ == set_modes(old(self)@, codes@.take(i as int), on),
            decreases codes.len() - i,
        {
            assert(codes@.take(i + 1).drop_last() =~= codes@.take(i as int));
            self.mode_one(codes[i], on);
            i += 1;
        }
        assert(codes@.take(i as int) =~= codes@);
    }

    fn set_link(&mut self, target: Option<Vec<u8>>)
        requires
            old(self).wf(),
        ensures
            final(self).wf(),
            final(self)@ == set_link(
                old(self)@,
                match target {
                    Some(t) => Some(t@),
                    None => None,
                },
            ),
    {
        match target {
            Some(t) => {
                if self.links.len() < MAX_LINKS {
                    let id = self.links.len() as u32;
                    self.links.push(t);
                    self.link = Some(id);
                    assert(self@.links =~= old(self)@.links.push(t@));
                } else {
                    self.link = None;
                }
            },
            None => {
                self.link = None;
            },
        }
    }

    fn set_palette(&mut self, index: u8, rgb: (u8, u8, u8))
        requires
            old(self).wf(),
        ensures
            final(self).wf(),
            final(self)@ == (ScreenView {
                palette: old(self)@.palette.update(index as int, Some(rgb)),
                damage: all_rows(old(self)@.rows()),
                ..old(self)@
            }),
    {
        self.palette[index as usize] = Some(rgb);
        self.damage.mark_all();
    }

    fn report(&self, r: Report) -> (bytes: Vec<u8>)
        requires
            self.wf(),
        ensures
            bytes@ == report(self@, r),
    {
        let mut out: Vec<u8> = Vec::new();
        out.push(0x1B);
        out.push(0x5B);
        match r {
            Report::Status => {
                out.push(0x30);
                out.push(0x6E);
            },
            Report::CursorPosition => {
                push_decimal(&mut out, self.cursor.row + 1);
                out.push(0x3B);
                push_decimal(&mut out, self.cursor.col + 1);
                out.push(0x52);
            },
            Report::DeviceAttributes => {
                out.push(0x3F);
                out.push(0x36);
                out.push(0x63);
            },
        }
        assert(out@ =~= report(self@, r));
        out
    }

    /// Applies one action: the screen becomes `apply` of it, and the result
    /// is what the action asks of the surroundings. No action makes it fail.
    pub fn apply(&mut self, action: Action) -> (e: Effect)
        requires
            old(self).wf(),
        ensures
            final(self).wf(),
            final(self)@ == apply(old(self)@, action@),
            e@ == effect(old(self)@, action@),
    {
        match action {
            Action::Print(ch) => {
                self.print(ch);
                Effect::Nothing
            },
            Action::LineFeed => {
                self.line_feed();
                Effect::Nothing
            },
            Action::CursorMove(m) => {
                self.move_cursor(m);
                Effect::Nothing
            },
            Action::EraseInLine(e) => {
                self.erase_line(e);
                Effect::Nothing
            },
            Action::EraseInDisplay(e) => {
                self.erase_display(e);
                Effect::Nothing
            },
            Action::SetSgr(params) => {
                self.set_pen(&params);
                Effect::Nothing
            },
            Action::SetMode { codes, enable } => {
                self.set_modes(&codes, enable);
                Effect::Nothing
            },
            Action::SwitchAlternateScreen(on) => {
                self.switch_screen(on);
                Effect::Nothing
            },
            Action::SetCursorStyle { shape, blink } => {
                self.set_cursor_style(shape, blink);
                Effect::Nothing
            },
            Action::SetTitle(t) => Effect::Emit(Event::TitleChanged(t)),
            Action::Bell => Effect::Emit(Event::BellRung),
            Action::WriteClipboard(bytes) => Effect::Emit(Event::ClipboardWriteRequested(bytes)),
            Action::SetPaletteColor { index, r, g, b } => {
                self.set_palette(index, (r, g, b));
                Effect::Nothing
            },
            Action::RequestReport(r) => Effect::Reply(self.report(r)),
            Action::SetHyperlink(target) => {
                self.set_link(target);
                Effect::Nothing
            },
        }
    }

    /// Gives the screen `rows` by `cols` cells (0 is taken as 1).
    pub fn resize(&mut self, rows: u16, cols: u16)
        requires
            old(self).wf(),
        ensures
            final(self).wf(),
            final(self)@ == resize(old(self)@, rows, cols),
    {
        proof {
            lemma_resize_wf(self@, rows, cols);
        }
        let base = self.base();
        self.grid.resize(rows as usize, cols as usize);
        self.other.resize(rows as usize, cols as usize);
        let rows = self.grid.rows();
        let cols = self.grid.cols();
        self.cursor = pull_inside(self.cursor, rows, cols);
        self.saved_cursor = pull_inside(self.saved_cursor, rows, cols);
        if let Some(sel) = self.selection {
            self.selection = Some(sel.clamp(base + rows, cols));
        }
        self.damage.reset(rows);
    }

    /// Selects the cells between two buffer positions, given in any order;
    /// positions outside the buffer are pulled into it.
    pub fn select(&mut self, a: Point, b: Point, mode: SelectionMode)
        requires
            old(self).wf(),
        ensures
            final(self).wf(),
            final(self)@ == select(old(self)@, a, b, mode),
    {
        let total = self.base() + self.grid.rows();
        let cols = self.grid.cols();
        self.selection = Some(Selection::new(a, b, mode).clamp(total, cols));
        self.damage.mark_all();
    }

    /// Drops the selection.
    pub fn deselect(&mut self)
        requires
            old(self).wf(),
        ensures
            final(self).wf(),
            final(self)@ == deselect(old(self)@),
    {
        self.selection = None;
        self.damage.mark_all();
    }
}

fn pull_inside(c: Cursor, rows: usize, cols: usize) -> (r: Cursor)
    requires
        rows >= 1,
        cols >= 1,
    ensures
        r == crate::model::clamp_cursor(c, rows as nat, cols as nat),
{
    Cursor {
        row: if c.row > rows - 1 { rows - 1 } else { c.row },
        col: if c.col > cols - 1 { cols - 1 } else { c.col },
        pending_wrap: false,
        ..c
    }
}

/// Appends the decimal digits of `n` to `out`.
pub fn push_decimal(out: &mut Vec<u8>, n: usize)
    ensures
        final(out)@ == old(out)@ + decimal(n as nat),
    decreases n,
{
    if n >= 10 {
        push_decimal(out, n / 10);
    }
    out.push(0x30 + (n % 10) as u8);
    assert(out@ =~= old(out)@ + decimal(n as nat));
}

/// Appends the text of a cell to `text`.
pub fn push_text(text: &mut Vec<char>, cell: Cell)
    ensures
        final(text)@ == old(text)@ + cell_text(cell),
{
    match cell.glyph {
        Glyph::Empty => text.push(' '),
        Glyph::Char(c) => text.push(c),
        Glyph::Continuation => {},
    }
    assert(text@ =~= old(text)@ + cell_text(cell));
}

fn word_cell(cell: Cell) -> (b: bool)
    ensures
        b == is_word_cell(cell),
{
    match cell.glyph {
        Glyph::Empty => false,
        Glyph::Char(c) => c != ' ',
        Glyph::Continuation => true,
    }
}

/// The columns `from..to` of the word at column `c` of `row`, or of the
/// cell alone if it is no word cell.
pub fn word_span(row: &Vec<Cell>, c: usize) -> (span: (usize, usize))
    requires
        c < row.len(),
    ensures
        is_word_cell(row@[c as int]) ==> span.0 == word_start(row@, c as int) && span.1
            == word_end(row@, c as int),
        !is_word_cell(row@[c as int]) ==> span == (c, (c + 1) as usize),
{
    if !word_cell(row[c]) {
        return (c, c + 1);
    }
    let mut from: usize = c;
    while from > 0 && word_cell(row[from - 1])
        invariant
            from <= c < row.len(),
            word_start(row@, c as int) == word_start(row@, from as int),
        decreases from,
    {
        from -= 1;
    }
    let mut to: usize = c;
    while to < row.len() && word_cell(row[to])
        invariant
            c <= to <= row.len(),
            word_end(row@, c as int) == word_end(row@, to as int),
        decreases row.len() - to,
    {
        to += 1;
    }
    (from, to)
}

fn columns(sel: &Selection, r: usize, width: usize) -> (span: (usize, usize))
    ensures
        (span.0 as int, span.1 as int) == covered(*sel, r as int, width as int),
{
    let start = if sel.start.col < width { sel.start.col } else { width };
    let end = if sel.end.col < width { sel.end.col } else { width };
    match sel.mode {
        SelectionMode::Linear | SelectionMode::Word => (
            if r == sel.start.row { start } else { 0 },
            if r == sel.end.row { end } else { width },
        ),
        SelectionMode::Block => (start, end),
        SelectionMode::Line => (0, width),
    }
}

impl Screen {
    /// Selects the word at grid row `r`, column `c`: the longest stretch of
    /// cells around it that show a character other than a space, or the cell
    /// alone if it shows none. A position outside the grid changes nothing.
    pub fn select_word(&mut self, r: usize, c: usize)
        requires
            old(self).wf(),
        ensures
            final(self).wf(),
            final(self)@ == select_word(old(self)@, r as int, c as int),
    {
        proof {
            lemma_select_word_wf(self@, r as int, c as int);
        }
        if r < self.grid.rows() && c < self.grid.cols() {
            let (from, to) = word_span(self.grid.row(r), c);
            let row = self.base() + r;
            self.selection = Some(
                Selection {
                    start: Point { row, col: from },
                    end: Point { row, col: to },
                    mode: SelectionMode::Word,
                },
            );
            self.damage.mark_all();
        }
    }

    fn buffer_row(&self, r: usize) -> (row: &Vec<Cell>)
        requires
            self.wf(),
            r < self@.base() + self@.rows(),
        ensures
            row@ == buffer_row(self@, r as int),
    {
        let base = self.base();
        if r < base {
            self.history.get(r)
        } else {
            self.grid.row(r - base)
        }
    }

    fn push_line(&self, out: &mut Vec<char>, sel: &Selection, r: usize)
        requires
            self.wf(),
            r < self@.base() + self@.rows(),
        ensures
            final(out)@ == old(out)@ + line_text(self@, *sel, r as int),
    {
        let row = self.buffer_row(r);
        let (from, to) = columns(sel, r, row.len());
        let to = if to < from { from } else { to };
        let mut c: usize = from;
        assert(cells_text(row@.subrange(from as int, from as int)) =~= Seq::<char>::empty());
        assert(out@ =~= old(out)@ + Seq::<char>::empty());
        while c < to
            invariant
                from <= c <= to <= row.len(),
                out@ == old(out)@ + cells_text(row@.subrange(from as int, c as int)),
            decreases to - c,
        {
            assert(row@.subrange(from as int, c + 1).drop_last() =~= row@.subrange(
                from as int,
                c as int,
            ));
            push_text(out, row[c]);
            c += 1;
            assert(out@ =~= old(out)@ + cells_text(row@.subrange(from as int, c as int)));
        }
    }

    /// The text that the selection holds, for the host to copy: the
    /// selected cells of each row, left to right, and a line feed between
    /// rows. Without a selection it is empty.
    pub fn selected_text(&self) -> (text: Vec<char>)
        requires
            self.wf(),
        ensures
            text@ == selected_text(self@),
    {
        let mut out: Vec<char> = Vec::new();
        let sel = match self.selection {
            Some(sel) => sel,
            None => {
                return out;
            },
        };
        self.push_line(&mut out, &sel, sel.start.row);
        let mut r: usize = sel.start.row;
        while r < sel.end.row
            invariant
                self.wf(),
                self@.selection == Some(sel),
                sel.start.row <= r <= sel.end.row,
                out@ == text_upto(self@, sel, r as int),
            decreases sel.end.row - r,
        {
            r += 1;
            out.push('\n');
            self.push_line(&mut out, &sel, r);
            assert(out@ =~= text_upto(self@, sel, r as int));
        }
        out
    }
}

} // verus!
