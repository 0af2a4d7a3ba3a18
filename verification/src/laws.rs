//! Laws of the terminal: what holds of every screen, every action and
//! every sequence of bytes.

use vstd::prelude::*;
use crate::action::{ActionView, DisplayErase, Motion};
use crate::cell::{Cell, Glyph, blank_cell, glyph_width, is_wide};
use crate::damage::all_rows;
use crate::grid::blank_row;
use crate::input::{is_stripped, paste_bytes, paste_end, paste_start, strip_controls, utf8};
use crate::interpreter;
use crate::interpreter::{
    BACKSLASH, CAN, ESC, InterpreterView, LF, State, escape_step, idle, is_scalar, reading_char,
    resting, with_param,
};
use crate::model::{
    ScreenView, apply, cells_text, decimal, lemma_line_feed_wf, lemma_make_room_wf,
    lemma_print_wf, lemma_scroll_wf, lemma_set_modes_wf, line_feed, make_room, max, min, mode_one,
    moved, place, print, set_modes, switch_screen,
};
use crate::modes::Cursor;
use crate::render::{Run, is_run, is_runs, key_at};
use crate::scrollback::pushed;
use crate::sequence::{is_alt_screen_code, plain_csi};
use crate::terminal::{TerminalView, feed, step};

verus! {

/// Whether printing `ch` on screen `s` moves the grid up: the character
/// goes to the next row and the cursor is on the last one.
pub open spec fn print_scrolls(s: ScreenView, ch: char) -> bool {
    &&& glyph_width(ch) <= s.cols
    &&& s.cursor.pending_wrap || (s.cursor.col + glyph_width(ch) > s.cols && s.modes.auto_wrap)
    &&& s.cursor.row + 1 >= s.rows()
}

/// Damage of a print: on a screen without damage, a print that does not
/// move the grid damages the row in which the character was written and no
/// other; a print that moves the grid damages every row; a character that
/// is too wide for the grid is not printed and damages nothing.
pub proof fn lemma_print_damage(s: ScreenView, ch: char)
    requires
        s.wf(),
        s.damage == Set::<int>::empty(),
    ensures
        glyph_width(ch) > s.cols ==> print(s, ch).damage == Set::<int>::empty(),
        glyph_width(ch) <= s.cols && !print_scrolls(s, ch) ==> print(s, ch).damage == set![
            print(s, ch).cursor.row as int,
        ],
        print_scrolls(s, ch) ==> print(s, ch).damage == all_rows(s.rows()),
{
    if glyph_width(ch) <= s.cols {
        lemma_make_room_wf(s, ch);
        let t = make_room(s, ch);
        if print_scrolls(s, ch) {
            assert(t.damage == all_rows(s.rows()));
            assert(print(s, ch).damage =~= all_rows(s.rows()));
        } else {
            assert(t.damage == s.damage);
            assert(print(s, ch).damage =~= set![print(s, ch).cursor.row as int]);
        }
    }
}

/// Damage of a full erase: every row is damaged.
pub proof fn lemma_erase_all_damage(s: ScreenView)
    ensures
        apply(s, ActionView::EraseInDisplay(DisplayErase::All)).damage == all_rows(s.rows()),
{
}

/// Setting or resetting one mode damages every row whose cells it changes
/// and takes no row out of the damage.
pub proof fn lemma_mode_one_damage(s: ScreenView, code: u16, on: bool)
    requires
        s.wf(),
    ensures
        s.damage.subset_of(mode_one(s, code, on).damage),
        forall|r: int|
            0 <= r < s.rows() && #[trigger] mode_one(s, code, on).grid[r] != s.grid[r]
                ==> mode_one(s, code, on).damage.contains(r),
{
}

/// Setting or resetting modes damages every row whose cells it changes and
/// takes no row out of the damage.
pub proof fn lemma_set_modes_damage(s: ScreenView, codes: Seq<u16>, on: bool)
    requires
        s.wf(),
    ensures
        s.damage.subset_of(set_modes(s, codes, on).damage),
        forall|r: int|
            0 <= r < s.rows() && #[trigger] set_modes(s, codes, on).grid[r] != s.grid[r]
                ==> set_modes(s, codes, on).damage.contains(r),
    decreases codes.len(),
{
    if codes.len() > 0 {
        let prev = set_modes(s, codes.drop_last(), on);
        lemma_set_modes_damage(s, codes.drop_last(), on);
        lemma_set_modes_wf(s, codes.drop_last(), on);
        lemma_mode_one_damage(prev, codes.last(), on);
        let next = mode_one(prev, codes.last(), on);
        assert forall|r: int| 0 <= r < s.rows() && #[trigger] next.grid[r] != s.grid[r] implies next.damage.contains(
            r,
        ) by {
            if prev.grid[r] != s.grid[r] {
                assert(prev.damage.contains(r));
            } else {
                assert(next.grid[r] != prev.grid[r]);
            }
        }
    }
}

/// Damage is sound: whatever the action, every row whose cells are not
/// what they were is in the damage afterwards.
pub proof fn lemma_damage_sound(s: ScreenView, a: ActionView, r: int)
    requires
        s.wf(),
        0 <= r < s.rows(),
        apply(s, a).grid[r] != s.grid[r],
    ensures
        apply(s, a).damage.contains(r),
{
    match a {
        ActionView::Print(ch) => {
            if glyph_width(ch) <= s.cols {
                lemma_make_room_wf(s, ch);
                let t = make_room(s, ch);
                if t.grid[r] != s.grid[r] {
                    assert(t.damage == all_rows(s.rows()));
                    assert(t.damage.contains(r));
                }
            }
        },
        ActionView::SetMode { codes, enable } => {
            lemma_set_modes_damage(s, codes, enable);
        },
        _ => {},
    }
}

/// Alternate screen round trip: switching to the alternate screen and back
/// gives the primary grid and its cursor as they were.
pub proof fn lemma_alt_screen_round_trip(s: ScreenView)
    requires
        s.wf(),
        !s.modes.alt_screen,
    ensures
        switch_screen(switch_screen(s, true), false).grid == s.grid,
        switch_screen(switch_screen(s, true), false).cursor == s.cursor,
        switch_screen(switch_screen(s, true), false).history == s.history,
        switch_screen(switch_screen(s, true), false).modes == s.modes,
{
}

/// Mode round trip: after bracketed-paste mode has been set, pasted text is
/// sent between the paste markers; after it has been reset again, the same
/// text is sent without markers.
pub proof fn lemma_paste_mode_round_trip(s: ScreenView, text: Seq<u8>)
    ensures
        ({
            let on = apply(s, ActionView::SetMode { codes: seq![2004u16], enable: true });
            let off = apply(on, ActionView::SetMode { codes: seq![2004u16], enable: false });
            &&& paste_bytes(text, on.modes) == paste_start() + text + paste_end()
            &&& paste_bytes(text, off.modes) == strip_controls(text)
        }),
{
    let codes = seq![2004u16];
    assert(codes.drop_last() =~= Seq::<u16>::empty());
    reveal_with_fuel(set_modes, 2);
    let on = set_modes(s, codes, true);
    assert(on == mode_one(s, 2004, true));
    let off = set_modes(on, codes, false);
    assert(off == mode_one(on, 2004, false));
}

/// Feeding one more byte is one more step.
pub proof fn lemma_feed_push(t: TerminalView, bytes: Seq<u8>, b: u8)
    ensures
        feed(t, bytes.push(b)) == step(feed(t, bytes), b),
{
    assert(bytes.push(b).drop_last() =~= bytes);
}

/// A plain ASCII character takes one cell.
pub proof fn lemma_ascii_narrow(b: u8)
    requires
        b < 0x80,
    ensures
        !is_wide(b as char),
        glyph_width(b as char) == 1,
{
    reveal(is_wide);
}

/// Outside any sequence, a printable ASCII byte prints its character and
/// does nothing else.
pub proof fn lemma_ascii_step(t: TerminalView, b: u8)
    requires
        t.interp.state == State::Ground,
        0x20 <= b <= 0x7E,
    ensures
        step(t, b) == (TerminalView { interp: idle(), screen: print(t.screen, b as char), ..t }),
{
    reveal(step);
}

/// Whether every byte of `text` is a printable ASCII character.
pub open spec fn is_printable_ascii(text: Seq<u8>) -> bool {
    forall|i: int| 0 <= i < text.len() ==> 0x20 <= #[trigger] text[i] <= 0x7E
}

/// The cell that printing the ASCII character `b` writes on screen `s`.
pub open spec fn typed_cell(s: ScreenView, b: u8) -> Cell {
    Cell { glyph: Glyph::Char(b as char), style: s.pen, link: s.link }
}

/// Printing text anywhere: plain ASCII characters, fed where the rest of
/// the cursor's row has room for them and no wrap is pending, take the cells
/// from the cursor on, in order and in the pen's style. The other cells of
/// the row, the other rows and the history stay as they were, and the cursor
/// stays in the row, right after the text where the row is not full.
pub proof fn lemma_text_shows(t: TerminalView, text: Seq<u8>)
    requires
        t.wf(),
        t.interp.state == State::Ground,
        !t.screen.cursor.pending_wrap,
        is_printable_ascii(text),
        t.screen.cursor.col + text.len() <= t.screen.cols,
    ensures
        ({
            let s = t.screen;
            let u = feed(t, text).screen;
            let r = s.cursor.row as int;
            let c = s.cursor.col as int;
            &&& feed(t, text).interp.state == State::Ground
            &&& u.wf()
            &&& u.rows() == s.rows()
            &&& u.cols == s.cols
            &&& u.pen == s.pen
            &&& u.link == s.link
            &&& u.modes == s.modes
            &&& u.history == s.history
            &&& u.cursor.row == s.cursor.row
            &&& c + text.len() < s.cols ==> u.cursor.col == c + text.len()
                && !u.cursor.pending_wrap
            &&& forall|i: int|
                0 <= i < text.len() ==> #[trigger] u.grid[r][c + i] == typed_cell(s, text[i])
            &&& forall|i: int|
                0 <= i < s.cols && !(c <= i < c + text.len()) ==> #[trigger] u.grid[r][i]
                    == s.grid[r][i]
            &&& forall|k: int| 0 <= k < s.rows() && k != r ==> #[trigger] u.grid[k] == s.grid[k]
        }),
    decreases text.len(),
{
    let s = t.screen;
    let r = s.cursor.row as int;
    let c = s.cursor.col as int;
    if text.len() > 0 {
        let head = text.drop_last();
        let b = text.last();
        lemma_text_shows(t, head);
        let m = feed(t, head);
        lemma_ascii_step(m, b);
        lemma_ascii_narrow(b);
        let u = feed(t, text).screen;
        assert(u == print(m.screen, b as char));
        lemma_print_wf(m.screen, b as char);
        assert(make_room(m.screen, b as char) == m.screen);
        assert(u == place(m.screen, b as char));
        assert forall|i: int| 0 <= i < text.len() implies #[trigger] u.grid[r][c + i]
            == typed_cell(s, text[i]) by {
            if i < head.len() {
                assert(m.screen.grid[r][c + i] == typed_cell(s, head[i]));
            }
        }
        assert forall|i: int|
            0 <= i < s.cols && !(c <= i < c + text.len()) implies #[trigger] u.grid[r][i]
            == s.grid[r][i] by {
            assert(m.screen.grid[r][i] == s.grid[r][i]);
        }
        assert forall|k: int| 0 <= k < s.rows() && k != r implies #[trigger] u.grid[k]
            == s.grid[k] by {
            assert(m.screen.grid[k] == s.grid[k]);
        }
    }
}

/// Printing text: plain ASCII characters fed at column 0 of an empty row,
/// with no wrap pending and no more of them than the row has cells, fill the
/// first cells of that row, in order and in the pen's style; the remaining
/// cells stay empty, the other rows stay as they were, and the cursor stays
/// in the row, right after the text where the row is not full.
pub proof fn lemma_ascii_row(t: TerminalView, text: Seq<u8>)
    requires
        t.wf(),
        t.interp.state == State::Ground,
        t.screen.cursor.col == 0,
        !t.screen.cursor.pending_wrap,
        t.screen.grid[t.screen.cursor.row as int] == blank_row(t.screen.cols),
        is_printable_ascii(text),
        text.len() <= t.screen.cols,
    ensures
        ({
            let s = t.screen;
            let u = feed(t, text).screen;
            let r = s.cursor.row as int;
            &&& feed(t, text).interp.state == State::Ground
            &&& u.wf()
            &&& u.rows() == s.rows()
            &&& u.cols == s.cols
            &&& u.pen == s.pen
            &&& u.link == s.link
            &&& u.modes == s.modes
            &&& u.cursor.row == s.cursor.row
            &&& text.len() < s.cols ==> u.cursor.col == text.len() && !u.cursor.pending_wrap
            &&& forall|i: int| 0 <= i < text.len() ==> #[trigger] u.grid[r][i] == typed_cell(s, text[i])
            &&& forall|i: int| text.len() <= i < s.cols ==> #[trigger] u.grid[r][i] == blank_cell()
            &&& forall|k: int| 0 <= k < s.rows() && k != r ==> #[trigger] u.grid[k] == s.grid[k]
        }),
{
    lemma_text_shows(t, text);
    let s = t.screen;
    let u = feed(t, text).screen;
    let r = s.cursor.row as int;
    assert forall|i: int| 0 <= i < text.len() implies #[trigger] u.grid[r][i] == typed_cell(
        s,
        text[i],
    ) by {
        assert(u.grid[r][0 + i] == typed_cell(s, text[i]));
    }
}

/// Whether the grid holds the characters of `text` in row `r`, from column
/// `c` on.
pub open spec fn shows_at(grid: Seq<Seq<Cell>>, r: int, c: int, text: Seq<u8>) -> bool {
    forall|i: int| 0 <= i < text.len() ==> (#[trigger] grid[r][c + i]).glyph == Glyph::Char(
        text[i] as char,
    )
}

/// Whether the screen's grid holds the characters of `text` side by side in
/// some row.
pub open spec fn shows(s: ScreenView, text: Seq<u8>) -> bool {
    exists|r: int, c: int|
        0 <= r < s.rows() && 0 <= c && c + text.len() <= s.cols && #[trigger] shows_at(
            s.grid,
            r,
            c,
            text,
        )
}

/// What the program prints is on the screen: whatever bytes came before,
/// if they leave the interpreter outside any sequence, no wrap pending and
/// room in the cursor's row, then plain ASCII text that follows them is on
/// the grid, side by side in one row, once it has been taken in. So the
/// output of a command shows, whatever the shell has echoed before it.
pub proof fn lemma_output_shows(t: TerminalView, before: Seq<u8>, text: Seq<u8>)
    requires
        t.wf(),
        feed(t, before).interp.state == State::Ground,
        !feed(t, before).screen.cursor.pending_wrap,
        is_printable_ascii(text),
        feed(t, before).screen.cursor.col + text.len() <= t.screen.cols,
    ensures
        shows(feed(t, before + text).screen, text),
{
    let m = feed(t, before);
    crate::terminal::lemma_feed_wf(t, before);
    lemma_feed_concat(t, before, text);
    lemma_text_shows(m, text);
    let u = feed(m, text).screen;
    let r = m.screen.cursor.row as int;
    let c = m.screen.cursor.col as int;
    assert(shows_at(u.grid, r, c, text));
}

/// `n` line feed bytes.
pub open spec fn line_feeds(n: nat) -> Seq<u8> {
    Seq::new(n, |i: int| LF)
}

/// Line feeds and scrolling: on the primary screen, line feeds first take
/// the cursor down to the last row and change nothing else; each further
/// one moves the grid up by a row, so that the bottom row is empty and the
/// history has one row more, up to its capacity. With exactly one line feed
/// more than the cursor has rows below it, exactly one row has left the
/// grid: the old top row, which is the newest history row if the history
/// keeps anything.
pub proof fn lemma_line_feeds(t: TerminalView, n: nat)
    requires
        t.wf(),
        t.interp.state == State::Ground,
        !t.screen.modes.alt_screen,
    ensures
        ({
            let s = t.screen;
            let u = feed(t, line_feeds(n)).screen;
            let room = s.rows() - 1 - s.cursor.row;
            &&& feed(t, line_feeds(n)).interp.state == State::Ground
            &&& u.wf()
            &&& u.rows() == s.rows()
            &&& u.cols == s.cols
            &&& u.capacity == s.capacity
            &&& !u.modes.alt_screen
            &&& u.cursor.row == min(s.cursor.row + n, s.rows() - 1)
            &&& n <= room ==> u.grid == s.grid && u.history == s.history
            &&& n > room ==> {
                &&& u.grid.last() == blank_row(s.cols)
                &&& u.history.len() == min(s.history.len() + n - room, s.capacity as int)
            }
            &&& n == room + 1 && s.capacity > 0 ==> u.history.last() == s.grid[0]
            &&& n == room + 1 && s.history.len() < s.capacity ==> u.history == s.history.push(
                s.grid[0],
            )
        }),
    decreases n,
{
    if n > 0 {
        let k = (n - 1) as nat;
        lemma_line_feeds(t, k);
        assert(line_feeds(n).drop_last() =~= line_feeds(k));
        let m = feed(t, line_feeds(k));
        assert(feed(t, line_feeds(n)) == step(m, LF));
        assert(step(m, LF).screen == line_feed(m.screen) && step(m, LF).interp == idle()) by {
            reveal(step);
        }
        lemma_line_feed_wf(m.screen);
        let u = line_feed(m.screen);
        if m.screen.cursor.row + 1 >= m.screen.rows() {
            lemma_scroll_wf(
                ScreenView {
                    cursor: Cursor { pending_wrap: false, ..m.screen.cursor },
                    ..m.screen
                },
            );
        }
    } else {
        assert(line_feeds(0) =~= Seq::<u8>::empty());
    }
}

/// A byte that completes no sequence changes the interpreter only.
pub proof fn lemma_silent_step(t: TerminalView, b: u8)
    requires
        interpreter::step(t.interp, b).1 is None,
    ensures
        step(t, b) == (TerminalView { interp: interpreter::step(t.interp, b).0, ..t }),
{
    reveal(step);
}

/// A byte that completes a character prints it and does nothing else.
pub proof fn lemma_print_step(t: TerminalView, b: u8, c: char)
    requires
        interpreter::step(t.interp, b) == (idle(), Some(ActionView::Print(c))),
    ensures
        step(t, b) == (TerminalView { interp: idle(), screen: print(t.screen, c), ..t }),
{
    reveal(step);
}

/// The first byte of a character of several bytes, read outside any
/// sequence, starts the character.
pub proof fn lemma_lead_byte(t: TerminalView, b: u8, need: u8, floor: u32)
    requires
        t.interp.state == State::Ground,
        (need == 1 && floor == 0x80 && 0xC2 <= b <= 0xDF) || (need == 2 && floor == 0x800 && 0xE0
            <= b <= 0xEF) || (need == 3 && floor == 0x10000 && 0xF0 <= b <= 0xF4),
    ensures
        step(t, b) == (TerminalView {
            interp: reading_char(
                need,
                (b - (if need == 1 { 0xC0int } else if need == 2 { 0xE0int } else { 0xF0int }))
                    as u32,
                floor,
            ),
            ..t
        }),
{
    reveal(step);
}

/// A continuation byte that is not the last one adds its six bits.
pub proof fn lemma_continuation_byte(t: TerminalView, b: u8, need: u8, acc: u32, floor: u32)
    requires
        t.interp == reading_char(need, acc, floor),
        need >= 2,
        0x80 <= b <= 0xBF,
    ensures
        step(t, b) == (TerminalView {
            interp: reading_char(
                (need - 1) as u8,
                (acc * 64 + (b - 0x80)) as u32,
                floor,
            ),
            ..t
        }),
{
    reveal(step);
}

/// The last continuation byte completes the character, which is printed.
pub proof fn lemma_last_byte(t: TerminalView, b: u8, acc: u32, floor: u32, c: char)
    requires
        t.interp == reading_char(1, acc, floor),
        0x80 <= b <= 0xBF,
        acc * 64 + (b - 0x80) == c as u32,
        c as u32 >= floor,
    ensures
        step(t, b) == (TerminalView { interp: idle(), screen: print(t.screen, c), ..t }),
{
    let v = (acc * 64 + (b - 0x80)) as u32;
    assert(v == c as u32);
    assert(is_scalar(v));
    assert(v as char == c);
    assert(interpreter::step(t.interp, b) == (idle(), Some(ActionView::Print(c))));
    lemma_print_step(t, b, c);
}

/// The round trip for characters of two bytes.
proof fn lemma_utf8_two(t: TerminalView, c: char)
    requires
        t.interp.state == State::Ground,
        0x80 <= (c as u32) < 0x800,
    ensures
        feed(t, utf8(c)) == (TerminalView { interp: idle(), screen: print(t.screen, c), ..t }),
{
    let v = c as u32;
    let b0 = (0xC0 + v / 64) as u8;
    let b1 = (0x80 + v % 64) as u8;
    let none = Seq::<u8>::empty();
    assert(utf8(c) =~= none.push(b0).push(b1));
    lemma_feed_push(t, none, b0);
    lemma_feed_push(t, none.push(b0), b1);
    lemma_lead_byte(t, b0, 1, 0x80);
    lemma_last_byte(step(t, b0), b1, v / 64, 0x80, c);
}

/// The round trip for characters of three bytes.
proof fn lemma_utf8_three(t: TerminalView, c: char)
    requires
        t.interp.state == State::Ground,
        0x800 <= (c as u32) < 0x10000,
    ensures
        feed(t, utf8(c)) == (TerminalView { interp: idle(), screen: print(t.screen, c), ..t }),
{
    let v = c as u32;
    let b0 = (0xE0 + v / 4096) as u8;
    let b1 = (0x80 + (v / 64) % 64) as u8;
    let b2 = (0x80 + v % 64) as u8;
    let none = Seq::<u8>::empty();
    assert(utf8(c) =~= none.push(b0).push(b1).push(b2));
    lemma_feed_push(t, none, b0);
    lemma_feed_push(t, none.push(b0), b1);
    lemma_feed_push(t, none.push(b0).push(b1), b2);
    lemma_lead_byte(t, b0, 2, 0x800);
    let t1 = step(t, b0);
    lemma_continuation_byte(t1, b1, 2, v / 4096, 0x800);
    assert((v / 4096) * 64 + (v / 64) % 64 == v / 64);
    lemma_last_byte(step(t1, b1), b2, v / 64, 0x800, c);
}

/// The round trip for characters of four bytes.
proof fn lemma_utf8_four(t: TerminalView, c: char)
    requires
        t.interp.state == State::Ground,
        0x10000 <= (c as u32),
    ensures
        feed(t, utf8(c)) == (TerminalView { interp: idle(), screen: print(t.screen, c), ..t }),
{
    let v = c as u32;
    assert(v <= 0x10FFFF);
    let b0 = (0xF0 + v / 262144) as u8;
    let b1 = (0x80 + (v / 4096) % 64) as u8;
    let b2 = (0x80 + (v / 64) % 64) as u8;
    let b3 = (0x80 + v % 64) as u8;
    let none = Seq::<u8>::empty();
    assert(utf8(c) =~= none.push(b0).push(b1).push(b2).push(b3));
    lemma_feed_push(t, none, b0);
    lemma_feed_push(t, none.push(b0), b1);
    lemma_feed_push(t, none.push(b0).push(b1), b2);
    lemma_feed_push(t, none.push(b0).push(b1).push(b2), b3);
    lemma_lead_byte(t, b0, 3, 0x10000);
    let t1 = step(t, b0);
    lemma_continuation_byte(t1, b1, 3, v / 262144, 0x10000);
    assert((v / 262144) * 64 + (v / 4096) % 64 == v / 4096);
    let t2 = step(t1, b1);
    lemma_continuation_byte(t2, b2, 2, v / 4096, 0x10000);
    assert((v / 4096) * 64 + (v / 64) % 64 == v / 64);
    lemma_last_byte(step(t2, b2), b3, v / 64, 0x10000, c);
}

/// Characters round trip: outside any sequence, the bytes that write a
/// character in UTF-8, as the input mapper sends them for a key, print that
/// character and do nothing else. This holds of every character but the
/// control characters.
pub proof fn lemma_utf8_round_trip(t: TerminalView, c: char)
    requires
        t.interp.state == State::Ground,
        (c as u32) >= 0x80 || 0x20 <= (c as u32) <= 0x7E,
    ensures
        feed(t, utf8(c)) == (TerminalView { interp: idle(), screen: print(t.screen, c), ..t }),
{
    let v = c as u32;
    if v < 0x80 {
        let b0 = v as u8;
        assert(utf8(c) =~= Seq::<u8>::empty().push(b0));
        lemma_feed_push(t, Seq::empty(), b0);
        assert(b0 as char == c);
        lemma_ascii_step(t, b0);
    } else if v < 0x800 {
        lemma_utf8_two(t, c);
    } else if v < 0x10000 {
        lemma_utf8_three(t, c);
    } else {
        lemma_utf8_four(t, c);
    }
}

/// The bytes that set (`on`) or reset bracketed-paste mode:
/// `ESC [ ? 2 0 0 4` and `h` or `l`.
pub open spec fn paste_mode_bytes(on: bool) -> Seq<u8> {
    seq![0x1Bu8, 0x5B, 0x3F, 0x32, 0x30, 0x30, 0x34, if on { 0x68u8 } else { 0x6Cu8 }]
}

/// The interpreter inside a private control sequence, reading its first
/// parameter, of which `current` has been read.
pub open spec fn reading_private(current: u16) -> InterpreterView {
    InterpreterView {
        private: true,
        current,
        ..resting(State::CsiParam)
    }
}

/// Outside any sequence, `ESC [ ?` starts a private control sequence.
pub proof fn lemma_private_start(t: TerminalView)
    requires
        t.interp.state == State::Ground,
    ensures
        feed(t, seq![0x1Bu8, 0x5B, 0x3F]) == (TerminalView { interp: reading_private(0), ..t }),
{
    let none = Seq::<u8>::empty();
    assert(seq![0x1Bu8, 0x5B, 0x3F] =~= none.push(0x1B).push(0x5B).push(0x3F));
    lemma_feed_push(t, none, 0x1B);
    lemma_feed_push(t, none.push(0x1B), 0x5B);
    lemma_feed_push(t, none.push(0x1B).push(0x5B), 0x3F);
    lemma_silent_step(t, 0x1B);
    let t1 = step(t, 0x1B);
    lemma_silent_step(t1, 0x5B);
    let t2 = step(t1, 0x5B);
    lemma_silent_step(t2, 0x3F);
}

/// A digit read in the first parameter of a private control sequence joins
/// the parameter.
pub proof fn lemma_private_digit(t: TerminalView, current: u16, d: u8)
    requires
        t.interp == reading_private(current),
        d <= 9,
        current * 10 + d <= 0xFFFF,
    ensures
        step(t, (0x30 + d) as u8) == (TerminalView {
            interp: reading_private((current * 10 + d) as u16),
            ..t
        }),
{
    lemma_silent_step(t, (0x30 + d) as u8);
}

/// The final byte `h` or `l` of a private control sequence with the one
/// parameter 2004 sets or resets bracketed-paste mode.
pub proof fn lemma_private_paste_final(t: TerminalView, on: bool)
    requires
        t.interp == reading_private(2004),
    ensures
        step(t, if on { 0x68u8 } else { 0x6Cu8 }) == (TerminalView {
            interp: idle(),
            screen: mode_one(t.screen, 2004, on),
            ..t
        }),
{
    let fin = if on { 0x68u8 } else { 0x6Cu8 };
    let codes = seq![2004u16];
    let q = with_param(t.interp);
    assert(q.params =~= codes);
    let a = ActionView::SetMode { codes, enable: on };
    assert(interpreter::step(t.interp, fin) == (idle(), Some(a)));
    assert(codes.drop_last() =~= Seq::<u16>::empty());
    reveal_with_fuel(set_modes, 2);
    assert(apply(t.screen, a) == mode_one(t.screen, 2004, on));
    reveal(step);
}

/// Outside any sequence, the bytes that set or reset bracketed-paste mode
/// do so, and nothing else.
pub proof fn lemma_paste_mode_bytes(t: TerminalView, on: bool)
    requires
        t.interp.state == State::Ground,
    ensures
        feed(t, paste_mode_bytes(on)) == (TerminalView {
            interp: idle(),
            screen: mode_one(t.screen, 2004, on),
            ..t
        }),
{
    let fin = if on { 0x68u8 } else { 0x6Cu8 };
    let b3 = seq![0x1Bu8, 0x5B, 0x3F];
    let b4 = b3.push(0x32);
    let b5 = b4.push(0x30);
    let b6 = b5.push(0x30);
    let b7 = b6.push(0x34);
    assert(paste_mode_bytes(on) =~= b7.push(fin));
    lemma_private_start(t);
    lemma_feed_push(t, b3, 0x32);
    lemma_private_digit(feed(t, b3), 0, 2);
    lemma_feed_push(t, b4, 0x30);
    lemma_private_digit(feed(t, b4), 2, 0);
    lemma_feed_push(t, b5, 0x30);
    lemma_private_digit(feed(t, b5), 20, 0);
    lemma_feed_push(t, b6, 0x34);
    lemma_private_digit(feed(t, b6), 200, 4);
    lemma_feed_push(t, b7, fin);
    lemma_private_paste_final(feed(t, b7), on);
}

/// Mode round trip, from the bytes: after the program has sent the bytes
/// that set bracketed-paste mode, pasted text is sent between the paste
/// markers; after it has sent the bytes that reset the mode, the same text
/// is sent without markers.
pub proof fn lemma_paste_mode_round_trip_bytes(t: TerminalView, text: Seq<u8>)
    requires
        t.interp.state == State::Ground,
    ensures
        ({
            let on = feed(t, paste_mode_bytes(true));
            let off = feed(on, paste_mode_bytes(false));
            &&& paste_bytes(text, on.screen.modes) == paste_start() + text + paste_end()
            &&& paste_bytes(text, off.screen.modes) == strip_controls(text)
        }),
{
    lemma_paste_mode_bytes(t, true);
    lemma_paste_mode_bytes(feed(t, paste_mode_bytes(true)), false);
}

/// The text of cells put side by side is their texts put side by side.
pub proof fn lemma_cells_text_concat(a: Seq<Cell>, b: Seq<Cell>)
    ensures
        cells_text(a + b) == cells_text(a) + cells_text(b),
    decreases b.len(),
{
    if b.len() == 0 {
        assert(a + b =~= a);
        assert(cells_text(a) + cells_text(b) =~= cells_text(a));
    } else {
        lemma_cells_text_concat(a, b.drop_last());
        assert((a + b).drop_last() =~= a + b.drop_last());
        assert(cells_text(a + b) =~= cells_text(a) + cells_text(b));
    }
}

/// The texts of the first `n` runs, put side by side.
pub open spec fn joined(runs: Seq<Run>, n: int) -> Seq<char>
    decreases n,
{
    if n <= 0 {
        Seq::empty()
    } else {
        joined(runs, n - 1) + runs[n - 1].text@
    }
}

/// The first `n` runs of a row hold the text of the cells that they cover.
pub proof fn lemma_runs_prefix(s: ScreenView, r: int, runs: Seq<Run>, n: int)
    requires
        is_runs(s, r, runs),
        s.grid[r].len() == s.cols,
        1 <= n <= runs.len(),
    ensures
        joined(runs, n) == cells_text(s.grid[r].subrange(0, runs[n - 1].col + runs[n - 1].width)),
    decreases n,
{
    let row = s.grid[r];
    let run = runs[n - 1];
    assert(is_run(s, r, run));
    if n == 1 {
        assert(joined(runs, 0) =~= Seq::<char>::empty());
        assert(joined(runs, 1) =~= run.text@);
    } else {
        lemma_runs_prefix(s, r, runs, n - 1);
        let before = runs[n - 2];
        assert(is_run(s, r, before));
        assert(before.col + before.width == run.col);
        lemma_cells_text_concat(
            row.subrange(0, run.col as int),
            row.subrange(run.col as int, run.col + run.width),
        );
        assert(row.subrange(0, run.col as int) + row.subrange(run.col as int, run.col + run.width)
            =~= row.subrange(0, run.col + run.width));
    }
}

/// Runs lose nothing: the texts of the runs of a row, put side by side,
/// are the text of the row.
pub proof fn lemma_runs_text(s: ScreenView, r: int, runs: Seq<Run>)
    requires
        is_runs(s, r, runs),
        s.grid[r].len() == s.cols,
    ensures
        joined(runs, runs.len() as int) == cells_text(s.grid[r]),
{
    lemma_runs_prefix(s, r, runs, runs.len() as int);
    assert(s.grid[r].subrange(0, s.cols as int) =~= s.grid[r]);
}

/// Setting or resetting one mode leaves the history as it is.
pub proof fn lemma_mode_one_history(s: ScreenView, code: u16, on: bool)
    ensures
        mode_one(s, code, on).history == s.history,
        mode_one(s, code, on).capacity == s.capacity,
{
}

/// Setting or resetting modes leaves the history as it is.
pub proof fn lemma_set_modes_history(s: ScreenView, codes: Seq<u16>, on: bool)
    ensures
        set_modes(s, codes, on).history == s.history,
        set_modes(s, codes, on).capacity == s.capacity,
    decreases codes.len(),
{
    if codes.len() > 0 {
        lemma_set_modes_history(s, codes.drop_last(), on);
        lemma_mode_one_history(set_modes(s, codes.drop_last(), on), codes.last(), on);
    }
}

/// The history grows by scrolling only, and only the primary screen
/// touches it: after any action it is what it was, or, for an action on the
/// primary screen, it is empty or the top row of the grid has entered it.
pub proof fn lemma_history_step(s: ScreenView, a: ActionView)
    requires
        s.wf(),
    ensures
        ({
            let h = apply(s, a).history;
            ||| h == s.history
            ||| (!s.modes.alt_screen && h == Seq::<Seq<Cell>>::empty())
            ||| (!s.modes.alt_screen && h == pushed(s.history, s.capacity, s.grid[0]))
        }),
        apply(s, a).capacity == s.capacity,
{
    match a {
        ActionView::Print(ch) => {
            if glyph_width(ch) <= s.cols {
                lemma_make_room_wf(s, ch);
            }
        },
        ActionView::SetMode { codes, enable } => {
            lemma_set_modes_history(s, codes, enable);
        },
        _ => {},
    }
}

/// Feeding bytes one chunk after the other is feeding them all at once.
pub proof fn lemma_feed_concat(t: TerminalView, a: Seq<u8>, b: Seq<u8>)
    ensures
        feed(t, a + b) == feed(feed(t, a), b),
    decreases b.len(),
{
    if b.len() == 0 {
        assert(a + b =~= a);
    } else {
        lemma_feed_concat(t, a, b.drop_last());
        assert((a + b).drop_last() =~= a + b.drop_last());
    }
}

/// Whatever the state of the interpreter, `CAN` ends what is pending: the
/// interpreter is outside any sequence again, and no action is given.
pub proof fn lemma_cancel_recovers(p: InterpreterView)
    ensures
        interpreter::step(p, CAN) == (idle(), None::<ActionView>),
{
}

/// Whatever the state of the interpreter, `ESC` abandons what is pending
/// without an action, and a byte after it other than `\` is read as after
/// `ESC` outside any sequence: one sequence that is cut short cannot hide
/// the next.
pub proof fn lemma_escape_restarts(p: InterpreterView, b: u8)
    requires
        b != BACKSLASH,
    ensures
        interpreter::step(p, ESC).1 is None,
        interpreter::step(
            interpreter::step(p, ESC).0,
            b,
        ) == escape_step(b),
{
}

/// The interpreter inside a control sequence without a marker, with these
/// parameters read and `current` read of the next one.
pub open spec fn reading_params(
    params: Seq<u16>,
    current: u16,
) -> InterpreterView {
    InterpreterView {
        params,
        current,
        ..resting(State::CsiParam)
    }
}

/// The digits of a number, read as the first parameter of a control
/// sequence, give that number.
pub proof fn lemma_first_parameter(t: TerminalView, n: nat)
    requires
        t.interp == resting(State::CsiEntry),
        n <= 0xFFFF,
    ensures
        feed(t, decimal(n)) == (TerminalView {
            interp: reading_params(Seq::empty(), n as u16),
            ..t
        }),
    decreases n,
{
    if n < 10 {
        let d = (0x30 + n) as u8;
        assert(decimal(n) =~= Seq::<u8>::empty().push(d));
        lemma_feed_push(t, Seq::empty(), d);
        lemma_silent_step(t, d);
        assert(interpreter::step(t.interp, d).0 =~= reading_params(Seq::empty(), n as u16));
    } else {
        let d = (0x30 + n % 10) as u8;
        lemma_first_parameter(t, n / 10);
        lemma_feed_push(t, decimal(n / 10), d);
        lemma_silent_step(feed(t, decimal(n / 10)), d);
    }
}

/// The digits of a number, read as a later parameter of a control
/// sequence, give that number.
pub proof fn lemma_next_parameter(t: TerminalView, params: Seq<u16>, n: nat)
    requires
        t.interp == reading_params(params, 0),
        n <= 0xFFFF,
    ensures
        feed(t, decimal(n)) == (TerminalView { interp: reading_params(params, n as u16), ..t }),
    decreases n,
{
    if n < 10 {
        let d = (0x30 + n) as u8;
        assert(decimal(n) =~= Seq::<u8>::empty().push(d));
        lemma_feed_push(t, Seq::empty(), d);
        lemma_silent_step(t, d);
    } else {
        let d = (0x30 + n % 10) as u8;
        lemma_next_parameter(t, params, n / 10);
        lemma_feed_push(t, decimal(n / 10), d);
        lemma_silent_step(feed(t, decimal(n / 10)), d);
    }
}

/// The bytes that move the cursor to a row and a column, both counted
/// from 0: `ESC [`, the row and the column counted from 1 and parted by
/// `;`, and `H`.
pub open spec fn cursor_position_bytes(row: u16, col: u16) -> Seq<u8> {
    seq![0x1Bu8, 0x5B] + decimal((row + 1) as nat) + seq![0x3Bu8] + decimal((col + 1) as nat)
        + seq![0x48u8]
}

/// Cursor addressing, from the bytes: outside any sequence, the bytes that
/// move the cursor to a row and a column do so, clamped into the grid, and
/// nothing else.
pub proof fn lemma_cursor_position_bytes(t: TerminalView, row: u16, col: u16)
    requires
        t.interp.state == State::Ground,
        row < 0xFFFF,
        col < 0xFFFF,
    ensures
        feed(t, cursor_position_bytes(row, col)) == (TerminalView {
            interp: idle(),
            screen: ScreenView {
                cursor: moved(
                    t.screen,
                    Motion::Position { row, col },
                ),
                ..t.screen
            },
            ..t
        }),
{
    let start = seq![0x1Bu8, 0x5B];
    let r = decimal((row + 1) as nat);
    let c = decimal((col + 1) as nat);
    let none = Seq::<u8>::empty();
    // ESC [
    assert(start =~= none.push(0x1B).push(0x5B));
    lemma_feed_push(t, none, 0x1B);
    lemma_feed_push(t, none.push(0x1B), 0x5B);
    lemma_silent_step(t, 0x1B);
    lemma_silent_step(step(t, 0x1B), 0x5B);
    let t1 = feed(t, start);
    assert(t1 == (TerminalView { interp: resting(State::CsiEntry), ..t }));
    // the row
    lemma_feed_concat(t, start, r);
    lemma_first_parameter(t1, (row + 1) as nat);
    let t2 = feed(t, start + r);
    // ;
    lemma_feed_push(t, start + r, 0x3B);
    lemma_silent_step(t2, 0x3B);
    let t3 = feed(t, (start + r).push(0x3B));
    let first = Seq::<u16>::empty().push((row + 1) as u16);
    assert(t3.interp =~= reading_params(first, 0));
    assert(t3 == (TerminalView { interp: reading_params(first, 0), ..t }));
    // the column
    lemma_feed_concat(t, (start + r).push(0x3B), c);
    lemma_next_parameter(t3, first, (col + 1) as nat);
    let t4 = feed(t, (start + r).push(0x3B) + c);
    // H
    lemma_feed_push(t, (start + r).push(0x3B) + c, 0x48);
    assert(cursor_position_bytes(row, col) =~= ((start + r).push(0x3B) + c).push(0x48));
    lemma_position_final(t4, (row + 1) as u16, (col + 1) as u16);
}

/// The final byte `H` of a control sequence with a row and a column moves
/// the cursor there.
pub proof fn lemma_position_final(t: TerminalView, row: u16, col: u16)
    requires
        t.interp == reading_params(Seq::<u16>::empty().push(row), col),
        row >= 1,
        col >= 1,
    ensures
        step(t, 0x48) == (TerminalView {
            interp: idle(),
            screen: ScreenView {
                cursor: moved(
                    t.screen,
                    Motion::Position {
                        row: (row - 1) as u16,
                        col: (col - 1) as u16,
                    },
                ),
                ..t.screen
            },
            ..t
        }),
{
    let q = with_param(t.interp);
    assert(q.params =~= Seq::<u16>::empty().push(row).push(col));
    let a = ActionView::CursorMove(
        Motion::Position { row: (row - 1) as u16, col: (col - 1) as u16 },
    );
    assert(plain_csi(q.params, 0x48) == Some(a));
    assert(interpreter::step(t.interp, 0x48) == (idle(), Some(a)));
    reveal(step);
}

/// Actions that only set the pen, the cursor's look or the palette, or
/// that only ask something of the surroundings, change no cell: neither of
/// the grid nor of the history.
pub proof fn lemma_quiet_actions(s: ScreenView, a: ActionView)
    requires
        a is SetSgr || a is SetCursorStyle || a is SetTitle || a is Bell || a is SetPaletteColor
            || a is RequestReport || a is SetHyperlink || a is WriteClipboard || a is CursorMove,
    ensures
        apply(s, a).grid == s.grid,
        apply(s, a).other == s.other,
        apply(s, a).history == s.history,
{
}

/// Pasted text that is sent without markers holds none of the control
/// characters that are taken out, and is no longer than the text.
pub proof fn lemma_strip_controls_clean(text: Seq<u8>)
    ensures
        forall|i: int|
            0 <= i < strip_controls(text).len() ==> !is_stripped(#[trigger] strip_controls(text)[i]),
        strip_controls(text).len() <= text.len(),
    decreases text.len(),
{
    if text.len() > 0 {
        lemma_strip_controls_clean(text.drop_last());
    }
}

/// Pasted text that holds none of the control characters that are taken
/// out is sent as it is.
pub proof fn lemma_strip_controls_identity(text: Seq<u8>)
    requires
        forall|i: int| 0 <= i < text.len() ==> !is_stripped(#[trigger] text[i]),
    ensures
        strip_controls(text) == text,
    decreases text.len(),
{
    if text.len() > 0 {
        lemma_strip_controls_identity(text.drop_last());
        assert(text.drop_last().push(text.last()) =~= text);
    }
}

/// The history after `rows` have entered a ring of capacity `cap`, one
/// after the other.
pub open spec fn pushed_all(history: Seq<Seq<Cell>>, cap: nat, rows: Seq<Seq<Cell>>) -> Seq<
    Seq<Cell>,
>
    decreases rows.len(),
{
    if rows.len() == 0 {
        history
    } else {
        pushed(pushed_all(history, cap, rows.drop_last()), cap, rows.last())
    }
}

/// The history is a ring: after rows have entered it one after the other,
/// it holds the newest rows, as many as its capacity allows, oldest first.
pub proof fn lemma_history_keeps_newest(history: Seq<Seq<Cell>>, cap: nat, rows: Seq<Seq<Cell>>)
    requires
        history.len() <= cap,
        cap > 0,
    ensures
        pushed_all(history, cap, rows) == (history + rows).skip(
            max(history.len() + rows.len() - cap, 0),
        ),
    decreases rows.len(),
{
    if rows.len() == 0 {
        assert(history + rows =~= history);
        assert(history.skip(0) =~= history);
    } else {
        let head = rows.drop_last();
        lemma_history_keeps_newest(history, cap, head);
        let before = pushed_all(history, cap, head);
        assert(history + rows =~= (history + head).push(rows.last()));
        assert(pushed(before, cap, rows.last()) =~= (history + rows).skip(
            max(history.len() + rows.len() - cap, 0),
        ));
    }
}

/// Runs are determined: two sequences of runs of the same row are the
/// same, run by run, in where they start, how many cells they hold, their
/// key and their text.
pub proof fn lemma_runs_unique(s: ScreenView, r: int, a: Seq<Run>, b: Seq<Run>, k: int)
    requires
        is_runs(s, r, a),
        is_runs(s, r, b),
        0 <= k < a.len(),
    ensures
        k < b.len(),
        a[k].col == b[k].col,
        a[k].width == b[k].width,
        a[k].key == b[k].key,
        a[k].text@ == b[k].text@,
        (k + 1 == a.len()) == (k + 1 == b.len()),
    decreases k,
{
    if k > 0 {
        lemma_runs_unique(s, r, a, b, k - 1);
        assert(a[k - 1].col + a[k - 1].width == a[k].col);
        assert(b[k - 1].col + b[k - 1].width == b[k].col);
    }
    let x = a[k];
    let y = b[k];
    assert(is_run(s, r, x));
    assert(is_run(s, r, y));
    assert(x.col == y.col);
    assert(key_at(s, r, x.col as int) == x.key);
    assert(key_at(s, r, y.col as int) == y.key);
    lemma_run_end(s, r, a, b, k);
    lemma_run_end(s, r, b, a, k);
    lemma_last_run(s, r, a, k);
    lemma_last_run(s, r, b, k);
}

/// Of two runs that start at the same column, neither ends before the
/// other: where the first ends the key changes or the row ends, so the
/// second cannot go on.
proof fn lemma_run_end(s: ScreenView, r: int, a: Seq<Run>, b: Seq<Run>, k: int)
    requires
        is_runs(s, r, a),
        is_runs(s, r, b),
        0 <= k < a.len(),
        k < b.len(),
        a[k].col == b[k].col,
    ensures
        b[k].width <= a[k].width,
{
    let x = a[k];
    let y = b[k];
    assert(is_run(s, r, x));
    assert(is_run(s, r, y));
    let end = x.col + x.width;
    assert(key_at(s, r, x.col as int) == x.key);
    assert(key_at(s, r, y.col as int) == y.key);
    if k + 1 < a.len() {
        let next = a[k + 1];
        assert(is_run(s, r, next));
        assert(next.col == end);
        assert(key_at(s, r, end) == next.key);
        assert(next.key != x.key);
        if y.width > x.width {
            assert(key_at(s, r, end) == y.key);
        }
    } else {
        assert(end == s.cols);
    }
}

/// A run that ends where the row ends is the last one.
proof fn lemma_last_run(s: ScreenView, r: int, a: Seq<Run>, k: int)
    requires
        is_runs(s, r, a),
        0 <= k < a.len(),
    ensures
        (a[k].col + a[k].width == s.cols) == (k + 1 == a.len()),
{
    if k + 1 < a.len() {
        let next = a[k + 1];
        assert(is_run(s, r, next));
        assert(a[k].col + a[k].width == next.col);
    }
}

/// Whether the action leaves the alternate screen when applied while it is
/// shown: a switch back to the primary screen, or a mode reset that names
/// the alternate screen.
pub open spec fn leaves_alt_screen(a: ActionView) -> bool {
    match a {
        ActionView::SwitchAlternateScreen(on) => !on,
        ActionView::SetMode { codes, enable } => !enable && exists|i: int|
            0 <= i < codes.len() && is_alt_screen_code(#[trigger] codes[i]),
        _ => false,
    }
}

/// What of a screen belongs to the primary screen while the alternate one
/// is shown: the primary grid and cursor, which wait for the switch back,
/// and the history.
pub open spec fn same_primary(s: ScreenView, u: ScreenView) -> bool {
    &&& u.other == s.other
    &&& u.saved_cursor == s.saved_cursor
    &&& u.history == s.history
    &&& u.capacity == s.capacity
}

/// On the alternate screen, setting or resetting one mode that does not
/// leave it keeps the alternate screen shown and the primary screen as it is.
pub proof fn lemma_mode_one_on_alt(s: ScreenView, code: u16, on: bool)
    requires
        s.modes.alt_screen,
        on || !is_alt_screen_code(code),
    ensures
        mode_one(s, code, on).modes.alt_screen,
        same_primary(s, mode_one(s, code, on)),
{
}

/// On the alternate screen, setting or resetting modes without leaving it
/// keeps the alternate screen shown and the primary screen as it is.
pub proof fn lemma_set_modes_on_alt(s: ScreenView, codes: Seq<u16>, on: bool)
    requires
        s.modes.alt_screen,
        on || forall|i: int| 0 <= i < codes.len() ==> !is_alt_screen_code(#[trigger] codes[i]),
    ensures
        set_modes(s, codes, on).modes.alt_screen,
        same_primary(s, set_modes(s, codes, on)),
    decreases codes.len(),
{
    if codes.len() > 0 {
        let head = codes.drop_last();
        if !on {
            assert forall|i: int| 0 <= i < head.len() implies !is_alt_screen_code(
                #[trigger] head[i],
            ) by {
                assert(head[i] == codes[i]);
            }
            assert(!is_alt_screen_code(codes[codes.len() - 1]));
        }
        lemma_set_modes_on_alt(s, head, on);
        lemma_mode_one_on_alt(set_modes(s, head, on), codes.last(), on);
    }
}

/// The alternate screen does not reach the primary one: whatever is
/// printed, erased or scrolled while the alternate screen is shown, any
/// action that does not leave it keeps it shown and changes neither the
/// primary grid, nor the primary cursor, nor the history.
pub proof fn lemma_alt_screen_apart(s: ScreenView, a: ActionView)
    requires
        s.wf(),
        s.modes.alt_screen,
        !leaves_alt_screen(a),
    ensures
        apply(s, a).modes.alt_screen,
        same_primary(s, apply(s, a)),
{
    match a {
        ActionView::Print(ch) => {
            if glyph_width(ch) <= s.cols {
                lemma_make_room_wf(s, ch);
            }
        },
        ActionView::SetMode { codes, enable } => {
            if !enable {
                assert forall|i: int| 0 <= i < codes.len() implies !is_alt_screen_code(
                    #[trigger] codes[i],
                ) by {
                    if is_alt_screen_code(codes[i]) {
                        assert(leaves_alt_screen(a));
                    }
                }
            }
            lemma_set_modes_on_alt(s, codes, enable);
        },
        _ => {},
    }
}

/// Whether the bytes, fed to terminal `t`, complete no action that leaves
/// the alternate screen.
pub open spec fn stays_on_alt_screen(t: TerminalView, bytes: Seq<u8>) -> bool
    decreases bytes.len(),
{
    if bytes.len() == 0 {
        true
    } else {
        &&& stays_on_alt_screen(t, bytes.drop_last())
        &&& match interpreter::step(feed(t, bytes.drop_last()).interp, bytes.last()).1 {
            Some(a) => !leaves_alt_screen(a),
            None => true,
        }
    }
}

/// The alternate screen does not reach the primary one, from the bytes:
/// while the alternate screen is shown, bytes that do not leave it keep it
/// shown and change neither the primary grid, nor the primary cursor, nor
/// the history.
pub proof fn lemma_alt_screen_bytes(t: TerminalView, bytes: Seq<u8>)
    requires
        t.wf(),
        t.screen.modes.alt_screen,
        stays_on_alt_screen(t, bytes),
    ensures
        feed(t, bytes).wf(),
        feed(t, bytes).screen.modes.alt_screen,
        same_primary(t.screen, feed(t, bytes).screen),
    decreases bytes.len(),
{
    if bytes.len() > 0 {
        let m = feed(t, bytes.drop_last());
        lemma_alt_screen_bytes(t, bytes.drop_last());
        crate::terminal::lemma_step_wf(m, bytes.last());
        reveal(step);
        match interpreter::step(m.interp, bytes.last()).1 {
            Some(a) => {
                lemma_alt_screen_apart(m.screen, a);
            },
            None => {},
        }
    }
}

/// The alternate screen, there and back: after a switch to the alternate
/// screen, any bytes that do not leave it, and the switch back, the grid,
/// the cursor and the history are what they were before the first switch.
pub proof fn lemma_alt_screen_there_and_back(t: TerminalView, bytes: Seq<u8>)
    requires
        t.wf(),
        !t.screen.modes.alt_screen,
        stays_on_alt_screen(
            TerminalView { screen: switch_screen(t.screen, true), ..t },
            bytes,
        ),
    ensures
        ({
            let there = TerminalView { screen: switch_screen(t.screen, true), ..t };
            let back = switch_screen(feed(there, bytes).screen, false);
            &&& back.grid == t.screen.grid
            &&& back.cursor == t.screen.cursor
            &&& back.history == t.screen.history
            &&& !back.modes.alt_screen
        }),
{
    let there = TerminalView { screen: switch_screen(t.screen, true), ..t };
    crate::model::lemma_switch_wf(t.screen, true);
    lemma_alt_screen_bytes(there, bytes);
}

/// What is malformed or skipped is silent: inside a malformed control
/// sequence, a skipped string or an escape sequence that is not recognised,
/// no byte gives an action.
pub proof fn lemma_malformed_is_silent(p: InterpreterView, b: u8)
    requires
        p.state == State::CsiIgnore || p.state == State::DcsString || p.state
            == State::EscapeIntermediate,
    ensures
        interpreter::step(p, b).1 is None,
{
}

/// What is not recognised is silent: a control sequence whose parameters
/// and final byte stand for no action ends with its final byte, without an
/// action, and leaves the interpreter outside any sequence.
pub proof fn lemma_unrecognised_is_silent(p: InterpreterView, fin: u8)
    requires
        p.state == State::CsiEntry || p.state == State::CsiParam || p.state
            == State::CsiIntermediate,
        0x40 <= fin <= 0x7E,
        interpreter::csi_result(
            if p.state == State::CsiParam { with_param(p) } else { p },
            fin,
        ) is None,
    ensures
        interpreter::step(p, fin) == (idle(), None::<ActionView>),
{
}

/// The bytes that switch to the alternate screen (`on`) or back:
/// `ESC [ ? 1 0 4 9` and `h` or `l`.
pub open spec fn alt_screen_bytes(on: bool) -> Seq<u8> {
    seq![0x1Bu8, 0x5B, 0x3F, 0x31, 0x30, 0x34, 0x39, if on { 0x68u8 } else { 0x6Cu8 }]
}

/// The final byte `h` or `l` of a private control sequence with the one
/// parameter 1049 switches the screen.
pub proof fn lemma_private_alt_final(t: TerminalView, on: bool)
    requires
        t.interp == reading_private(1049),
    ensures
        step(t, if on { 0x68u8 } else { 0x6Cu8 }) == (TerminalView {
            interp: idle(),
            screen: switch_screen(t.screen, on),
            ..t
        }),
{
    let fin = if on { 0x68u8 } else { 0x6Cu8 };
    let codes = seq![1049u16];
    let q = with_param(t.interp);
    assert(q.params =~= codes);
    let a = ActionView::SwitchAlternateScreen(on);
    assert(interpreter::step(t.interp, fin) == (idle(), Some(a)));
    reveal(step);
}

/// Outside any sequence, the bytes that switch the screen do so, and
/// nothing else.
pub proof fn lemma_alt_screen_switch_bytes(t: TerminalView, on: bool)
    requires
        t.interp.state == State::Ground,
    ensures
        feed(t, alt_screen_bytes(on)) == (TerminalView {
            interp: idle(),
            screen: switch_screen(t.screen, on),
            ..t
        }),
{
    let fin = if on { 0x68u8 } else { 0x6Cu8 };
    let b3 = seq![0x1Bu8, 0x5B, 0x3F];
    let b4 = b3.push(0x31);
    let b5 = b4.push(0x30);
    let b6 = b5.push(0x34);
    let b7 = b6.push(0x39);
    assert(alt_screen_bytes(on) =~= b7.push(fin));
    lemma_private_start(t);
    lemma_feed_push(t, b3, 0x31);
    lemma_private_digit(feed(t, b3), 0, 1);
    lemma_feed_push(t, b4, 0x30);
    lemma_private_digit(feed(t, b4), 1, 0);
    lemma_feed_push(t, b5, 0x34);
    lemma_private_digit(feed(t, b5), 10, 4);
    lemma_feed_push(t, b6, 0x39);
    lemma_private_digit(feed(t, b6), 104, 9);
    lemma_feed_push(t, b7, fin);
    lemma_private_alt_final(feed(t, b7), on);
}

/// The alternate screen, there and back, from the bytes: after the bytes
/// that switch to the alternate screen, any bytes that do not leave it and
/// that end outside any sequence, and the bytes that switch back, the grid,
/// the cursor and the history are what they were before. Nothing that was
/// printed, erased or scrolled in between has reached them.
pub proof fn lemma_alt_screen_round_trip_bytes(t: TerminalView, bytes: Seq<u8>)
    requires
        t.wf(),
        t.interp.state == State::Ground,
        !t.screen.modes.alt_screen,
        stays_on_alt_screen(feed(t, alt_screen_bytes(true)), bytes),
        feed(feed(t, alt_screen_bytes(true)), bytes).interp.state == State::Ground,
    ensures
        ({
            let after = feed(t, alt_screen_bytes(true) + bytes + alt_screen_bytes(false)).screen;
            &&& after.grid == t.screen.grid
            &&& after.cursor == t.screen.cursor
            &&& after.history == t.screen.history
            &&& !after.modes.alt_screen
        }),
{
    let there = feed(t, alt_screen_bytes(true));
    lemma_alt_screen_switch_bytes(t, true);
    crate::model::lemma_switch_wf(t.screen, true);
    lemma_alt_screen_bytes(there, bytes);
    let inside = feed(there, bytes);
    lemma_alt_screen_switch_bytes(inside, false);
    lemma_feed_concat(t, alt_screen_bytes(true), bytes);
    lemma_feed_concat(t, alt_screen_bytes(true) + bytes, alt_screen_bytes(false));
}

} // verus!
