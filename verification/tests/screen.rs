use terminal_plugin::action::{
    Action, DisplayErase, Effect, Event, LineErase, Motion, Report,
};
use terminal_plugin::cell::{Attrs, Cell, Color, Glyph, Style};
use terminal_plugin::modes::{CursorShape, MouseTracking};
use terminal_plugin::screen::Screen;
use terminal_plugin::selection::{Point, Selection, SelectionMode};

fn glyph(s: &Screen, r: usize, c: usize) -> Glyph {
    s.cell(r, c).unwrap().glyph
}

fn text(s: &Screen, r: usize) -> String {
    let mut out = String::new();
    for cell in s.row(r) {
        match cell.glyph {
            Glyph::Empty => out.push(' '),
            Glyph::Char(c) => out.push(c),
            Glyph::Continuation => {}
        }
    }
    out
}

fn type_text(s: &mut Screen, t: &str) {
    for c in t.chars() {
        s.apply(Action::Print(c));
    }
}

fn bounds_hold(s: &Screen) {
    assert!(s.cursor().row < s.rows());
    assert!(s.cursor().col < s.cols());
    for r in 0..s.rows() {
        assert_eq!(s.row(r).len(), s.cols());
    }
}

#[test]
fn fresh_screen_is_blank() {
    let s = Screen::new(3, 4, 10);
    assert_eq!(s.rows(), 3);
    assert_eq!(s.cols(), 4);
    for r in 0..3 {
        for c in 0..4 {
            assert_eq!(s.cell(r, c), Some(Cell::blank()));
        }
    }
    assert_eq!(s.cell(3, 0), None);
    assert_eq!(s.cell(0, 4), None);
    assert_eq!(s.cursor().row, 0);
    assert_eq!(s.cursor().col, 0);
    assert!(s.cursor().visible);
    assert_eq!(s.history_len(), 0);
    assert!(s.modes().auto_wrap);
    assert!(!s.modes().bracketed_paste);
}

#[test]
fn zero_dimensions_are_taken_as_one() {
    let s = Screen::new(0, 0, 0);
    assert_eq!(s.rows(), 1);
    assert_eq!(s.cols(), 1);
}

#[test]
fn fresh_screen_is_all_dirty() {
    let s = Screen::new(3, 4, 10);
    assert!(s.is_dirty(0) && s.is_dirty(1) && s.is_dirty(2));
    assert!(!s.is_dirty(3));
}

#[test]
fn printing_fills_the_row_in_order() {
    let mut s = Screen::new(3, 8, 10);
    type_text(&mut s, "hello");
    assert_eq!(text(&s, 0), "hello   ");
    for c in 5..8 {
        assert_eq!(s.cell(0, c), Some(Cell::blank()));
    }
    assert_eq!(s.cursor().col, 5);
    assert_eq!(s.cursor().row, 0);
}

#[test]
fn printing_a_full_row_leaves_the_wrap_pending() {
    let mut s = Screen::new(2, 4, 10);
    type_text(&mut s, "abcd");
    assert_eq!(text(&s, 0), "abcd");
    assert_eq!(s.cursor().row, 0);
    assert_eq!(s.cursor().col, 3);
    assert!(s.cursor().pending_wrap);
    type_text(&mut s, "e");
    assert_eq!(text(&s, 0), "abcd");
    assert_eq!(text(&s, 1), "e   ");
    assert_eq!(s.cursor().row, 1);
    assert_eq!(s.cursor().col, 1);
}

#[test]
fn wrapping_at_the_bottom_scrolls() {
    let mut s = Screen::new(2, 3, 10);
    type_text(&mut s, "abcdefg");
    assert_eq!(s.history_len(), 1);
    assert_eq!(s.history_row(0)[0].glyph, Glyph::Char('a'));
    assert_eq!(text(&s, 0), "def");
    assert_eq!(text(&s, 1), "g  ");
}

#[test]
fn without_auto_wrap_the_last_cell_is_overwritten() {
    let mut s = Screen::new(2, 3, 10);
    s.apply(Action::SetMode { codes: vec![7], enable: false });
    type_text(&mut s, "abcde");
    assert_eq!(text(&s, 0), "abe");
    assert_eq!(text(&s, 1), "   ");
    assert_eq!(s.cursor().col, 2);
    assert!(!s.cursor().pending_wrap);
}

#[test]
fn wide_character_takes_two_cells() {
    let mut s = Screen::new(2, 6, 10);
    type_text(&mut s, "a中b");
    assert_eq!(glyph(&s, 0, 0), Glyph::Char('a'));
    assert_eq!(glyph(&s, 0, 1), Glyph::Char('中'));
    assert_eq!(glyph(&s, 0, 2), Glyph::Continuation);
    assert_eq!(glyph(&s, 0, 3), Glyph::Char('b'));
    assert_eq!(s.cursor().col, 4);
}

#[test]
fn wide_character_at_the_last_column_wraps() {
    let mut s = Screen::new(2, 3, 10);
    type_text(&mut s, "ab中");
    assert_eq!(text(&s, 0), "ab ");
    assert_eq!(glyph(&s, 1, 0), Glyph::Char('中'));
    assert_eq!(glyph(&s, 1, 1), Glyph::Continuation);
}

#[test]
fn wide_character_in_a_one_column_grid_is_not_printed() {
    let mut s = Screen::new(2, 1, 10);
    type_text(&mut s, "中");
    assert_eq!(s.cell(0, 0), Some(Cell::blank()));
    assert_eq!(s.cursor().col, 0);
}

#[test]
fn line_feed_keeps_the_column() {
    let mut s = Screen::new(3, 5, 10);
    type_text(&mut s, "ab");
    s.apply(Action::LineFeed);
    assert_eq!(s.cursor().row, 1);
    assert_eq!(s.cursor().col, 2);
}

#[test]
fn as_many_line_feeds_as_rows_evict_one_row() {
    let mut s = Screen::new(3, 4, 10);
    type_text(&mut s, "top");
    for _ in 0..3 {
        s.apply(Action::LineFeed);
    }
    assert_eq!(s.history_len(), 1);
    assert_eq!(s.history_row(0)[0].glyph, Glyph::Char('t'));
    assert_eq!(text(&s, 2), "    ");
    assert_eq!(s.cursor().row, 2);
}

#[test]
fn one_line_feed_more_evicts_two_rows() {
    let mut s = Screen::new(3, 4, 10);
    for _ in 0..4 {
        s.apply(Action::LineFeed);
    }
    assert_eq!(s.history_len(), 2);
    assert_eq!(text(&s, 2), "    ");
}

#[test]
fn history_is_a_ring() {
    let mut s = Screen::new(1, 2, 3);
    for c in ['a', 'b', 'c', 'd', 'e'] {
        s.apply(Action::CursorMove(Motion::CarriageReturn));
        s.apply(Action::Print(c));
        s.apply(Action::LineFeed);
    }
    assert_eq!(s.history_len(), 3);
    assert_eq!(s.history_row(0)[0].glyph, Glyph::Char('c'));
    assert_eq!(s.history_row(1)[0].glyph, Glyph::Char('d'));
    assert_eq!(s.history_row(2)[0].glyph, Glyph::Char('e'));
}

#[test]
fn history_without_capacity_keeps_nothing() {
    let mut s = Screen::new(1, 2, 0);
    s.apply(Action::Print('a'));
    s.apply(Action::LineFeed);
    assert_eq!(s.history_len(), 0);
    assert_eq!(text(&s, 0), "  ");
}

#[test]
fn cursor_movements_are_clamped() {
    let mut s = Screen::new(5, 10, 10);
    s.apply(Action::CursorMove(Motion::Position { row: 2, col: 3 }));
    assert_eq!((s.cursor().row, s.cursor().col), (2, 3));
    s.apply(Action::CursorMove(Motion::Up(10)));
    assert_eq!((s.cursor().row, s.cursor().col), (0, 3));
    s.apply(Action::CursorMove(Motion::Down(65535)));
    assert_eq!((s.cursor().row, s.cursor().col), (4, 3));
    s.apply(Action::CursorMove(Motion::Forward(65535)));
    assert_eq!((s.cursor().row, s.cursor().col), (4, 9));
    s.apply(Action::CursorMove(Motion::Back(4)));
    assert_eq!((s.cursor().row, s.cursor().col), (4, 5));
    s.apply(Action::CursorMove(Motion::Back(100)));
    assert_eq!((s.cursor().row, s.cursor().col), (4, 0));
    s.apply(Action::CursorMove(Motion::Position { row: 65535, col: 65535 }));
    assert_eq!((s.cursor().row, s.cursor().col), (4, 9));
    s.apply(Action::CursorMove(Motion::PrevLine(2)));
    assert_eq!((s.cursor().row, s.cursor().col), (2, 0));
    s.apply(Action::CursorMove(Motion::Column(7)));
    s.apply(Action::CursorMove(Motion::NextLine(1)));
    assert_eq!((s.cursor().row, s.cursor().col), (3, 0));
    s.apply(Action::CursorMove(Motion::Column(70)));
    assert_eq!((s.cursor().row, s.cursor().col), (3, 9));
    s.apply(Action::CursorMove(Motion::Row(1)));
    assert_eq!((s.cursor().row, s.cursor().col), (1, 9));
    s.apply(Action::CursorMove(Motion::Backspace));
    assert_eq!((s.cursor().row, s.cursor().col), (1, 8));
    s.apply(Action::CursorMove(Motion::CarriageReturn));
    assert_eq!((s.cursor().row, s.cursor().col), (1, 0));
    s.apply(Action::CursorMove(Motion::Backspace));
    assert_eq!((s.cursor().row, s.cursor().col), (1, 0));
}

#[test]
fn tab_stops_are_eight_columns_apart() {
    let mut s = Screen::new(2, 30, 10);
    s.apply(Action::CursorMove(Motion::Tab(1)));
    assert_eq!(s.cursor().col, 8);
    s.apply(Action::CursorMove(Motion::Forward(3)));
    s.apply(Action::CursorMove(Motion::Tab(1)));
    assert_eq!(s.cursor().col, 16);
    s.apply(Action::CursorMove(Motion::Tab(2)));
    assert_eq!(s.cursor().col, 29);
    s.apply(Action::CursorMove(Motion::BackTab(1)));
    assert_eq!(s.cursor().col, 24);
    s.apply(Action::CursorMove(Motion::BackTab(2)));
    assert_eq!(s.cursor().col, 8);
    s.apply(Action::CursorMove(Motion::BackTab(5)));
    assert_eq!(s.cursor().col, 0);
    s.apply(Action::CursorMove(Motion::Tab(0)));
    assert_eq!(s.cursor().col, 0);
}

#[test]
fn erase_in_line() {
    let mut s = Screen::new(2, 6, 10);
    type_text(&mut s, "abcdef");
    s.apply(Action::CursorMove(Motion::Column(2)));
    s.apply(Action::EraseInLine(LineErase::ToEnd));
    assert_eq!(text(&s, 0), "ab    ");
    type_text(&mut s, "cdef");
    s.apply(Action::CursorMove(Motion::Column(2)));
    s.apply(Action::EraseInLine(LineErase::ToStart));
    assert_eq!(text(&s, 0), "   def");
    s.apply(Action::EraseInLine(LineErase::All));
    assert_eq!(text(&s, 0), "      ");
    assert_eq!(s.cursor().col, 2);
}

#[test]
fn erase_in_display() {
    let fill = |s: &mut Screen| {
        for r in 0..3u16 {
            s.apply(Action::CursorMove(Motion::Position { row: r, col: 0 }));
            for _ in 0..3 {
                s.apply(Action::Print('x'));
            }
        }
        s.apply(Action::CursorMove(Motion::Position { row: 1, col: 1 }));
    };
    let mut s = Screen::new(3, 3, 10);
    fill(&mut s);
    s.apply(Action::EraseInDisplay(DisplayErase::Below));
    assert_eq!((text(&s, 0), text(&s, 1), text(&s, 2)), ("xxx".into(), "x  ".into(), "   ".into()));
    fill(&mut s);
    s.apply(Action::EraseInDisplay(DisplayErase::Above));
    assert_eq!((text(&s, 0), text(&s, 1), text(&s, 2)), ("   ".into(), "  x".into(), "xxx".into()));
    fill(&mut s);
    s.apply(Action::EraseInDisplay(DisplayErase::All));
    assert_eq!((text(&s, 0), text(&s, 1), text(&s, 2)), ("   ".into(), "   ".into(), "   ".into()));
    assert_eq!((s.cursor().row, s.cursor().col), (1, 1));
}

#[test]
fn erase_history() {
    let mut s = Screen::new(1, 2, 5);
    s.apply(Action::Print('a'));
    s.apply(Action::LineFeed);
    s.apply(Action::Print('b'));
    assert_eq!(s.history_len(), 1);
    s.apply(Action::EraseInDisplay(DisplayErase::History));
    assert_eq!(s.history_len(), 0);
    assert_eq!(glyph(&s, 0, 1), Glyph::Char('b'));
}

#[test]
fn damage_after_a_print_is_the_row_written() {
    let mut s = Screen::new(4, 5, 10);
    s.clear_damage();
    s.apply(Action::CursorMove(Motion::Row(2)));
    assert!(!s.is_dirty(0) && !s.is_dirty(1) && !s.is_dirty(2) && !s.is_dirty(3));
    s.apply(Action::Print('a'));
    assert!(!s.is_dirty(0) && !s.is_dirty(1) && s.is_dirty(2) && !s.is_dirty(3));
}

#[test]
fn damage_after_a_wrapping_print_is_the_new_row() {
    let mut s = Screen::new(3, 2, 10);
    type_text(&mut s, "ab");
    s.clear_damage();
    s.apply(Action::Print('c'));
    assert!(!s.is_dirty(0) && s.is_dirty(1) && !s.is_dirty(2));
}

#[test]
fn damage_after_a_scroll_is_every_row() {
    let mut s = Screen::new(2, 2, 10);
    type_text(&mut s, "abcd");
    s.clear_damage();
    s.apply(Action::Print('e'));
    assert!(s.is_dirty(0) && s.is_dirty(1));
}

#[test]
fn damage_after_a_full_erase_is_every_row() {
    let mut s = Screen::new(3, 2, 10);
    s.clear_damage();
    s.apply(Action::EraseInDisplay(DisplayErase::All));
    assert!(s.is_dirty(0) && s.is_dirty(1) && s.is_dirty(2));
}

#[test]
fn damage_after_partial_erases() {
    let mut s = Screen::new(4, 2, 10);
    s.apply(Action::CursorMove(Motion::Row(1)));
    s.clear_damage();
    s.apply(Action::EraseInLine(LineErase::All));
    assert!(!s.is_dirty(0) && s.is_dirty(1) && !s.is_dirty(2) && !s.is_dirty(3));
    s.clear_damage();
    s.apply(Action::EraseInDisplay(DisplayErase::Below));
    assert!(!s.is_dirty(0) && s.is_dirty(1) && s.is_dirty(2) && s.is_dirty(3));
    s.clear_damage();
    s.apply(Action::EraseInDisplay(DisplayErase::Above));
    assert!(s.is_dirty(0) && s.is_dirty(1) && !s.is_dirty(2) && !s.is_dirty(3));
}

#[test]
fn cursor_movement_damages_nothing() {
    let mut s = Screen::new(5, 3, 10);
    s.clear_damage();
    s.apply(Action::CursorMove(Motion::Position { row: 2, col: 2 }));
    s.apply(Action::LineFeed);
    s.apply(Action::SetSgr(vec![1]));
    s.apply(Action::Bell);
    for r in 0..5 {
        assert!(!s.is_dirty(r));
    }
    assert_eq!(s.cursor().row, 3);
}

#[test]
fn sgr_changes_the_pen() {
    let mut s = Screen::new(2, 4, 10);
    s.apply(Action::SetSgr(vec![1, 4, 31, 44]));
    let pen = s.pen();
    assert!(pen.attrs.bold && pen.attrs.underline && !pen.attrs.italic);
    assert_eq!(pen.fg, Color::Indexed(1));
    assert_eq!(pen.bg, Color::Indexed(4));
    s.apply(Action::Print('x'));
    assert_eq!(s.cell(0, 0).unwrap().style, pen);
    s.apply(Action::SetSgr(vec![22, 24, 39, 49]));
    assert_eq!(s.pen(), Style::plain());
}

#[test]
fn sgr_all_attributes_and_reset() {
    let mut s = Screen::new(2, 4, 10);
    s.apply(Action::SetSgr(vec![1, 2, 3, 4, 7, 9]));
    assert_eq!(
        s.pen().attrs,
        Attrs {
            bold: true,
            dim: true,
            italic: true,
            underline: true,
            inverse: true,
            strikethrough: true
        }
    );
    s.apply(Action::SetSgr(vec![23, 27, 29]));
    assert_eq!(
        s.pen().attrs,
        Attrs {
            bold: true,
            dim: true,
            italic: false,
            underline: true,
            inverse: false,
            strikethrough: false
        }
    );
    s.apply(Action::SetSgr(vec![]));
    assert_eq!(s.pen(), Style::plain());
    s.apply(Action::SetSgr(vec![3, 0]));
    assert_eq!(s.pen(), Style::plain());
}

#[test]
fn sgr_extended_colours() {
    let mut s = Screen::new(2, 4, 10);
    s.apply(Action::SetSgr(vec![38, 5, 200, 48, 2, 1, 2, 3, 1]));
    assert_eq!(s.pen().fg, Color::Indexed(200));
    assert_eq!(s.pen().bg, Color::Rgb(1, 2, 3));
    assert!(s.pen().attrs.bold);
    s.apply(Action::SetSgr(vec![0, 95, 107]));
    assert_eq!(s.pen().fg, Color::Indexed(13));
    assert_eq!(s.pen().bg, Color::Indexed(15));
}

#[test]
fn sgr_malformed_extended_colour_ends_the_sequence() {
    let mut s = Screen::new(2, 4, 10);
    s.apply(Action::SetSgr(vec![1, 38, 5, 300, 4]));
    assert!(s.pen().attrs.bold);
    assert!(!s.pen().attrs.underline);
    assert_eq!(s.pen().fg, Color::Default);
    s.apply(Action::SetSgr(vec![38]));
    assert_eq!(s.pen().fg, Color::Default);
    s.apply(Action::SetSgr(vec![48, 2, 1, 2]));
    assert_eq!(s.pen().bg, Color::Default);
}

#[test]
fn sgr_unknown_parameter_changes_nothing() {
    let mut s = Screen::new(2, 4, 10);
    s.apply(Action::SetSgr(vec![1]));
    let pen = s.pen();
    s.apply(Action::SetSgr(vec![5, 6, 8, 50, 99, 110, 65535]));
    assert_eq!(s.pen(), pen);
}

#[test]
fn modes_are_set_and_reset() {
    let mut s = Screen::new(2, 4, 10);
    s.apply(Action::SetMode { codes: vec![1, 66, 2004, 1006, 1002], enable: true });
    let m = s.modes();
    assert!(m.app_cursor && m.app_keypad && m.bracketed_paste && m.mouse_sgr);
    assert_eq!(m.mouse, MouseTracking::Drag);
    s.apply(Action::SetMode { codes: vec![1, 66, 2004, 1006, 1002], enable: false });
    let m = s.modes();
    assert!(!m.app_cursor && !m.app_keypad && !m.bracketed_paste && !m.mouse_sgr);
    assert_eq!(m.mouse, MouseTracking::Off);
    s.apply(Action::SetMode { codes: vec![1000], enable: true });
    assert_eq!(s.modes().mouse, MouseTracking::Click);
    s.apply(Action::SetMode { codes: vec![1003], enable: true });
    assert_eq!(s.modes().mouse, MouseTracking::Motion);
}

#[test]
fn cursor_modes() {
    let mut s = Screen::new(2, 4, 10);
    s.apply(Action::SetMode { codes: vec![25, 12], enable: false });
    assert!(!s.cursor().visible);
    assert!(!s.cursor().blink);
    s.apply(Action::SetMode { codes: vec![25], enable: true });
    assert!(s.cursor().visible);
    s.apply(Action::SetCursorStyle { shape: CursorShape::Bar, blink: true });
    assert_eq!(s.cursor().shape, CursorShape::Bar);
    assert!(s.cursor().blink);
}

#[test]
fn origin_mode_homes_the_cursor() {
    let mut s = Screen::new(3, 4, 10);
    s.apply(Action::CursorMove(Motion::Position { row: 2, col: 2 }));
    s.apply(Action::SetMode { codes: vec![6], enable: true });
    assert!(s.modes().origin);
    assert_eq!((s.cursor().row, s.cursor().col), (0, 0));
}

#[test]
fn unknown_mode_changes_nothing() {
    let mut s = Screen::new(2, 4, 10);
    let before = s.modes();
    s.apply(Action::SetMode { codes: vec![0, 2, 9999], enable: true });
    assert_eq!(s.modes(), before);
}

#[test]
fn alternate_screen_round_trip() {
    let mut s = Screen::new(2, 4, 10);
    type_text(&mut s, "main");
    s.apply(Action::CursorMove(Motion::Position { row: 1, col: 2 }));
    s.apply(Action::SwitchAlternateScreen(true));
    assert!(s.modes().alt_screen);
    assert_eq!(text(&s, 0), "    ");
    type_text(&mut s, "zz");
    for _ in 0..5 {
        s.apply(Action::LineFeed);
    }
    assert_eq!(s.history_len(), 0);
    s.apply(Action::SwitchAlternateScreen(false));
    assert!(!s.modes().alt_screen);
    assert_eq!(text(&s, 0), "main");
    assert_eq!(text(&s, 1), "    ");
    assert_eq!((s.cursor().row, s.cursor().col), (1, 2));
}

#[test]
fn alternate_screen_through_a_mode_list() {
    let mut s = Screen::new(2, 4, 10);
    type_text(&mut s, "main");
    s.apply(Action::SetMode { codes: vec![1049, 25], enable: true });
    assert!(s.modes().alt_screen);
    assert_eq!(text(&s, 0), "    ");
    s.apply(Action::SetMode { codes: vec![25, 1049], enable: false });
    assert_eq!(text(&s, 0), "main");
}

#[test]
fn switching_to_the_shown_screen_changes_nothing() {
    let mut s = Screen::new(2, 4, 10);
    type_text(&mut s, "ab");
    s.clear_damage();
    s.apply(Action::SwitchAlternateScreen(false));
    assert_eq!(text(&s, 0), "ab  ");
    assert!(!s.is_dirty(0));
}

#[test]
fn resize_keeps_what_fits() {
    let mut s = Screen::new(3, 4, 10);
    type_text(&mut s, "abcd");
    s.apply(Action::CursorMove(Motion::Position { row: 1, col: 0 }));
    type_text(&mut s, "efgh");
    s.apply(Action::CursorMove(Motion::Position { row: 2, col: 3 }));
    s.resize(2, 6);
    assert_eq!((s.rows(), s.cols()), (2, 6));
    assert_eq!(text(&s, 0), "abcd  ");
    assert_eq!(text(&s, 1), "efgh  ");
    assert_eq!((s.cursor().row, s.cursor().col), (1, 3));
    s.resize(3, 2);
    assert_eq!(text(&s, 0), "ab");
    assert_eq!(text(&s, 1), "ef");
    assert_eq!(text(&s, 2), "  ");
    assert_eq!((s.cursor().row, s.cursor().col), (1, 1));
    bounds_hold(&s);
}

#[test]
fn resize_twice_is_resize_once() {
    let mut a = Screen::new(4, 7, 10);
    type_text(&mut a, "hello world, again");
    a.select(Point { row: 0, col: 1 }, Point { row: 3, col: 6 }, SelectionMode::Linear);
    let mut b = Screen::new(4, 7, 10);
    type_text(&mut b, "hello world, again");
    b.select(Point { row: 0, col: 1 }, Point { row: 3, col: 6 }, SelectionMode::Linear);
    a.resize(2, 5);
    b.resize(2, 5);
    b.resize(2, 5);
    assert_eq!((a.rows(), a.cols()), (b.rows(), b.cols()));
    for r in 0..a.rows() {
        assert_eq!(a.row(r), b.row(r));
        assert_eq!(a.is_dirty(r), b.is_dirty(r));
    }
    assert_eq!(a.cursor(), b.cursor());
    assert_eq!(a.selection(), b.selection());
    assert_eq!(a.history_len(), b.history_len());
}

#[test]
fn resize_to_zero_is_one_by_one() {
    let mut s = Screen::new(3, 3, 10);
    s.apply(Action::CursorMove(Motion::Position { row: 2, col: 2 }));
    s.resize(0, 0);
    assert_eq!((s.rows(), s.cols()), (1, 1));
    assert_eq!((s.cursor().row, s.cursor().col), (0, 0));
}

#[test]
fn resize_damages_every_row() {
    let mut s = Screen::new(3, 3, 10);
    s.clear_damage();
    s.resize(2, 3);
    assert!(s.is_dirty(0) && s.is_dirty(1));
}

#[test]
fn title_and_bell_are_announced() {
    let mut s = Screen::new(2, 2, 10);
    assert_eq!(
        s.apply(Action::SetTitle(b"t".to_vec())),
        Effect::Emit(Event::TitleChanged(b"t".to_vec()))
    );
    assert_eq!(s.apply(Action::Bell), Effect::Emit(Event::BellRung));
    assert_eq!(s.apply(Action::Print('a')), Effect::Nothing);
}

#[test]
fn reports_are_answered() {
    let mut s = Screen::new(30, 120, 10);
    assert_eq!(
        s.apply(Action::RequestReport(Report::Status)),
        Effect::Reply(b"\x1b[0n".to_vec())
    );
    assert_eq!(
        s.apply(Action::RequestReport(Report::DeviceAttributes)),
        Effect::Reply(b"\x1b[?6c".to_vec())
    );
    assert_eq!(
        s.apply(Action::RequestReport(Report::CursorPosition)),
        Effect::Reply(b"\x1b[1;1R".to_vec())
    );
    s.apply(Action::CursorMove(Motion::Position { row: 11, col: 104 }));
    assert_eq!(
        s.apply(Action::RequestReport(Report::CursorPosition)),
        Effect::Reply(b"\x1b[12;105R".to_vec())
    );
}

#[test]
fn palette_is_kept() {
    let mut s = Screen::new(2, 2, 10);
    assert_eq!(s.palette_color(3), None);
    s.clear_damage();
    s.apply(Action::SetPaletteColor { index: 3, r: 1, g: 2, b: 3 });
    assert_eq!(s.palette_color(3), Some((1, 2, 3)));
    assert_eq!(s.palette_color(4), None);
    assert!(s.is_dirty(0) && s.is_dirty(1));
}

#[test]
fn hyperlinks_are_given_to_cells() {
    let mut s = Screen::new(2, 4, 10);
    s.apply(Action::Print('a'));
    s.apply(Action::SetHyperlink(Some(b"http://x".to_vec())));
    s.apply(Action::Print('b'));
    s.apply(Action::SetHyperlink(None));
    s.apply(Action::Print('c'));
    assert_eq!(s.cell(0, 0).unwrap().link, None);
    let id = s.cell(0, 1).unwrap().link.unwrap();
    assert_eq!(s.link_target(id), Some(&b"http://x".to_vec()));
    assert_eq!(s.cell(0, 2).unwrap().link, None);
    assert_eq!(s.link_target(id + 1), None);
}

#[test]
fn selection_is_ordered_and_clamped() {
    let mut s = Screen::new(3, 4, 10);
    s.select(Point { row: 9, col: 9 }, Point { row: 0, col: 2 }, SelectionMode::Linear);
    assert_eq!(
        s.selection(),
        Some(Selection {
            start: Point { row: 0, col: 2 },
            end: Point { row: 2, col: 4 },
            mode: SelectionMode::Linear
        })
    );
    s.deselect();
    assert_eq!(s.selection(), None);
}

#[test]
fn selection_follows_its_text_when_history_is_full() {
    let mut s = Screen::new(2, 3, 0);
    s.select(Point { row: 1, col: 0 }, Point { row: 1, col: 2 }, SelectionMode::Linear);
    s.apply(Action::CursorMove(Motion::Row(1)));
    s.apply(Action::LineFeed);
    assert_eq!(
        s.selection(),
        Some(Selection {
            start: Point { row: 0, col: 0 },
            end: Point { row: 0, col: 2 },
            mode: SelectionMode::Linear
        })
    );
    s.apply(Action::LineFeed);
    assert_eq!(s.selection(), None);
}

#[test]
fn selection_stays_when_history_grows() {
    let mut s = Screen::new(2, 3, 10);
    s.select(Point { row: 1, col: 0 }, Point { row: 1, col: 2 }, SelectionMode::Linear);
    let before = s.selection();
    s.apply(Action::CursorMove(Motion::Row(1)));
    s.apply(Action::LineFeed);
    assert_eq!(s.base(), 1);
    assert_eq!(s.selection(), before);
}

#[test]
fn selection_modes_cover_cells() {
    let linear = Selection::new(
        Point { row: 1, col: 3 },
        Point { row: 2, col: 1 },
        SelectionMode::Linear,
    );
    assert!(linear.contains(1, 3) && linear.contains(1, 99) && linear.contains(2, 0));
    assert!(!linear.contains(1, 2) && !linear.contains(2, 1) && !linear.contains(0, 5));
    let block = Selection::new(
        Point { row: 2, col: 5 },
        Point { row: 0, col: 1 },
        SelectionMode::Block,
    );
    assert_eq!(block.start, Point { row: 0, col: 1 });
    assert_eq!(block.end, Point { row: 2, col: 5 });
    assert!(block.contains(0, 1) && block.contains(2, 4) && block.contains(1, 3));
    assert!(!block.contains(1, 5) && !block.contains(1, 0) && !block.contains(3, 2));
    let line = Selection::new(
        Point { row: 1, col: 3 },
        Point { row: 2, col: 1 },
        SelectionMode::Line,
    );
    assert!(line.contains(1, 0) && line.contains(2, 99) && !line.contains(0, 0));
    assert!(line.spans_row(1) && line.spans_row(2) && !line.spans_row(3));
    let word = Selection::new(
        Point { row: 1, col: 3 },
        Point { row: 1, col: 6 },
        SelectionMode::Word,
    );
    assert!(word.contains(1, 3) && word.contains(1, 5) && !word.contains(1, 6));
}

#[test]
fn any_action_keeps_the_bounds() {
    let actions = |n: u16| -> Vec<Action> {
        vec![
            Action::Print('x'),
            Action::Print('中'),
            Action::LineFeed,
            Action::CursorMove(Motion::Up(n)),
            Action::CursorMove(Motion::Down(n)),
            Action::CursorMove(Motion::Forward(n)),
            Action::CursorMove(Motion::Back(n)),
            Action::CursorMove(Motion::Tab(n)),
            Action::CursorMove(Motion::BackTab(n)),
            Action::CursorMove(Motion::Position { row: n, col: n }),
            Action::EraseInLine(LineErase::ToStart),
            Action::EraseInDisplay(DisplayErase::Below),
            Action::EraseInDisplay(DisplayErase::Above),
            Action::SwitchAlternateScreen(n % 2 == 0),
            Action::SetMode { codes: vec![7, 6, n], enable: n % 3 == 0 },
        ]
    };
    let mut s = Screen::new(3, 5, 2);
    for n in [0u16, 1, 2, 3, 4, 5, 7, 8, 9, 255, 65535] {
        for a in actions(n) {
            s.apply(a);
            bounds_hold(&s);
        }
        s.resize(n % 4, n % 6);
        bounds_hold(&s);
    }
}

#[test]
fn word_selection_takes_the_whole_word() {
    let mut s = Screen::new(2, 12, 10);
    type_text(&mut s, "ls  -la foo");
    s.select_word(0, 5);
    assert_eq!(
        s.selection(),
        Some(Selection {
            start: Point { row: 0, col: 4 },
            end: Point { row: 0, col: 7 },
            mode: SelectionMode::Word
        })
    );
    assert_eq!(s.selected_text(), vec!['-', 'l', 'a']);
    s.select_word(0, 0);
    assert_eq!(s.selected_text(), vec!['l', 's']);
    s.select_word(0, 10);
    assert_eq!(s.selected_text(), vec!['f', 'o', 'o']);
    s.select_word(0, 3);
    assert_eq!(s.selected_text(), vec![' ']);
    s.select_word(0, 11);
    assert_eq!(s.selected_text(), vec![' ']);
    let before = s.selection();
    s.select_word(2, 0);
    s.select_word(0, 12);
    assert_eq!(s.selection(), before);
}

#[test]
fn word_selection_spans_a_full_row() {
    let mut s = Screen::new(1, 3, 0);
    type_text(&mut s, "abc");
    s.select_word(0, 1);
    assert_eq!(s.selected_text(), vec!['a', 'b', 'c']);
}

#[test]
fn word_selection_keeps_wide_characters_whole() {
    let mut s = Screen::new(1, 8, 0);
    type_text(&mut s, "a中b c");
    s.select_word(0, 2);
    assert_eq!(s.selected_text(), vec!['a', '中', 'b']);
}

#[test]
fn selected_text_of_each_mode() {
    let mut s = Screen::new(3, 4, 10);
    type_text(&mut s, "abcdefghijkl");
    assert_eq!(s.selected_text(), Vec::<char>::new());
    s.select(Point { row: 0, col: 2 }, Point { row: 2, col: 1 }, SelectionMode::Linear);
    assert_eq!(s.selected_text().iter().collect::<String>(), "cd\nefgh\ni");
    s.select(Point { row: 0, col: 1 }, Point { row: 1, col: 3 }, SelectionMode::Block);
    assert_eq!(s.selected_text().iter().collect::<String>(), "bc\nfg");
    s.select(Point { row: 1, col: 3 }, Point { row: 2, col: 0 }, SelectionMode::Line);
    assert_eq!(s.selected_text().iter().collect::<String>(), "efgh\nijkl");
    s.select(Point { row: 1, col: 1 }, Point { row: 1, col: 1 }, SelectionMode::Linear);
    assert_eq!(s.selected_text(), Vec::<char>::new());
}

#[test]
fn selected_text_reaches_into_the_history() {
    let mut s = Screen::new(2, 3, 10);
    type_text(&mut s, "abcdefghi");
    assert_eq!(s.base(), 1);
    s.select(Point { row: 0, col: 1 }, Point { row: 2, col: 2 }, SelectionMode::Linear);
    assert_eq!(s.selected_text().iter().collect::<String>(), "bc\ndef\ngh");
    s.resize(2, 2);
    assert_eq!(s.selected_text().iter().collect::<String>(), "bc\nde\ngh");
}

#[test]
fn resize_on_the_alternate_screen_keeps_the_primary_grid() {
    let mut s = Screen::new(3, 4, 10);
    type_text(&mut s, "abcdefgh");
    s.apply(Action::SwitchAlternateScreen(true));
    assert_eq!((s.cursor().row, s.cursor().col), (1, 3));
    s.apply(Action::CursorMove(Motion::Position { row: 0, col: 0 }));
    type_text(&mut s, "zz");
    s.resize(2, 3);
    bounds_hold(&s);
    assert_eq!(text(&s, 0), "zz ");
    s.apply(Action::SwitchAlternateScreen(false));
    bounds_hold(&s);
    assert_eq!(text(&s, 0), "abc");
    assert_eq!(text(&s, 1), "efg");
    assert_eq!((s.cursor().row, s.cursor().col), (1, 2));
}

#[test]
fn selection_is_dropped_when_the_screen_is_switched() {
    let mut s = Screen::new(3, 4, 10);
    s.select(Point { row: 0, col: 0 }, Point { row: 1, col: 2 }, SelectionMode::Linear);
    s.apply(Action::SwitchAlternateScreen(true));
    assert_eq!(s.selection(), None);
    assert_eq!(s.base(), 0);
}

#[test]
fn history_rows_keep_their_width_over_a_resize() {
    let mut s = Screen::new(1, 4, 10);
    type_text(&mut s, "abcd");
    s.apply(Action::LineFeed);
    s.resize(1, 2);
    assert_eq!(s.history_row(0).len(), 4);
    assert_eq!(s.row(0).len(), 2);
    s.select(Point { row: 0, col: 0 }, Point { row: 0, col: 9 }, SelectionMode::Linear);
    assert_eq!(s.selected_text(), vec!['a', 'b']);
}

#[test]
fn pending_wrap_is_dropped_by_a_movement() {
    let mut s = Screen::new(2, 3, 10);
    type_text(&mut s, "abc");
    assert!(s.cursor().pending_wrap);
    s.apply(Action::CursorMove(Motion::Back(1)));
    assert!(!s.cursor().pending_wrap);
    assert_eq!(s.cursor().col, 1);
    type_text(&mut s, "x");
    assert_eq!(text(&s, 0), "axc");
    assert_eq!(text(&s, 1), "   ");
}

#[test]
fn wide_character_without_auto_wrap_goes_to_the_end_of_the_row() {
    let mut s = Screen::new(2, 4, 10);
    s.apply(Action::SetMode { codes: vec![7], enable: false });
    type_text(&mut s, "abc中");
    assert_eq!(glyph(&s, 0, 0), Glyph::Char('a'));
    assert_eq!(glyph(&s, 0, 1), Glyph::Char('b'));
    assert_eq!(glyph(&s, 0, 2), Glyph::Char('中'));
    assert_eq!(glyph(&s, 0, 3), Glyph::Continuation);
    assert_eq!(s.cursor().row, 0);
}

#[test]
fn erase_history_on_the_alternate_screen_erases_nothing() {
    let mut s = Screen::new(1, 2, 5);
    s.apply(Action::Print('a'));
    s.apply(Action::LineFeed);
    s.select(Point { row: 0, col: 0 }, Point { row: 0, col: 1 }, SelectionMode::Linear);
    s.apply(Action::SwitchAlternateScreen(true));
    s.select(Point { row: 0, col: 0 }, Point { row: 0, col: 1 }, SelectionMode::Linear);
    let selection = s.selection();
    s.apply(Action::EraseInDisplay(DisplayErase::History));
    assert_eq!(s.history_len(), 1);
    assert_eq!(s.selection(), selection);
    s.apply(Action::SwitchAlternateScreen(false));
    assert_eq!(s.history_len(), 1);
    assert_eq!(s.history_row(0)[0].glyph, Glyph::Char('a'));
    s.apply(Action::EraseInDisplay(DisplayErase::History));
    assert_eq!(s.history_len(), 0);
}

#[test]
fn indexed_colours_come_from_the_palette() {
    let mut s = Screen::new(1, 1, 0);
    assert_eq!(s.indexed_rgb(1), (128, 0, 0));
    s.apply(Action::SetPaletteColor { index: 1, r: 9, g: 8, b: 7 });
    assert_eq!(s.indexed_rgb(1), (9, 8, 7));
    assert_eq!(s.indexed_rgb(2), (0, 128, 0));
}
