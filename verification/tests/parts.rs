use terminal_plugin::action::{Action, Event};
use terminal_plugin::base64::decode;
use terminal_plugin::cell::{wide, Cell, Glyph, Style};
use terminal_plugin::damage::Damage;
use terminal_plugin::events::EventBus;
use terminal_plugin::grid::{make_blank_row, Grid};
use terminal_plugin::interpreter::Interpreter;
use terminal_plugin::palette::palette_rgb;
use terminal_plugin::scrollback::Scrollback;
use terminal_plugin::screen::push_decimal;
use terminal_plugin::selection::{Point, Selection, SelectionMode};
use terminal_plugin::terminal::Terminal;

fn cell(c: char) -> Cell {
    Cell::with_char(c, Style::plain(), None)
}

fn row_of(t: &str) -> Vec<Cell> {
    t.chars().map(cell).collect()
}

#[test]
fn grid_put_and_get() {
    let mut g = Grid::new(2, 3);
    g.put(1, 2, cell('x'));
    assert_eq!(g.get(1, 2), cell('x'));
    assert_eq!(g.get(0, 0), Cell::blank());
    assert_eq!(g.cell(2, 0), None);
    assert_eq!(g.cell(1, 3), None);
    assert_eq!(g.row(1)[2], cell('x'));
}

#[test]
fn grid_erase_is_half_open() {
    let mut g = Grid::new(1, 5);
    for c in 0..5 {
        g.put(0, c, cell('x'));
    }
    g.erase(0, 1, 3);
    let glyphs: Vec<bool> = g.row(0).iter().map(|c| c.is_empty()).collect();
    assert_eq!(glyphs, vec![false, true, true, false, false]);
    g.erase(0, 2, 2);
    assert!(!g.get(0, 3).is_empty());
}

#[test]
fn grid_erase_rows_is_half_open() {
    let mut g = Grid::new(4, 1);
    for r in 0..4 {
        g.put(r, 0, cell('x'));
    }
    g.erase_rows(1, 3);
    let empty: Vec<bool> = (0..4).map(|r| g.get(r, 0).is_empty()).collect();
    assert_eq!(empty, vec![false, true, true, false]);
}

#[test]
fn grid_scroll_up_returns_the_top_row() {
    let mut g = Grid::new(3, 2);
    g.put(0, 0, cell('a'));
    g.put(1, 0, cell('b'));
    g.put(2, 0, cell('c'));
    let top = g.scroll_up();
    assert_eq!(top, vec![cell('a'), Cell::blank()]);
    assert_eq!(g.get(0, 0), cell('b'));
    assert_eq!(g.get(1, 0), cell('c'));
    assert_eq!(g.row(2), &make_blank_row(2));
    assert_eq!((g.rows(), g.cols()), (3, 2));
}

#[test]
fn grid_resize_cuts_and_pads() {
    let mut g = Grid::new(2, 2);
    g.put(0, 0, cell('a'));
    g.put(0, 1, cell('b'));
    g.put(1, 0, cell('c'));
    g.resize(3, 1);
    assert_eq!((g.rows(), g.cols()), (3, 1));
    assert_eq!(g.get(0, 0), cell('a'));
    assert_eq!(g.get(1, 0), cell('c'));
    assert_eq!(g.get(2, 0), Cell::blank());
    g.resize(1, 3);
    assert_eq!(g.row(0), &vec![cell('a'), Cell::blank(), Cell::blank()]);
    g.resize(0, 0);
    assert_eq!((g.rows(), g.cols()), (1, 1));
}

#[test]
fn scrollback_drops_the_oldest() {
    let mut s = Scrollback::new(3);
    assert_eq!((s.len(), s.cap()), (0, 3));
    for t in ["a", "b", "c"] {
        s.push(row_of(t));
    }
    assert_eq!(s.len(), 3);
    assert_eq!(s.get(0), &row_of("a"));
    assert_eq!(s.get(2), &row_of("c"));
    s.push(row_of("d"));
    assert_eq!(s.len(), 3);
    assert_eq!((s.get(0), s.get(1), s.get(2)), (&row_of("b"), &row_of("c"), &row_of("d")));
    for t in ["e", "f", "g", "h"] {
        s.push(row_of(t));
    }
    assert_eq!((s.get(0), s.get(1), s.get(2)), (&row_of("f"), &row_of("g"), &row_of("h")));
    s.clear();
    assert_eq!(s.len(), 0);
    s.push(row_of("i"));
    assert_eq!(s.get(0), &row_of("i"));
}

#[test]
fn scrollback_of_one() {
    let mut s = Scrollback::new(1);
    s.push(row_of("a"));
    s.push(row_of("b"));
    assert_eq!(s.len(), 1);
    assert_eq!(s.get(0), &row_of("b"));
}

#[test]
fn scrollback_of_none() {
    let mut s = Scrollback::new(0);
    s.push(row_of("a"));
    assert_eq!(s.len(), 0);
}

#[test]
fn damage_marks_and_clears() {
    let mut d = Damage::new(4);
    assert!(d.is_dirty(0) && d.is_dirty(3) && !d.is_dirty(4));
    d.clear();
    assert!(!d.is_dirty(0) && !d.is_dirty(3));
    d.mark(2);
    d.mark(9);
    assert!(!d.is_dirty(1) && d.is_dirty(2) && !d.is_dirty(3) && !d.is_dirty(9));
    d.mark_range(0, 2);
    assert!(d.is_dirty(0) && d.is_dirty(1) && d.is_dirty(2) && !d.is_dirty(3));
    d.clear();
    d.mark_all();
    assert!(d.is_dirty(0) && d.is_dirty(3));
    d.clear();
    assert!(!d.is_dirty(2));
    d.reset(2);
    assert!(d.is_dirty(1) && !d.is_dirty(2));
}

#[test]
fn event_bus_keeps_the_order() {
    let mut bus = EventBus::new();
    bus.push(Event::BellRung);
    bus.push(Event::TitleChanged(b"t".to_vec()));
    bus.wake();
    bus.wake();
    bus.push(Event::ProcessExited(0));
    bus.wake();
    assert_eq!(bus.len(), 5);
    assert_eq!(bus.pop(), Some(Event::BellRung));
    assert_eq!(
        bus.drain(),
        vec![
            Event::TitleChanged(b"t".to_vec()),
            Event::Woken,
            Event::ProcessExited(0),
            Event::Woken,
        ]
    );
    assert_eq!(bus.len(), 0);
    assert_eq!(bus.pop(), None);
    assert_eq!(bus.drain(), Vec::<Event>::new());
}

#[test]
fn selection_clamp_and_shift() {
    let s = Selection::new(Point { row: 5, col: 9 }, Point { row: 1, col: 2 }, SelectionMode::Linear);
    assert_eq!(s.start, Point { row: 1, col: 2 });
    let c = s.clamp(3, 4);
    assert_eq!(c.start, Point { row: 1, col: 2 });
    assert_eq!(c.end, Point { row: 2, col: 4 });
    let c = s.clamp(1, 4);
    assert_eq!((c.start, c.end), (Point { row: 0, col: 4 }, Point { row: 0, col: 4 }));
    let up = s.shift_up().unwrap();
    assert_eq!((up.start, up.end), (Point { row: 0, col: 2 }, Point { row: 4, col: 9 }));
    let cut = up.shift_up().unwrap();
    assert_eq!((cut.start, cut.end), (Point { row: 0, col: 0 }, Point { row: 3, col: 9 }));
    let block = Selection::new(Point { row: 0, col: 3 }, Point { row: 1, col: 5 }, SelectionMode::Block);
    let cut = block.shift_up().unwrap();
    assert_eq!((cut.start, cut.end), (Point { row: 0, col: 3 }, Point { row: 0, col: 5 }));
    assert_eq!(cut.shift_up(), None);
}

#[test]
fn wide_characters() {
    for c in ['中', '한', 'あ', '😀', 'Ａ', '\u{1100}', '\u{3FFFD}'] {
        assert!(wide(c));
    }
    for c in ['a', ' ', 'é', 'Ω', '\u{10FF}', '\u{1160}', '\u{40000}'] {
        assert!(!wide(c));
    }
}

#[test]
fn decimal_digits() {
    for n in [0usize, 7, 10, 99, 100, 65536, 4294967295] {
        let mut out = b"x".to_vec();
        push_decimal(&mut out, n);
        assert_eq!(out, format!("x{}", n).into_bytes());
    }
}

#[test]
fn base64_decodes() {
    assert_eq!(decode(&b"".to_vec()), Some(Vec::new()));
    assert_eq!(decode(&b"Zg==".to_vec()), Some(b"f".to_vec()));
    assert_eq!(decode(&b"Zm8=".to_vec()), Some(b"fo".to_vec()));
    assert_eq!(decode(&b"Zm9v".to_vec()), Some(b"foo".to_vec()));
    assert_eq!(decode(&b"Zm9vYg==".to_vec()), Some(b"foob".to_vec()));
    assert_eq!(decode(&b"Zm9vYmE=".to_vec()), Some(b"fooba".to_vec()));
    assert_eq!(decode(&b"Zm9vYmFy".to_vec()), Some(b"foobar".to_vec()));
    assert_eq!(decode(&b"Zm8".to_vec()), Some(b"fo".to_vec()));
    assert_eq!(decode(&b"+/+/".to_vec()), Some(vec![0xFB, 0xFF, 0xBF]));
    assert_eq!(decode(&b"AAAA".to_vec()), Some(vec![0, 0, 0]));
    assert_eq!(decode(&b"////".to_vec()), Some(vec![255, 255, 255]));
}

#[test]
fn base64_refuses_what_is_not_base64() {
    assert_eq!(decode(&b"Z".to_vec()), None);
    assert_eq!(decode(&b"Zm9vY".to_vec()), None);
    assert_eq!(decode(&b"Zm9*".to_vec()), None);
    assert_eq!(decode(&b"?".to_vec()), None);
    assert_eq!(decode(&b"Zg=a".to_vec()), None);
    assert_eq!(decode(&b"Z===".to_vec()), None);
    assert_eq!(decode(&b"Zm 9".to_vec()), None);
}

#[test]
fn clipboard_write_is_announced() {
    let mut i = Interpreter::new();
    let mut actions = Vec::new();
    for b in b"\x1b]52;c;aGVsbG8=\x07\x1b]52;c;?\x07\x1b]52;c\x07" {
        if let Some(a) = i.advance(*b) {
            actions.push(a);
        }
    }
    assert_eq!(actions, vec![Action::WriteClipboard(b"hello".to_vec())]);
    let mut t = Terminal::new(2, 2, 0);
    t.feed(b"\x1b]52;;aGk=\x1b\\");
    assert_eq!(t.poll_event(), Some(Event::ClipboardWriteRequested(b"hi".to_vec())));
    assert_eq!(t.poll_event(), Some(Event::Woken));
    assert_eq!(t.screen().cell(0, 0).unwrap().glyph, Glyph::Empty);
}

#[test]
fn palette_entries() {
    assert_eq!(palette_rgb(0), (0, 0, 0));
    assert_eq!(palette_rgb(1), (128, 0, 0));
    assert_eq!(palette_rgb(2), (0, 128, 0));
    assert_eq!(palette_rgb(3), (128, 128, 0));
    assert_eq!(palette_rgb(4), (0, 0, 128));
    assert_eq!(palette_rgb(6), (0, 128, 128));
    assert_eq!(palette_rgb(7), (192, 192, 192));
    assert_eq!(palette_rgb(8), (128, 128, 128));
    assert_eq!(palette_rgb(9), (255, 0, 0));
    assert_eq!(palette_rgb(12), (0, 0, 255));
    assert_eq!(palette_rgb(15), (255, 255, 255));
    assert_eq!(palette_rgb(16), (0, 0, 0));
    assert_eq!(palette_rgb(17), (0, 0, 95));
    assert_eq!(palette_rgb(21), (0, 0, 255));
    assert_eq!(palette_rgb(22), (0, 95, 0));
    assert_eq!(palette_rgb(52), (95, 0, 0));
    assert_eq!(palette_rgb(196), (255, 0, 0));
    assert_eq!(palette_rgb(208), (255, 135, 0));
    assert_eq!(palette_rgb(231), (255, 255, 255));
    assert_eq!(palette_rgb(232), (8, 8, 8));
    assert_eq!(palette_rgb(244), (128, 128, 128));
    assert_eq!(palette_rgb(255), (238, 238, 238));
}
