use terminal_plugin::action::Event;
use terminal_plugin::drawer::{
    cell_at, cells_for, TerminalDrawer, SCROLLBACK_ROWS, WRITE_QUEUE_LIMIT,
};
use terminal_plugin::input::{
    InputEvent, Key, KeyEvent, Modifiers, MouseButton, MouseEvent, MouseKind,
};
use terminal_plugin::selection::Selection;
use terminal_plugin::selection::{Point, SelectionMode};
use terminal_plugin::session::{Delivery, Queued, Session, SessionError};
use terminal_plugin::terminal::{Directive, Message};

fn open(limit: usize) -> Session {
    Session::open(true, 24, 80, limit).unwrap()
}

#[test]
fn spawn_failure_gives_no_session() {
    assert_eq!(Session::open(false, 24, 80, 4).err(), Some(SessionError::SpawnFailed));
}

#[test]
fn open_session_has_its_size_and_nothing_pending() {
    let s = open(4);
    assert!(!s.is_closed());
    assert_eq!(s.size(), (24, 80));
    assert_eq!(s.pending(), 0);
    assert_eq!(s.next_chunk(), None);
}

#[test]
fn writes_leave_in_order() {
    let mut s = open(4);
    assert_eq!(s.write(b"one".to_vec()), Ok(Queued::Accepted));
    assert_eq!(s.write(b"two".to_vec()), Ok(Queued::Accepted));
    assert_eq!(s.next_chunk(), Some(&b"one".to_vec()));
    assert_eq!(s.delivered(Delivery::Done), None);
    assert_eq!(s.next_chunk(), Some(&b"two".to_vec()));
    assert_eq!(s.delivered(Delivery::Done), None);
    assert_eq!(s.next_chunk(), None);
    assert_eq!(s.delivered(Delivery::Done), None);
    assert_eq!(s.pending(), 0);
}

#[test]
fn a_full_queue_hands_the_chunk_back() {
    let mut s = open(2);
    assert_eq!(s.write(b"1".to_vec()), Ok(Queued::Accepted));
    assert_eq!(s.write(b"2".to_vec()), Ok(Queued::Accepted));
    assert_eq!(s.write(b"3".to_vec()), Ok(Queued::Full(b"3".to_vec())));
    assert_eq!(s.pending(), 2);
    s.delivered(Delivery::Done);
    assert_eq!(s.write(b"3".to_vec()), Ok(Queued::Accepted));
    assert_eq!(s.next_chunk(), Some(&b"2".to_vec()));
}

#[test]
fn a_queue_without_room_takes_nothing() {
    let mut s = open(0);
    assert_eq!(s.write(b"x".to_vec()), Ok(Queued::Full(b"x".to_vec())));
}

#[test]
fn a_blocked_write_is_tried_again() {
    let mut s = open(2);
    s.write(b"1".to_vec()).unwrap();
    assert_eq!(s.delivered(Delivery::WouldBlock), None);
    assert_eq!(s.next_chunk(), Some(&b"1".to_vec()));
    assert!(!s.is_closed());
}

#[test]
fn a_failed_write_closes_and_is_reported_once() {
    let mut s = open(2);
    s.write(b"1".to_vec()).unwrap();
    s.write(b"2".to_vec()).unwrap();
    assert_eq!(s.delivered(Delivery::Failed), Some(SessionError::WriteFailed));
    assert!(s.is_closed());
    assert_eq!(s.pending(), 0);
    assert_eq!(s.delivered(Delivery::Failed), None);
    assert_eq!(s.delivered(Delivery::Done), None);
    assert_eq!(s.write(b"3".to_vec()), Err(SessionError::WriteFailed));
    assert_eq!(s.next_chunk(), None);
}

#[test]
fn resize_failure_keeps_the_size() {
    let mut s = open(2);
    assert_eq!(s.resized(10, 20, true), Ok(()));
    assert_eq!(s.size(), (10, 20));
    assert_eq!(s.resized(30, 40, false), Err(SessionError::ResizeFailed));
    assert_eq!(s.size(), (10, 20));
    assert!(!s.is_closed());
    s.close();
    assert_eq!(s.resized(30, 40, true), Err(SessionError::ResizeFailed));
    assert_eq!(s.size(), (10, 20));
}

#[test]
fn close_announces_nothing() {
    let mut s = open(2);
    s.write(b"1".to_vec()).unwrap();
    s.close();
    assert!(s.is_closed());
    assert_eq!(s.pending(), 0);
    assert_eq!(s.delivered(Delivery::Failed), None);
    s.close();
    assert!(s.is_closed());
}

#[test]
fn drawer_is_not_made_when_the_spawn_failed() {
    assert_eq!(TerminalDrawer::new(false, 24, 80).err(), Some(SessionError::SpawnFailed));
}

#[test]
fn drawer_owns_a_fresh_terminal_and_session() {
    let d = TerminalDrawer::new(true, 24, 80).ok().unwrap();
    assert_eq!(d.panel_name(), "Terminal");
    assert_eq!((d.terminal().screen().rows(), d.terminal().screen().cols()), (24, 80));
    assert_eq!(d.session().size(), (24, 80));
    assert!(!d.session().is_closed());
    assert!(!d.terminal().is_closed());
    let mut s = Session::open(true, 1, 1, WRITE_QUEUE_LIMIT).unwrap();
    for _ in 0..WRITE_QUEUE_LIMIT {
        assert_eq!(s.write(Vec::new()), Ok(Queued::Accepted));
    }
    assert_eq!(s.write(Vec::new()), Ok(Queued::Full(Vec::new())));
    assert_eq!(SCROLLBACK_ROWS, 10_000);
}

#[test]
fn drawer_draws_with_its_focus() {
    let mut d = TerminalDrawer::new(true, 2, 4).ok().unwrap();
    assert_eq!(d.handle(Message::Output(b"ab".to_vec())), Directive::Continue);
    assert!(!d.is_focused());
    let frame = d.render();
    assert_eq!(frame.lines.len(), 2);
    assert!(frame.cursor.unwrap().hollow);
    d.set_focus(true);
    let frame = d.render();
    assert_eq!(frame.lines.len(), 1);
    assert!(!frame.cursor.unwrap().hollow);
    assert_eq!(frame.cursor.unwrap().col, 2);
}

#[test]
fn drawer_closes_the_session_when_the_process_ends() {
    let mut d = TerminalDrawer::new(true, 2, 4).ok().unwrap();
    assert_eq!(d.send(b"ls\r".to_vec()), Ok(Queued::Accepted));
    assert_eq!(d.handle(Message::Exited(2)), Directive::Stop);
    assert!(d.session().is_closed());
    assert_eq!(d.session().pending(), 0);
    assert!(d.terminal().is_closed());
    assert_eq!(d.terminal().exit_code(), Some(2));
    assert_eq!(d.poll_event(), Some(Event::ProcessExited(2)));
    assert_eq!(d.poll_event(), None);
    assert_eq!(d.handle(Message::Exited(3)), Directive::Stop);
    assert_eq!(d.poll_event(), None);
    assert_eq!(d.send(b"x".to_vec()), Err(SessionError::WriteFailed));
}

#[test]
fn drawer_closes_the_terminal_when_a_write_fails() {
    let mut d = TerminalDrawer::new(true, 2, 4).ok().unwrap();
    assert_eq!(d.delivered(Delivery::Failed), None);
    assert!(!d.terminal().is_closed());
    d.send(b"x".to_vec()).unwrap();
    assert_eq!(d.delivered(Delivery::WouldBlock), None);
    assert_eq!(d.session().next_chunk(), Some(&b"x".to_vec()));
    assert_eq!(d.delivered(Delivery::Failed), Some(SessionError::WriteFailed));
    assert!(d.session().is_closed());
    assert!(d.terminal().is_closed());
    assert_eq!(d.terminal().exit_code(), None);
    assert_eq!(d.delivered(Delivery::Failed), None);
    assert_eq!(d.handle(Message::Output(b"late".to_vec())), Directive::Stop);
    assert_eq!(d.poll_event(), None);
}

#[test]
fn drawer_resize_goes_to_terminal_and_session() {
    let mut d = TerminalDrawer::new(true, 2, 4).ok().unwrap();
    assert_eq!(
        d.handle(Message::Resize { rows: 5, cols: 6 }),
        Directive::NotifySize { rows: 5, cols: 6 }
    );
    assert_eq!((d.terminal().screen().rows(), d.terminal().screen().cols()), (5, 6));
    assert_eq!(d.session().size(), (2, 4));
    assert_eq!(d.resized(5, 6, false), Err(SessionError::ResizeFailed));
    assert_eq!(d.session().size(), (2, 4));
    assert_eq!(d.resized(5, 6, true), Ok(()));
    assert_eq!(d.session().size(), (5, 6));
}

#[test]
fn drawer_passes_input_replies_and_selection_on() {
    let mut d = TerminalDrawer::new(true, 2, 8).ok().unwrap();
    let up = InputEvent::Key(KeyEvent {
        key: Key::Up,
        mods: Modifiers { shift: false, alt: false, ctrl: false },
    });
    assert_eq!(d.input(&up), b"\x1b[A".to_vec());
    d.handle(Message::Output(b"\x1b[?1hab cd\x1b[6n".to_vec()));
    assert_eq!(d.input(&up), b"\x1bOA".to_vec());
    assert_eq!(d.take_output(), b"\x1b[1;6R".to_vec());
    assert_eq!(d.take_output(), Vec::<u8>::new());
    d.select_word(0, 4);
    assert_eq!(d.selected_text(), vec!['c', 'd']);
    d.select(Point { row: 0, col: 0 }, Point { row: 0, col: 2 }, SelectionMode::Linear);
    assert_eq!(d.selected_text(), vec!['a', 'b']);
    d.deselect();
    assert_eq!(d.selected_text(), Vec::<char>::new());
}

#[test]
fn cells_for_a_length_in_pixels() {
    assert_eq!(cells_for(640, 8), 80);
    assert_eq!(cells_for(647, 8), 80);
    assert_eq!(cells_for(7, 8), 1);
    assert_eq!(cells_for(0, 8), 1);
    assert_eq!(cells_for(100, 0), 1);
    assert_eq!(cells_for(4_000_000_000, 1), 65535);
    assert_eq!(cells_for(65535, 1), 65535);
}

#[test]
fn drawer_takes_a_dimension_of_zero_as_one_everywhere() {
    let d = TerminalDrawer::new(true, 0, 0).ok().unwrap();
    assert_eq!((d.terminal().screen().rows(), d.terminal().screen().cols()), (1, 1));
    assert_eq!(d.session().size(), (1, 1));
    let d = TerminalDrawer::new(true, 0, 7).ok().unwrap();
    assert_eq!(d.session().size(), (1, 7));
    assert_eq!(d.title(), "Terminal");
}

#[test]
fn drawer_keeps_the_history_over_the_alternate_screen() {
    let mut d = TerminalDrawer::new(true, 2, 4).ok().unwrap();
    d.handle(Message::Output(b"a\r\nb\r\nc".to_vec()));
    assert_eq!(d.terminal().screen().history_len(), 1);
    d.handle(Message::Output(b"\x1b[?1049h\x1b[3J\x1b[?1049l".to_vec()));
    assert_eq!(d.terminal().screen().history_len(), 1);
}

fn mouse(kind: MouseKind, button: MouseButton, row: u16, col: u16) -> MouseEvent {
    MouseEvent {
        kind,
        button,
        row,
        col,
        mods: Modifiers { shift: false, alt: false, ctrl: false },
    }
}

#[test]
fn pointer_selects_while_the_program_does_not_ask_for_the_mouse() {
    let mut d = TerminalDrawer::new(true, 3, 8).ok().unwrap();
    d.handle(Message::Output(b"one two\r\nthree".to_vec()));
    assert_eq!(d.pointer(mouse(MouseKind::Motion, MouseButton::Left, 0, 3)), Vec::<u8>::new());
    assert_eq!(d.terminal().screen().selection(), None);
    assert_eq!(d.pointer(mouse(MouseKind::Press, MouseButton::Left, 0, 4)), Vec::<u8>::new());
    assert_eq!(d.terminal().screen().selection(), None);
    d.pointer(mouse(MouseKind::Motion, MouseButton::Left, 1, 2));
    assert_eq!(
        d.terminal().screen().selection(),
        Some(Selection {
            start: Point { row: 0, col: 4 },
            end: Point { row: 1, col: 2 },
            mode: SelectionMode::Linear
        })
    );
    assert_eq!(d.selected_text().iter().collect::<String>(), "two \nth");
    d.pointer(mouse(MouseKind::Motion, MouseButton::Left, 9, 99));
    assert_eq!(d.terminal().screen().selection().unwrap().end, Point { row: 2, col: 7 });
    d.pointer(mouse(MouseKind::Release, MouseButton::Left, 1, 2));
    let kept = d.terminal().screen().selection();
    d.pointer(mouse(MouseKind::Motion, MouseButton::Left, 0, 0));
    d.pointer(mouse(MouseKind::Press, MouseButton::Right, 0, 0));
    assert_eq!(d.terminal().screen().selection(), kept);
    d.pointer(mouse(MouseKind::Press, MouseButton::Left, 2, 2));
    assert_eq!(d.terminal().screen().selection(), None);
}

#[test]
fn pointer_reports_while_the_program_asks_for_the_mouse() {
    let mut d = TerminalDrawer::new(true, 3, 8).ok().unwrap();
    d.handle(Message::Output(b"\x1b[?1000h\x1b[?1006h".to_vec()));
    assert_eq!(
        d.pointer(mouse(MouseKind::Press, MouseButton::Left, 1, 2)),
        b"\x1b[<0;3;2M".to_vec()
    );
    d.pointer(mouse(MouseKind::Motion, MouseButton::Left, 2, 2));
    assert_eq!(d.terminal().screen().selection(), None);
}

#[test]
fn cell_under_a_point() {
    assert_eq!(cell_at(0, 8, 80), 0);
    assert_eq!(cell_at(7, 8, 80), 0);
    assert_eq!(cell_at(8, 8, 80), 1);
    assert_eq!(cell_at(639, 8, 80), 79);
    assert_eq!(cell_at(640, 8, 80), 79);
    assert_eq!(cell_at(4_000_000_000, 1, 80), 79);
    assert_eq!(cell_at(100, 0, 80), 0);
    assert_eq!(cell_at(100, 8, 0), 0);
}
