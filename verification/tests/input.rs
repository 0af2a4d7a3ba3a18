use terminal_plugin::input::{
    key_named, map_input, map_key, map_mouse, map_paste, InputEvent, Key, KeyEvent, Modifiers, MouseButton,
    MouseEvent, MouseKind,
};
use terminal_plugin::modes::{Modes, MouseTracking};

const NONE: Modifiers = Modifiers { shift: false, alt: false, ctrl: false };
const SHIFT: Modifiers = Modifiers { shift: true, alt: false, ctrl: false };
const ALT: Modifiers = Modifiers { shift: false, alt: true, ctrl: false };
const CTRL: Modifiers = Modifiers { shift: false, alt: false, ctrl: true };

fn key(k: Key, mods: Modifiers, modes: &Modes) -> Vec<u8> {
    map_key(&KeyEvent { key: k, mods }, modes)
}

fn plain(k: Key) -> Vec<u8> {
    key(k, NONE, &Modes::initial())
}

fn mouse(kind: MouseKind, button: MouseButton, row: u16, col: u16) -> MouseEvent {
    MouseEvent { kind, button, row, col, mods: NONE }
}

#[test]
fn characters_are_sent_in_utf8() {
    assert_eq!(plain(Key::Char('a')), b"a".to_vec());
    assert_eq!(plain(Key::Char('é')), "é".as_bytes().to_vec());
    assert_eq!(plain(Key::Char('中')), "中".as_bytes().to_vec());
    assert_eq!(plain(Key::Char('😀')), "😀".as_bytes().to_vec());
    assert_eq!(plain(Key::Char('\u{7f}')), vec![0x7F]);
    assert_eq!(plain(Key::Char('\u{80}')), vec![0xC2, 0x80]);
    assert_eq!(plain(Key::Char('\u{7ff}')), vec![0xDF, 0xBF]);
    assert_eq!(plain(Key::Char('\u{800}')), vec![0xE0, 0xA0, 0x80]);
    assert_eq!(plain(Key::Char('\u{ffff}')), vec![0xEF, 0xBF, 0xBF]);
    assert_eq!(plain(Key::Char('\u{10000}')), vec![0xF0, 0x90, 0x80, 0x80]);
    assert_eq!(plain(Key::Char('\u{10ffff}')), vec![0xF4, 0x8F, 0xBF, 0xBF]);
}

#[test]
fn utf8_agrees_with_the_standard_library() {
    for c in ['\u{0}', 'A', '~', 'ß', 'Ω', 'ह', '€', '한', '𐍈', '🦀'] {
        let mut buf = [0u8; 4];
        assert_eq!(plain(Key::Char(c)), c.encode_utf8(&mut buf).as_bytes().to_vec());
    }
}

#[test]
fn control_characters() {
    let m = Modes::initial();
    assert_eq!(key(Key::Char('c'), CTRL, &m), vec![0x03]);
    assert_eq!(key(Key::Char('a'), CTRL, &m), vec![0x01]);
    assert_eq!(key(Key::Char('z'), CTRL, &m), vec![0x1A]);
    assert_eq!(key(Key::Char('C'), CTRL, &m), vec![0x03]);
    assert_eq!(key(Key::Char('@'), CTRL, &m), vec![0x00]);
    assert_eq!(key(Key::Char('['), CTRL, &m), vec![0x1B]);
    assert_eq!(key(Key::Char('_'), CTRL, &m), vec![0x1F]);
    assert_eq!(key(Key::Char('1'), CTRL, &m), b"1".to_vec());
}

#[test]
fn alt_puts_escape_before() {
    let m = Modes::initial();
    assert_eq!(key(Key::Char('x'), ALT, &m), b"\x1bx".to_vec());
    assert_eq!(
        key(Key::Char('c'), Modifiers { shift: false, alt: true, ctrl: true }, &m),
        vec![0x1B, 0x03]
    );
    assert_eq!(key(Key::Enter, ALT, &m), vec![0x1B, 0x0D]);
    assert_eq!(key(Key::Backspace, ALT, &m), vec![0x1B, 0x7F]);
}

#[test]
fn simple_keys() {
    assert_eq!(plain(Key::Enter), vec![0x0D]);
    assert_eq!(plain(Key::Tab), vec![0x09]);
    assert_eq!(plain(Key::Backspace), vec![0x7F]);
    assert_eq!(plain(Key::Escape), vec![0x1B]);
    assert_eq!(key(Key::Tab, SHIFT, &Modes::initial()), b"\x1b[Z".to_vec());
    assert_eq!(key(Key::Backspace, CTRL, &Modes::initial()), vec![0x08]);
}

#[test]
fn arrows_in_normal_mode() {
    assert_eq!(plain(Key::Up), b"\x1b[A".to_vec());
    assert_eq!(plain(Key::Down), b"\x1b[B".to_vec());
    assert_eq!(plain(Key::Right), b"\x1b[C".to_vec());
    assert_eq!(plain(Key::Left), b"\x1b[D".to_vec());
    assert_eq!(plain(Key::Home), b"\x1b[H".to_vec());
    assert_eq!(plain(Key::End), b"\x1b[F".to_vec());
}

#[test]
fn arrows_in_application_mode() {
    let mut m = Modes::initial();
    m.app_cursor = true;
    assert_eq!(key(Key::Up, NONE, &m), b"\x1bOA".to_vec());
    assert_eq!(key(Key::Down, NONE, &m), b"\x1bOB".to_vec());
    assert_eq!(key(Key::Right, NONE, &m), b"\x1bOC".to_vec());
    assert_eq!(key(Key::Left, NONE, &m), b"\x1bOD".to_vec());
    assert_eq!(key(Key::Home, NONE, &m), b"\x1bOH".to_vec());
    assert_eq!(key(Key::End, NONE, &m), b"\x1bOF".to_vec());
}

#[test]
fn arrows_with_modifiers() {
    let mut m = Modes::initial();
    assert_eq!(key(Key::Up, SHIFT, &m), b"\x1b[1;2A".to_vec());
    assert_eq!(key(Key::Left, ALT, &m), b"\x1b[1;3D".to_vec());
    assert_eq!(key(Key::Right, CTRL, &m), b"\x1b[1;5C".to_vec());
    assert_eq!(
        key(Key::End, Modifiers { shift: true, alt: true, ctrl: true }, &m),
        b"\x1b[1;8F".to_vec()
    );
    m.app_cursor = true;
    assert_eq!(key(Key::Up, SHIFT, &m), b"\x1b[1;2A".to_vec());
}

#[test]
fn editing_keys() {
    assert_eq!(plain(Key::Insert), b"\x1b[2~".to_vec());
    assert_eq!(plain(Key::Delete), b"\x1b[3~".to_vec());
    assert_eq!(plain(Key::PageUp), b"\x1b[5~".to_vec());
    assert_eq!(plain(Key::PageDown), b"\x1b[6~".to_vec());
    assert_eq!(key(Key::Delete, CTRL, &Modes::initial()), b"\x1b[3;5~".to_vec());
}

#[test]
fn function_keys() {
    assert_eq!(plain(Key::F(1)), b"\x1bOP".to_vec());
    assert_eq!(plain(Key::F(2)), b"\x1bOQ".to_vec());
    assert_eq!(plain(Key::F(3)), b"\x1bOR".to_vec());
    assert_eq!(plain(Key::F(4)), b"\x1bOS".to_vec());
    assert_eq!(plain(Key::F(5)), b"\x1b[15~".to_vec());
    assert_eq!(plain(Key::F(6)), b"\x1b[17~".to_vec());
    assert_eq!(plain(Key::F(7)), b"\x1b[18~".to_vec());
    assert_eq!(plain(Key::F(8)), b"\x1b[19~".to_vec());
    assert_eq!(plain(Key::F(9)), b"\x1b[20~".to_vec());
    assert_eq!(plain(Key::F(10)), b"\x1b[21~".to_vec());
    assert_eq!(plain(Key::F(11)), b"\x1b[23~".to_vec());
    assert_eq!(plain(Key::F(12)), b"\x1b[24~".to_vec());
    assert_eq!(plain(Key::F(0)), Vec::<u8>::new());
    assert_eq!(plain(Key::F(13)), Vec::<u8>::new());
    assert_eq!(key(Key::F(1), SHIFT, &Modes::initial()), b"\x1b[1;2P".to_vec());
    assert_eq!(key(Key::F(5), ALT, &Modes::initial()), b"\x1b[15;3~".to_vec());
}

#[test]
fn keypad_keys() {
    let mut m = Modes::initial();
    assert_eq!(key(Key::KeypadDigit(0), NONE, &m), b"0".to_vec());
    assert_eq!(key(Key::KeypadDigit(9), NONE, &m), b"9".to_vec());
    assert_eq!(key(Key::KeypadDigit(10), NONE, &m), Vec::<u8>::new());
    assert_eq!(key(Key::KeypadEnter, NONE, &m), vec![0x0D]);
    m.app_keypad = true;
    assert_eq!(key(Key::KeypadDigit(0), NONE, &m), b"\x1bOp".to_vec());
    assert_eq!(key(Key::KeypadDigit(9), NONE, &m), b"\x1bOy".to_vec());
    assert_eq!(key(Key::KeypadEnter, NONE, &m), b"\x1bOM".to_vec());
}

#[test]
fn paste_is_wrapped_in_bracketed_mode() {
    let mut m = Modes::initial();
    m.bracketed_paste = true;
    assert_eq!(map_paste(b"ls\x1b\n", &m), b"\x1b[200~ls\x1b\n\x1b[201~".to_vec());
    assert_eq!(map_paste(b"", &m), b"\x1b[200~\x1b[201~".to_vec());
}

#[test]
fn paste_is_filtered_otherwise() {
    let m = Modes::initial();
    assert_eq!(map_paste(b"a\x1b[31mb\x00c\x7fd\te\nf\rg", &m), b"a[31mbcd\te\nf\rg".to_vec());
    assert_eq!(map_paste(b"", &m), Vec::<u8>::new());
    assert_eq!(map_paste("é".as_bytes(), &m), "é".as_bytes().to_vec());
}

#[test]
fn mouse_is_silent_when_tracking_is_off() {
    let m = Modes::initial();
    assert_eq!(
        map_mouse(&mouse(MouseKind::Press, MouseButton::Left, 0, 0), &m),
        Vec::<u8>::new()
    );
}

#[test]
fn mouse_legacy_encoding() {
    let mut m = Modes::initial();
    m.mouse = MouseTracking::Click;
    assert_eq!(
        map_mouse(&mouse(MouseKind::Press, MouseButton::Left, 0, 0), &m),
        vec![0x1B, b'[', b'M', 32, 33, 33]
    );
    assert_eq!(
        map_mouse(&mouse(MouseKind::Press, MouseButton::Right, 4, 9), &m),
        vec![0x1B, b'[', b'M', 34, 42, 37]
    );
    assert_eq!(
        map_mouse(&mouse(MouseKind::Release, MouseButton::Right, 4, 9), &m),
        vec![0x1B, b'[', b'M', 35, 42, 37]
    );
    assert_eq!(
        map_mouse(&mouse(MouseKind::Press, MouseButton::WheelUp, 0, 0), &m),
        vec![0x1B, b'[', b'M', 96, 33, 33]
    );
    assert_eq!(
        map_mouse(&mouse(MouseKind::Press, MouseButton::Left, 222, 222), &m),
        vec![0x1B, b'[', b'M', 32, 255, 255]
    );
    assert_eq!(
        map_mouse(&mouse(MouseKind::Press, MouseButton::Left, 223, 0), &m),
        Vec::<u8>::new()
    );
    assert_eq!(
        map_mouse(&mouse(MouseKind::Press, MouseButton::Left, 0, 223), &m),
        Vec::<u8>::new()
    );
}

#[test]
fn mouse_modifiers_are_added() {
    let mut m = Modes::initial();
    m.mouse = MouseTracking::Click;
    let e = MouseEvent {
        kind: MouseKind::Press,
        button: MouseButton::Middle,
        row: 0,
        col: 0,
        mods: Modifiers { shift: true, alt: true, ctrl: true },
    };
    assert_eq!(map_mouse(&e, &m), vec![0x1B, b'[', b'M', 32 + 1 + 4 + 8 + 16, 33, 33]);
}

#[test]
fn mouse_sgr_encoding() {
    let mut m = Modes::initial();
    m.mouse = MouseTracking::Click;
    m.mouse_sgr = true;
    assert_eq!(
        map_mouse(&mouse(MouseKind::Press, MouseButton::Left, 4, 9), &m),
        b"\x1b[<0;10;5M".to_vec()
    );
    assert_eq!(
        map_mouse(&mouse(MouseKind::Release, MouseButton::Right, 4, 9), &m),
        b"\x1b[<2;10;5m".to_vec()
    );
    assert_eq!(
        map_mouse(&mouse(MouseKind::Press, MouseButton::WheelDown, 299, 999), &m),
        b"\x1b[<65;1000;300M".to_vec()
    );
    assert_eq!(
        map_mouse(&mouse(MouseKind::Press, MouseButton::Left, 65535, 65535), &m),
        b"\x1b[<0;65536;65536M".to_vec()
    );
}

#[test]
fn mouse_motion_depends_on_the_tracking() {
    let mut m = Modes::initial();
    m.mouse_sgr = true;
    let drag = mouse(MouseKind::Motion, MouseButton::Left, 0, 0);
    let hover = mouse(MouseKind::Motion, MouseButton::Released, 0, 0);
    m.mouse = MouseTracking::Click;
    assert_eq!(map_mouse(&drag, &m), Vec::<u8>::new());
    assert_eq!(map_mouse(&hover, &m), Vec::<u8>::new());
    m.mouse = MouseTracking::Drag;
    assert_eq!(map_mouse(&drag, &m), b"\x1b[<32;1;1M".to_vec());
    assert_eq!(map_mouse(&hover, &m), Vec::<u8>::new());
    m.mouse = MouseTracking::Motion;
    assert_eq!(map_mouse(&drag, &m), b"\x1b[<32;1;1M".to_vec());
    assert_eq!(map_mouse(&hover, &m), b"\x1b[<35;1;1M".to_vec());
}

#[test]
fn input_events_go_to_their_mapping() {
    let mut m = Modes::initial();
    m.bracketed_paste = true;
    m.mouse = MouseTracking::Click;
    assert_eq!(
        map_input(&InputEvent::Key(KeyEvent { key: Key::Up, mods: NONE }), &m),
        b"\x1b[A".to_vec()
    );
    assert_eq!(map_input(&InputEvent::Paste(b"x".to_vec()), &m), b"\x1b[200~x\x1b[201~".to_vec());
    assert_eq!(
        map_input(&InputEvent::Mouse(mouse(MouseKind::Press, MouseButton::Left, 0, 0)), &m),
        vec![0x1B, b'[', b'M', 32, 33, 33]
    );
}

#[test]
fn keys_by_their_names() {
    assert_eq!(key_named("enter", None), Some(Key::Enter));
    assert_eq!(key_named("enter", Some('\n')), Some(Key::Enter));
    assert_eq!(key_named("tab", None), Some(Key::Tab));
    assert_eq!(key_named("backspace", None), Some(Key::Backspace));
    assert_eq!(key_named("escape", None), Some(Key::Escape));
    assert_eq!(key_named("up", None), Some(Key::Up));
    assert_eq!(key_named("down", None), Some(Key::Down));
    assert_eq!(key_named("left", None), Some(Key::Left));
    assert_eq!(key_named("right", None), Some(Key::Right));
    assert_eq!(key_named("home", None), Some(Key::Home));
    assert_eq!(key_named("end", None), Some(Key::End));
    assert_eq!(key_named("pageup", None), Some(Key::PageUp));
    assert_eq!(key_named("pagedown", None), Some(Key::PageDown));
    assert_eq!(key_named("insert", None), Some(Key::Insert));
    assert_eq!(key_named("delete", None), Some(Key::Delete));
    assert_eq!(key_named("space", None), Some(Key::Char(' ')));
}

#[test]
fn function_keys_by_their_names() {
    for n in 1..=12u8 {
        assert_eq!(key_named(&format!("f{}", n), None), Some(Key::F(n)));
    }
    assert_eq!(key_named("f0", None), None);
    assert_eq!(key_named("f13", None), None);
    assert_eq!(key_named("f01", None), None);
    assert_eq!(key_named("f1x", None), None);
    assert_eq!(key_named("f", None), Some(Key::Char('f')));
    assert_eq!(key_named("f", Some('F')), Some(Key::Char('F')));
}

#[test]
fn typing_keys_by_what_they_type() {
    assert_eq!(key_named("a", Some('a')), Some(Key::Char('a')));
    assert_eq!(key_named("a", Some('A')), Some(Key::Char('A')));
    assert_eq!(key_named("a", None), Some(Key::Char('a')));
    assert_eq!(key_named("é", None), Some(Key::Char('é')));
    assert_eq!(key_named("dead", Some('~')), Some(Key::Char('~')));
    assert_eq!(key_named("shift", None), None);
    assert_eq!(key_named("", None), None);
    assert_eq!(key_named("Enter", None), None);
}
