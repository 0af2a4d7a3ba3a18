//! The input mapper: from the host's key, paste and mouse events to the
//! bytes that the program inside the terminal expects. The mapping is a
//! function of the event and the mode flags; it keeps no state.

use vstd::prelude::*;
use vstd::string::*;
use crate::text::same_text;
use crate::model::decimal;
use crate::modes::{Modes, MouseTracking};
use crate::screen::push_decimal;

verus! {

/// A key.
#[derive(Clone, Copy, PartialEq, Eq, Structural, Debug)]
pub enum Key {
    /// A key that types a character.
    Char(char),
    Enter,
    Tab,
    Backspace,
    Escape,
    Up,
    Down,
    Left,
    Right,
    Home,
    End,
    PageUp,
    PageDown,
    Insert,
    Delete,
    /// A function key, `F(1)` to `F(12)`.
    F(u8),
    /// A digit of the numeric keypad, 0 to 9.
    KeypadDigit(u8),
    KeypadEnter,
}

/// The modifier keys held with a key or a mouse button.
#[derive(Clone, Copy, PartialEq, Eq, Structural, Debug)]
pub struct Modifiers {
    pub shift: bool,
    pub alt: bool,
    pub ctrl: bool,
}

/// A key press.
#[derive(Clone, Copy, PartialEq, Eq, Structural, Debug)]
pub struct KeyEvent {
    pub key: Key,
    pub mods: Modifiers,
}

/// A mouse button, or the wheel turned one notch.
#[derive(Clone, Copy, PartialEq, Eq, Structural, Debug)]
pub enum MouseButton {
    Left,
    Middle,
    Right,
    WheelUp,
    WheelDown,
    /// No button: the pointer moved with none held.
    Released,
}

/// What the mouse did.
#[derive(Clone, Copy, PartialEq, Eq, Structural, Debug)]
pub enum MouseKind {
    Press,
    Release,
    Motion,
}

/// A mouse event at a cell of the grid, counted from 0.
#[derive(Clone, Copy, PartialEq, Eq, Structural, Debug)]
pub struct MouseEvent {
    pub kind: MouseKind,
    pub button: MouseButton,
    pub row: u16,
    pub col: u16,
    pub mods: Modifiers,
}

/// An input event from the host.
#[derive(Clone, PartialEq, Eq, Debug)]
pub enum InputEvent {
    Key(KeyEvent),
    /// Text pasted from the clipboard.
    Paste(Vec<u8>),
    Mouse(MouseEvent),
}

/// The bytes that write `c` in UTF-8.
pub open spec fn utf8(c: char) -> Seq<u8> {
    let v = c as u32;
    if v < 0x80 {
        seq![v as u8]
    } else if v < 0x800 {
        seq![(0xC0 + v / 64) as u8, (0x80 + v % 64) as u8]
    } else if v < 0x10000 {
        seq![(0xE0 + v / 4096) as u8, (0x80 + (v / 64) % 64) as u8, (0x80 + v % 64) as u8]
    } else {
        seq![
            (0xF0 + v / 262144) as u8,
            (0x80 + (v / 4096) % 64) as u8,
            (0x80 + (v / 64) % 64) as u8,
            (0x80 + v % 64) as u8,
        ]
    }
}

/// Whether any modifier is held.
pub open spec fn any_modifier(m: Modifiers) -> bool {
    m.shift || m.alt || m.ctrl
}

/// The number that stands for the modifiers in a key sequence: 1, plus 1
/// for shift, 2 for alt and 4 for ctrl.
pub open spec fn modifier_param(m: Modifiers) -> nat {
    (1 + (if m.shift { 1int } else { 0 }) + (if m.alt { 2int } else { 0 }) + (if m.ctrl {
        4int
    } else {
        0
    })) as nat
}

/// The final byte of the keys that send `ESC [` and a letter: the arrows,
/// Home and End.
pub open spec fn letter_key(key: Key) -> Option<u8> {
    match key {
        Key::Up => Some(0x41u8),
        Key::Down => Some(0x42u8),
        Key::Right => Some(0x43u8),
        Key::Left => Some(0x44u8),
        Key::Home => Some(0x48u8),
        Key::End => Some(0x46u8),
        _ => None,
    }
}

/// The final byte of the function keys that send `ESC O` and a letter.
pub open spec fn function_letter(key: Key) -> Option<u8> {
    match key {
        Key::F(n) => if 1 <= n <= 4 { Some((0x4F + n) as u8) } else { None },
        _ => None,
    }
}

/// The number of the keys that send `ESC [`, a number and `~`.
pub open spec fn tilde_key(key: Key) -> Option<nat> {
    match key {
        Key::Insert => Some(2nat),
        Key::Delete => Some(3nat),
        Key::PageUp => Some(5nat),
        Key::PageDown => Some(6nat),
        Key::F(n) => if n == 5 {
            Some(15nat)
        } else if 6 <= n <= 10 {
            Some((n + 11) as nat)
        } else if 11 <= n <= 12 {
            Some((n + 12) as nat)
        } else {
            None
        },
        _ => None,
    }
}

/// The bytes of a key that types the character `c`. With ctrl, a letter or
/// one of `@ [ \ ] ^ _` gives its control character; with alt, `ESC` goes
/// before.
pub open spec fn char_bytes(c: char, m: Modifiers) -> Seq<u8> {
    let v = c as u32;
    let body = if m.ctrl && 0x61 <= v <= 0x7A {
        seq![(v - 0x60) as u8]
    } else if m.ctrl && 0x40 <= v <= 0x5F {
        seq![(v - 0x40) as u8]
    } else {
        utf8(c)
    };
    if m.alt { seq![0x1Bu8] + body } else { body }
}

/// The bytes that a key press sends.
pub open spec fn key_bytes(e: KeyEvent, modes: Modes) -> Seq<u8> {
    let m = e.mods;
    let esc = seq![0x1Bu8];
    let csi = seq![0x1Bu8, 0x5B];
    let ss3 = seq![0x1Bu8, 0x4F];
    let with_mods = seq![0x3Bu8] + decimal(modifier_param(m));
    if let Some(f) = letter_key(e.key) {
        if any_modifier(m) {
            csi + seq![0x31u8] + with_mods + seq![f]
        } else if modes.app_cursor {
            ss3 + seq![f]
        } else {
            csi + seq![f]
        }
    } else if let Some(f) = function_letter(e.key) {
        if any_modifier(m) {
            csi + seq![0x31u8] + with_mods + seq![f]
        } else {
            ss3 + seq![f]
        }
    } else if let Some(n) = tilde_key(e.key) {
        if any_modifier(m) {
            csi + decimal(n) + with_mods + seq![0x7Eu8]
        } else {
            csi + decimal(n) + seq![0x7Eu8]
        }
    } else {
        match e.key {
            Key::Char(c) => char_bytes(c, m),
            Key::Enter => if m.alt { seq![0x1Bu8, 0x0D] } else { seq![0x0Du8] },
            Key::Tab => if m.shift { seq![0x1Bu8, 0x5B, 0x5A] } else { seq![0x09u8] },
            Key::Backspace => {
                let body = if m.ctrl { seq![0x08u8] } else { seq![0x7Fu8] };
                if m.alt { esc + body } else { body }
            },
            Key::Escape => esc,
            Key::KeypadDigit(d) => if d > 9 {
                Seq::empty()
            } else if modes.app_keypad {
                ss3 + seq![(0x70 + d) as u8]
            } else {
                seq![(0x30 + d) as u8]
            },
            Key::KeypadEnter => if modes.app_keypad { ss3 + seq![0x4Du8] } else { seq![0x0Du8] },
            _ => Seq::empty(),
        }
    }
}

/// Whether `b` is a control character that is taken out of pasted text:
/// all of them but tab, line feed and carriage return.
pub open spec fn is_stripped(b: u8) -> bool {
    (b < 0x20 && b != 0x09 && b != 0x0A && b != 0x0D) || b == 0x7F
}

/// `text` without the control characters that are taken out of pasted text.
pub open spec fn strip_controls(text: Seq<u8>) -> Seq<u8>
    decreases text.len(),
{
    if text.len() == 0 {
        text
    } else if is_stripped(text.last()) {
        strip_controls(text.drop_last())
    } else {
        strip_controls(text.drop_last()).push(text.last())
    }
}

/// The marker before bracketed pasted text: `ESC [ 2 0 0 ~`.
pub open spec fn paste_start() -> Seq<u8> {
    seq![0x1Bu8, 0x5B, 0x32, 0x30, 0x30, 0x7E]
}

/// The marker after bracketed pasted text: `ESC [ 2 0 1 ~`.
pub open spec fn paste_end() -> Seq<u8> {
    seq![0x1Bu8, 0x5B, 0x32, 0x30, 0x31, 0x7E]
}

/// The bytes that pasted text sends: between the paste markers in
/// bracketed-paste mode, else without its control characters.
pub open spec fn paste_bytes(text: Seq<u8>, modes: Modes) -> Seq<u8> {
    if modes.bracketed_paste {
        paste_start() + text + paste_end()
    } else {
        strip_controls(text)
    }
}

/// Whether a mouse event is reported under a tracking mode.
pub open spec fn is_reported(e: MouseEvent, tracking: MouseTracking) -> bool {
    match tracking {
        MouseTracking::Off => false,
        MouseTracking::Click => e.kind != MouseKind::Motion,
        MouseTracking::Drag => e.kind != MouseKind::Motion || e.button != MouseButton::Released,
        MouseTracking::Motion => true,
    }
}

/// The number of a button in a mouse report.
pub open spec fn button_code(b: MouseButton) -> nat {
    match b {
        MouseButton::Left => 0,
        MouseButton::Middle => 1,
        MouseButton::Right => 2,
        MouseButton::Released => 3,
        MouseButton::WheelUp => 64,
        MouseButton::WheelDown => 65,
    }
}

/// The first number of a mouse report: the button, plus 4 for shift, 8 for
/// alt, 16 for ctrl and 32 for motion. The legacy encoding cannot name the
/// button that was released.
pub open spec fn mouse_code(e: MouseEvent, sgr: bool) -> nat {
    let button = if !sgr && e.kind == MouseKind::Release {
        3
    } else {
        button_code(e.button)
    };
    button + (if e.mods.shift { 4nat } else { 0 }) + (if e.mods.alt { 8nat } else { 0 }) + (
    if e.mods.ctrl { 16nat } else { 0 }) + (if e.kind == MouseKind::Motion { 32nat } else { 0 })
}

/// The largest row or column that the legacy encoding can report.
pub const LEGACY_MOUSE_LIMIT: u16 = 222;

/// The bytes that a mouse event sends: nothing if it is not reported;
/// `ESC [ < code ; column ; row` and `M` (or `m` for a release) in the
/// decimal encoding; `ESC [ M` and three bytes in the legacy encoding, which
/// reports nothing beyond row or column 222. Rows and columns are sent
/// counted from 1.
pub open spec fn mouse_bytes(e: MouseEvent, modes: Modes) -> Seq<u8> {
    if !is_reported(e, modes.mouse) {
        Seq::empty()
    } else if modes.mouse_sgr {
        seq![0x1Bu8, 0x5B, 0x3C] + decimal(mouse_code(e, true)) + seq![0x3Bu8] + decimal(
            (e.col + 1) as nat,
        ) + seq![0x3Bu8] + decimal((e.row + 1) as nat) + seq![
            if e.kind == MouseKind::Release { 0x6Du8 } else { 0x4Du8 },
        ]
    } else if e.row > LEGACY_MOUSE_LIMIT || e.col > LEGACY_MOUSE_LIMIT {
        Seq::empty()
    } else {
        seq![
            0x1Bu8,
            0x5B,
            0x4D,
            (32 + mouse_code(e, false)) as u8,
            (32 + e.col + 1) as u8,
            (32 + e.row + 1) as u8,
        ]
    }
}

/// The value of an input event's bytes.
pub open spec fn input_bytes(e: InputEvent, modes: Modes) -> Seq<u8> {
    match e {
        InputEvent::Key(k) => key_bytes(k, modes),
        InputEvent::Paste(text) => paste_bytes(text@, modes),
        InputEvent::Mouse(m) => mouse_bytes(m, modes),
    }
}

fn push_utf8(out: &mut Vec<u8>, c: char)
    ensures
        final(out)@ == old(out)@ + utf8(c),
{
    let v: u32 = c as u32;
    if v < 0x80 {
        out.push(v as u8);
    } else if v < 0x800 {
        out.push((0xC0 + v / 64) as u8);
        out.push((0x80 + v % 64) as u8);
    } else if v < 0x10000 {
        out.push((0xE0 + v / 4096) as u8);
        out.push((0x80 + (v / 64) % 64) as u8);
        out.push((0x80 + v % 64) as u8);
    } else {
        out.push((0xF0 + v / 262144) as u8);
        out.push((0x80 + (v / 4096) % 64) as u8);
        out.push((0x80 + (v / 64) % 64) as u8);
        out.push((0x80 + v % 64) as u8);
    }
    assert(out@ =~= old(out)@ + utf8(c));
}

fn modifier_number(m: Modifiers) -> (n: usize)
    ensures
        n == modifier_param(m),
{
    1 + (if m.shift { 1 } else { 0 }) + (if m.alt { 2 } else { 0 }) + (if m.ctrl { 4 } else { 0 })
}

fn letter_of(key: Key) -> (f: Option<u8>)
    ensures
        f == letter_key(key),
{
    match key {
        Key::Up => Some(0x41),
        Key::Down => Some(0x42),
        Key::Right => Some(0x43),
        Key::Left => Some(0x44),
        Key::Home => Some(0x48),
        Key::End => Some(0x46),
        _ => None,
    }
}

fn function_letter_of(key: Key) -> (f: Option<u8>)
    ensures
        f == function_letter(key),
{
    match key {
        Key::F(n) => if 1 <= n && n <= 4 { Some(0x4F + n) } else { None },
        _ => None,
    }
}

fn tilde_of(key: Key) -> (n: Option<usize>)
    ensures
        match n {
            Some(v) => tilde_key(key) == Some(v as nat),
            None => tilde_key(key) is None,
        },
{
    match key {
        Key::Insert => Some(2),
        Key::Delete => Some(3),
        Key::PageUp => Some(5),
        Key::PageDown => Some(6),
        Key::F(n) => if n == 5 {
            Some(15)
        } else if 6 <= n && n <= 10 {
            Some(n as usize + 11)
        } else if 11 <= n && n <= 12 {
            Some(n as usize + 12)
        } else {
            None
        },
        _ => None,
    }
}

fn char_key(c: char, m: Modifiers) -> (out: Vec<u8>)
    ensures
        out@ == char_bytes(c, m),
{
    let mut out: Vec<u8> = Vec::new();
    if m.alt {
        out.push(0x1B);
    }
    let v: u32 = c as u32;
    if m.ctrl && 0x61 <= v && v <= 0x7A {
        out.push((v - 0x60) as u8);
    } else if m.ctrl && 0x40 <= v && v <= 0x5F {
        out.push((v - 0x40) as u8);
    } else {
        push_utf8(&mut out, c);
    }
    assert(out@ =~= char_bytes(c, m));
    out
}

fn plain_key(e: &KeyEvent, modes: &Modes) -> (out: Vec<u8>)
    requires
        letter_key(e.key) is None,
        function_letter(e.key) is None,
        tilde_key(e.key) is None,
    ensures
        out@ == key_bytes(*e, *modes),
{
    let m = e.mods;
    let mut out: Vec<u8> = Vec::new();
    match e.key {
        Key::Char(c) => {
            return char_key(c, m);
        },
        Key::Enter => {
            if m.alt {
                out.push(0x1B);
            }
            out.push(0x0D);
        },
        Key::Tab => {
            if m.shift {
                out.push(0x1B);
                out.push(0x5B);
                out.push(0x5A);
            } else {
                out.push(0x09);
            }
        },
        Key::Backspace => {
            if m.alt {
                out.push(0x1B);
            }
            out.push(if m.ctrl { 0x08 } else { 0x7F });
        },
        Key::Escape => {
            out.push(0x1B);
        },
        Key::KeypadDigit(d) => {
            if d > 9 {
            } else if modes.app_keypad {
                out.push(0x1B);
                out.push(0x4F);
                out.push(0x70 + d);
            } else {
                out.push(0x30 + d);
            }
        },
        Key::KeypadEnter => {
            if modes.app_keypad {
                out.push(0x1B);
                out.push(0x4F);
                out.push(0x4D);
            } else {
                out.push(0x0D);
            }
        },
        _ => {},
    }
    assert(out@ =~= key_bytes(*e, *modes));
    out
}

/// The bytes that a key press sends under the given modes.
pub fn map_key(e: &KeyEvent, modes: &Modes) -> (out: Vec<u8>)
    ensures
        out@ == key_bytes(*e, *modes),
{
    let m = e.mods;
    let any = m.shift || m.alt || m.ctrl;
    let mut out: Vec<u8> = Vec::new();
    out.push(0x1B);
    if let Some(f) = letter_of(e.key) {
        if any {
            out.push(0x5B);
            out.push(0x31);
            out.push(0x3B);
            push_decimal(&mut out, modifier_number(m));
        } else if modes.app_cursor {
            out.push(0x4F);
        } else {
            out.push(0x5B);
        }
        out.push(f);
    } else if let Some(f) = function_letter_of(e.key) {
        if any {
            out.push(0x5B);
            out.push(0x31);
            out.push(0x3B);
            push_decimal(&mut out, modifier_number(m));
        } else {
            out.push(0x4F);
        }
        out.push(f);
    } else if let Some(n) = tilde_of(e.key) {
        out.push(0x5B);
        push_decimal(&mut out, n);
        if any {
            out.push(0x3B);
            push_decimal(&mut out, modifier_number(m));
        }
        out.push(0x7E);
    } else {
        return plain_key(e, modes);
    }
    assert(out@ =~= key_bytes(*e, *modes));
    out
}

/// The bytes that pasted text sends under the given modes.
pub fn map_paste(text: &[u8], modes: &Modes) -> (out: Vec<u8>)
    ensures
        out@ == paste_bytes(text@, *modes),
{
    let mut out: Vec<u8> = Vec::new();
    if modes.bracketed_paste {
        out.push(0x1B);
        out.push(0x5B);
        out.push(0x32);
        out.push(0x30);
        out.push(0x30);
        out.push(0x7E);
    }
    let ghost head = out@;
    let mut i: usize = 0;
    assert(text@.take(0) =~= Seq::<u8>::empty());
    while i < text.len()
        invariant
            i <= text.len(),
            modes.bracketed_paste ==> out@ == head + text@.take(i as int),
            !modes.bracketed_paste ==> out@ == strip_controls(text@.take(i as int)),
        decreases text.len() - i,
    {
        let b = text[i];
        assert(text@.take(i + 1).drop_last() =~= text@.take(i as int));
        assert(text@.take(i + 1) =~= text@.take(i as int).push(b));
        let stripped = (b < 0x20 && b != 0x09 && b != 0x0A && b != 0x0D) || b == 0x7F;
        if modes.bracketed_paste || !stripped {
            out.push(b);
        }
        i += 1;
    }
    assert(text@.take(i as int) =~= text@);
    if modes.bracketed_paste {
        out.push(0x1B);
        out.push(0x5B);
        out.push(0x32);
        out.push(0x30);
        out.push(0x31);
        out.push(0x7E);
        assert(out@ =~= paste_start() + text@ + paste_end());
    }
    out
}

fn code_of(e: &MouseEvent, sgr: bool) -> (n: usize)
    ensures
        n == mouse_code(*e, sgr),
        n <= 125,
{
    let released = match e.kind {
        MouseKind::Release => true,
        _ => false,
    };
    let moving = match e.kind {
        MouseKind::Motion => true,
        _ => false,
    };
    let button: usize = if !sgr && released {
        3
    } else {
        match e.button {
            MouseButton::Left => 0,
            MouseButton::Middle => 1,
            MouseButton::Right => 2,
            MouseButton::Released => 3,
            MouseButton::WheelUp => 64,
            MouseButton::WheelDown => 65,
        }
    };
    button + (if e.mods.shift { 4 } else { 0 }) + (if e.mods.alt { 8 } else { 0 }) + (
    if e.mods.ctrl { 16 } else { 0 }) + (if moving { 32 } else { 0 })
}

fn reported(e: &MouseEvent, tracking: MouseTracking) -> (b: bool)
    ensures
        b == is_reported(*e, tracking),
{
    let moving = match e.kind {
        MouseKind::Motion => true,
        _ => false,
    };
    let held = match e.button {
        MouseButton::Released => false,
        _ => true,
    };
    match tracking {
        MouseTracking::Off => false,
        MouseTracking::Click => !moving,
        MouseTracking::Drag => !moving || held,
        MouseTracking::Motion => true,
    }
}

/// The bytes that a mouse event sends under the given modes.
pub fn map_mouse(e: &MouseEvent, modes: &Modes) -> (out: Vec<u8>)
    ensures
        out@ == mouse_bytes(*e, *modes),
{
    let mut out: Vec<u8> = Vec::new();
    if !reported(e, modes.mouse) {
        return out;
    }
    if modes.mouse_sgr {
        out.push(0x1B);
        out.push(0x5B);
        out.push(0x3C);
        push_decimal(&mut out, code_of(e, true));
        out.push(0x3B);
        push_decimal(&mut out, e.col as usize + 1);
        out.push(0x3B);
        push_decimal(&mut out, e.row as usize + 1);
        let released = match e.kind {
            MouseKind::Release => true,
            _ => false,
        };
        out.push(if released { 0x6D } else { 0x4D });
        assert(out@ =~= mouse_bytes(*e, *modes));
    } else if e.row > LEGACY_MOUSE_LIMIT || e.col > LEGACY_MOUSE_LIMIT {
    } else {
        out.push(0x1B);
        out.push(0x5B);
        out.push(0x4D);
        out.push((32 + code_of(e, false)) as u8);
        out.push((32 + e.col + 1) as u8);
        out.push((32 + e.row + 1) as u8);
        assert(out@ =~= mouse_bytes(*e, *modes));
    }
    out
}

/// The bytes that an input event sends under the given modes.
pub fn map_input(e: &InputEvent, modes: &Modes) -> (out: Vec<u8>)
    ensures
        out@ == input_bytes(*e, *modes),
{
    match e {
        InputEvent::Key(k) => map_key(k, modes),
        InputEvent::Paste(text) => map_paste(text.as_slice(), modes),
        InputEvent::Mouse(m) => map_mouse(m, modes),
    }
}

/// The number of the function key that a host's key name stands for: `f1`
/// to `f12`.
pub open spec fn function_key(name: Seq<char>) -> Option<u8> {
    if name.len() == 2 && name[0] == 'f' && 0x31 <= name[1] as u32 <= 0x39 {
        Some((name[1] as u32 - 0x30) as u8)
    } else if name.len() == 3 && name[0] == 'f' && name[1] == '1' && 0x30 <= name[2] as u32
        <= 0x32 {
        Some((name[2] as u32 - 0x30 + 10) as u8)
    } else {
        None
    }
}

/// The key that a host's key name stands for, if it is one of the keys
/// that have a name of their own: the editing and cursor keys and `space`.
pub open spec fn special_key(name: Seq<char>) -> Option<Key> {
    if name == "enter"@ {
        Some(Key::Enter)
    } else if name == "tab"@ {
        Some(Key::Tab)
    } else if name == "backspace"@ {
        Some(Key::Backspace)
    } else if name == "escape"@ {
        Some(Key::Escape)
    } else if name == "up"@ {
        Some(Key::Up)
    } else if name == "down"@ {
        Some(Key::Down)
    } else if name == "left"@ {
        Some(Key::Left)
    } else if name == "right"@ {
        Some(Key::Right)
    } else if name == "home"@ {
        Some(Key::Home)
    } else if name == "end"@ {
        Some(Key::End)
    } else if name == "pageup"@ {
        Some(Key::PageUp)
    } else if name == "pagedown"@ {
        Some(Key::PageDown)
    } else if name == "insert"@ {
        Some(Key::Insert)
    } else if name == "delete"@ {
        Some(Key::Delete)
    } else if name == "space"@ {
        Some(Key::Char(' '))
    } else {
        None
    }
}

/// The key that a key stroke of the host stands for: `name` is the host's
/// name of the key, `typed` the character that the stroke types, if it types
/// one. A key with a name of its own is that key; `f1` to `f12` are the
/// function keys; any other stroke is the character it types or, if the
/// host names none, the one character that is its name. A stroke that is
/// none of these is no key.
pub open spec fn named_key(name: Seq<char>, typed: Option<char>) -> Option<Key> {
    if special_key(name) is Some {
        special_key(name)
    } else if let Some(n) = function_key(name) {
        Some(Key::F(n))
    } else if let Some(c) = typed {
        Some(Key::Char(c))
    } else if name.len() == 1 {
        Some(Key::Char(name[0]))
    } else {
        None
    }
}

fn special(name: &str) -> (k: Option<Key>)
    ensures
        k == special_key(name@),
{
    if same_text(name, "enter") {
        Some(Key::Enter)
    } else if same_text(name, "tab") {
        Some(Key::Tab)
    } else if same_text(name, "backspace") {
        Some(Key::Backspace)
    } else if same_text(name, "escape") {
        Some(Key::Escape)
    } else if same_text(name, "up") {
        Some(Key::Up)
    } else if same_text(name, "down") {
        Some(Key::Down)
    } else if same_text(name, "left") {
        Some(Key::Left)
    } else if same_text(name, "right") {
        Some(Key::Right)
    } else if same_text(name, "home") {
        Some(Key::Home)
    } else if same_text(name, "end") {
        Some(Key::End)
    } else if same_text(name, "pageup") {
        Some(Key::PageUp)
    } else if same_text(name, "pagedown") {
        Some(Key::PageDown)
    } else if same_text(name, "insert") {
        Some(Key::Insert)
    } else if same_text(name, "delete") {
        Some(Key::Delete)
    } else if same_text(name, "space") {
        Some(Key::Char(' '))
    } else {
        None
    }
}

fn function_number(name: &str) -> (n: Option<u8>)
    ensures
        n == function_key(name@),
{
    let len = name.unicode_len();
    if len == 2 && name.get_char(0) == 'f' {
        let v: u32 = name.get_char(1) as u32;
        if 0x31 <= v && v <= 0x39 {
            return Some((v - 0x30) as u8);
        }
        None
    } else if len == 3 && name.get_char(0) == 'f' && name.get_char(1) == '1' {
        let v: u32 = name.get_char(2) as u32;
        if 0x30 <= v && v <= 0x32 {
            return Some((v - 0x30 + 10) as u8);
        }
        None
    } else {
        None
    }
}

/// The key that a key stroke of the host stands for.
pub fn key_named(name: &str, typed: Option<char>) -> (k: Option<Key>)
    ensures
        k == named_key(name@, typed),
{
    if let Some(key) = special(name) {
        return Some(key);
    }
    if let Some(n) = function_number(name) {
        return Some(Key::F(n));
    }
    match typed {
        Some(c) => Some(Key::Char(c)),
        None => {
            if name.unicode_len() == 1 {
                Some(Key::Char(name.get_char(0)))
            } else {
                None
            }
        },
    }
}

} // verus!
