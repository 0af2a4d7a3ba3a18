//! Mode flags and cursor state.

use vstd::prelude::*;

verus! {

/// Which mouse events the program inside the terminal has asked for.
#[derive(Clone, Copy, PartialEq, Eq, Structural, Debug)]
pub enum MouseTracking {
    /// None: mouse events are not reported.
    Off,
    /// Button presses and releases.
    Click,
    /// Presses, releases, and motion while a button is held.
    Drag,
    /// Presses, releases and all motion.
    Motion,
}

/// The named mode flags. The interpreter's actions set them; the input mapper
/// and the screen read them.
#[derive(Clone, Copy, PartialEq, Eq, Structural, Debug)]
pub struct Modes {
    /// The alternate screen is shown.
    pub alt_screen: bool,
    /// The keypad sends application sequences.
    pub app_keypad: bool,
    /// The arrow keys send application sequences.
    pub app_cursor: bool,
    /// Pasted text is wrapped in paste markers.
    pub bracketed_paste: bool,
    /// The mouse events that are reported.
    pub mouse: MouseTracking,
    /// Mouse reports use the decimal (SGR) encoding.
    pub mouse_sgr: bool,
    /// Origin mode, as the program has set it. The scrolling region is the
    /// whole grid, so rows are counted from the top either way.
    pub origin: bool,
    /// Printing past the last column continues on the next row.
    pub auto_wrap: bool,
}

/// The shape in which the cursor is drawn.
#[derive(Clone, Copy, PartialEq, Eq, Structural, Debug)]
pub enum CursorShape {
    Block,
    Bar,
    Underline,
}

/// The cursor: where the next glyph goes and how the cursor is drawn.
#[derive(Clone, Copy, PartialEq, Eq, Structural, Debug)]
pub struct Cursor {
    pub row: usize,
    pub col: usize,
    pub visible: bool,
    pub shape: CursorShape,
    pub blink: bool,
    /// A glyph was written in the last column with auto-wrap on: the next
    /// glyph goes to the start of the next row.
    pub pending_wrap: bool,
}

/// The modes of a fresh terminal: auto-wrap on, everything else off.
pub open spec fn initial_modes() -> Modes {
    Modes {
        alt_screen: false,
        app_keypad: false,
        app_cursor: false,
        bracketed_paste: false,
        mouse: MouseTracking::Off,
        mouse_sgr: false,
        origin: false,
        auto_wrap: true,
    }
}

/// The cursor of a fresh terminal: top left, visible, a blinking block.
pub open spec fn initial_cursor() -> Cursor {
    Cursor {
        row: 0,
        col: 0,
        visible: true,
        shape: CursorShape::Block,
        blink: true,
        pending_wrap: false,
    }
}

impl Modes {
    /// The modes of a fresh terminal.
    pub fn initial() -> (m: Modes)
        ensures
            m == initial_modes(),
    {
        Modes {
            alt_screen: false,
            app_keypad: false,
            app_cursor: false,
            bracketed_paste: false,
            mouse: MouseTracking::Off,
            mouse_sgr: false,
            origin: false,
            auto_wrap: true,
        }
    }
}

impl Cursor {
    /// The cursor of a fresh terminal.
    pub fn initial() -> (c: Cursor)
        ensures
            c == initial_cursor(),
    {
        Cursor {
            row: 0,
            col: 0,
            visible: true,
            shape: CursorShape::Block,
            blink: true,
            pending_wrap: false,
        }
    }
}

} // verus!
