//! Terminal actions: what the interpreter emits and the screen applies; and
//! the events and replies that come out of applying them.

use vstd::prelude::*;
use crate::modes::CursorShape;

verus! {

/// A cursor movement. Counts are at least 1 where the interpreter emits
/// them; rows and columns are counted from 0. The screen clamps all of them.
#[derive(Clone, Copy, PartialEq, Eq, Structural, Debug)]
pub enum Motion {
    Up(u16),
    Down(u16),
    Forward(u16),
    Back(u16),
    /// Down by the count, to column 0.
    NextLine(u16),
    /// Up by the count, to column 0.
    PrevLine(u16),
    /// To the column, in the same row.
    Column(u16),
    /// To the row, in the same column.
    Row(u16),
    /// To the row and column.
    Position { row: u16, col: u16 },
    /// To column 0.
    CarriageReturn,
    /// One column left.
    Backspace,
    /// Forward to the count-th next tab stop.
    Tab(u16),
    /// Back to the count-th previous tab stop.
    BackTab(u16),
}

/// The part of the cursor's row that an erase empties.
#[derive(Clone, Copy, PartialEq, Eq, Structural, Debug)]
pub enum LineErase {
    /// From the cursor to the end of the row.
    ToEnd,
    /// From the start of the row to the cursor, the cursor's cell included.
    ToStart,
    /// The whole row.
    All,
}

/// The part of the display that an erase empties.
#[derive(Clone, Copy, PartialEq, Eq, Structural, Debug)]
pub enum DisplayErase {
    /// From the cursor to the end of the grid.
    Below,
    /// From the start of the grid to the cursor, the cursor's cell included.
    Above,
    /// The whole grid.
    All,
    /// The history; the grid stays. On the alternate screen, which has no
    /// history, nothing is erased.
    History,
}

/// A report that the program inside the terminal asks for.
#[derive(Clone, Copy, PartialEq, Eq, Structural, Debug)]
pub enum Report {
    /// Whether the terminal is working.
    Status,
    /// Where the cursor is.
    CursorPosition,
    /// What kind of terminal this is.
    DeviceAttributes,
}

/// One terminal action. The interpreter emits exactly one for each
/// recognised sequence.
#[derive(Clone, PartialEq, Eq, Debug)]
pub enum Action {
    /// Write the character at the cursor.
    Print(char),
    /// Move the cursor down a row, scrolling at the bottom.
    LineFeed,
    CursorMove(Motion),
    EraseInLine(LineErase),
    EraseInDisplay(DisplayErase),
    /// Change the pen by these attribute parameters, in order.
    SetSgr(Vec<u16>),
    /// Set or reset the private modes with these codes, in order.
    SetMode { codes: Vec<u16>, enable: bool },
    /// Show the alternate screen, or go back to the primary one.
    SwitchAlternateScreen(bool),
    SetCursorStyle { shape: CursorShape, blink: bool },
    /// Set the window title to these bytes.
    SetTitle(Vec<u8>),
    Bell,
    SetPaletteColor { index: u8, r: u8, g: u8, b: u8 },
    RequestReport(Report),
    /// Link what is printed from now on to this target; `None` ends the link.
    SetHyperlink(Option<Vec<u8>>),
    /// Ask the host to put these bytes on the clipboard.
    WriteClipboard(Vec<u8>),
}

/// The mathematical value of an [`Action`].
pub enum ActionView {
    Print(char),
    LineFeed,
    CursorMove(Motion),
    EraseInLine(LineErase),
    EraseInDisplay(DisplayErase),
    SetSgr(Seq<u16>),
    SetMode { codes: Seq<u16>, enable: bool },
    SwitchAlternateScreen(bool),
    SetCursorStyle { shape: CursorShape, blink: bool },
    SetTitle(Seq<u8>),
    Bell,
    SetPaletteColor { index: u8, r: u8, g: u8, b: u8 },
    RequestReport(Report),
    SetHyperlink(Option<Seq<u8>>),
    WriteClipboard(Seq<u8>),
}

impl View for Action {
    type V = ActionView;

    open spec fn view(&self) -> ActionView {
        match *self {
            Action::Print(c) => ActionView::Print(c),
            Action::LineFeed => ActionView::LineFeed,
            Action::CursorMove(m) => ActionView::CursorMove(m),
            Action::EraseInLine(e) => ActionView::EraseInLine(e),
            Action::EraseInDisplay(e) => ActionView::EraseInDisplay(e),
            Action::SetSgr(p) => ActionView::SetSgr(p@),
            Action::SetMode { codes, enable } => ActionView::SetMode { codes: codes@, enable },
            Action::SwitchAlternateScreen(on) => ActionView::SwitchAlternateScreen(on),
            Action::SetCursorStyle { shape, blink } => ActionView::SetCursorStyle { shape, blink },
            Action::SetTitle(t) => ActionView::SetTitle(t@),
            Action::Bell => ActionView::Bell,
            Action::SetPaletteColor { index, r, g, b } => ActionView::SetPaletteColor {
                index,
                r,
                g,
                b,
            },
            Action::RequestReport(r) => ActionView::RequestReport(r),
            Action::SetHyperlink(target) => ActionView::SetHyperlink(
                match target {
                    Some(t) => Some(t@),
                    None => None,
                },
            ),
            Action::WriteClipboard(bytes) => ActionView::WriteClipboard(bytes@),
        }
    }
}

/// The value of an optional action.
pub open spec fn action_view(a: Option<Action>) -> Option<ActionView> {
    match a {
        Some(a) => Some(a@),
        None => None,
    }
}

/// A lifecycle event for the host.
#[derive(Clone, PartialEq, Eq, Debug)]
pub enum Event {
    /// The program set the window title to these bytes.
    TitleChanged(Vec<u8>),
    BellRung,
    /// The child process ended with this exit code.
    ProcessExited(i32),
    /// The program asks to put these bytes on the clipboard.
    ClipboardWriteRequested(Vec<u8>),
    /// New output was taken in: draw again.
    Woken,
}

/// The mathematical value of an [`Event`].
pub enum EventView {
    TitleChanged(Seq<u8>),
    BellRung,
    ProcessExited(i32),
    ClipboardWriteRequested(Seq<u8>),
    Woken,
}

impl View for Event {
    type V = EventView;

    open spec fn view(&self) -> EventView {
        match *self {
            Event::TitleChanged(t) => EventView::TitleChanged(t@),
            Event::BellRung => EventView::BellRung,
            Event::ProcessExited(code) => EventView::ProcessExited(code),
            Event::ClipboardWriteRequested(t) => EventView::ClipboardWriteRequested(t@),
            Event::Woken => EventView::Woken,
        }
    }
}

/// What applying an action asks of the surroundings.
#[derive(Clone, PartialEq, Eq, Debug)]
pub enum Effect {
    /// Nothing.
    Nothing,
    /// Tell the host.
    Emit(Event),
    /// Send these bytes to the program inside the terminal.
    Reply(Vec<u8>),
}

/// The mathematical value of an [`Effect`].
pub enum EffectView {
    Nothing,
    Emit(EventView),
    Reply(Seq<u8>),
}

impl View for Effect {
    type V = EffectView;

    open spec fn view(&self) -> EffectView {
        match *self {
            Effect::Nothing => EffectView::Nothing,
            Effect::Emit(e) => EffectView::Emit(e@),
            Effect::Reply(r) => EffectView::Reply(r@),
        }
    }
}

} // verus!
