//! The drawer: the panel that shows one terminal. It owns the terminal and
//! the session of its child process, keeps the two in step, knows whether it
//! has the focus, and draws.

use vstd::prelude::*;
use crate::action::Event;
use crate::input::{
    InputEvent, MouseButton, MouseEvent, MouseKind, input_bytes, map_mouse, mouse_bytes,
};
use crate::model::{ScreenView, deselect, min, select, select_word, selected_text};
use crate::modes::MouseTracking;
use crate::render::{Frame, is_frame};
use crate::selection::{Point, SelectionMode};
use crate::session::{Delivery, Queued, Session, SessionError, SessionView, after_delivery};
use crate::terminal::{
    Directive, Message, Terminal, TerminalView, asked, directive, fresh_terminal, handled,
};

verus! {

/// The largest number of chunks that may wait to be written.
pub const WRITE_QUEUE_LIMIT: usize = 256;

/// The number of history rows that a drawer's terminal keeps.
pub const SCROLLBACK_ROWS: usize = 10_000;

/// The number of cells of `cell` pixels each that fit into `pixels` pixels:
/// at least 1 and at most 65535. A cell size of 0 gives 1.
pub open spec fn cells_in(pixels: u32, cell: u32) -> u16 {
    if cell == 0 || pixels / cell == 0 {
        1
    } else if pixels / cell > 0xFFFF {
        0xFFFFu16
    } else {
        (pixels / cell) as u16
    }
}

/// The number of rows or columns for a length in pixels.
pub fn cells_for(pixels: u32, cell: u32) -> (n: u16)
    ensures
        n == cells_in(pixels, cell),
{
    if cell == 0 {
        return 1;
    }
    let n = pixels / cell;
    if n == 0 {
        1
    } else if n > 0xFFFF {
        0xFFFF
    } else {
        n as u16
    }
}

/// The index of the cell under a point: the cell of `cell` pixels each,
/// out of `count` in a row or column, in which the point at `pixels` pixels
/// from the start lies; a point past the last cell is in the last one. A cell
/// size of 0, or no cells, gives 0.
pub open spec fn cell_under(pixels: u32, cell: u32, count: usize) -> usize {
    if cell == 0 || count == 0 {
        0
    } else if pixels / cell >= count {
        (count - 1) as usize
    } else {
        (pixels / cell) as usize
    }
}

/// The index of the cell under a point.
pub fn cell_at(pixels: u32, cell: u32, count: usize) -> (i: usize)
    ensures
        i == cell_under(pixels, cell, count),
{
    if cell == 0 || count == 0 {
        return 0;
    }
    let n = pixels / cell;
    if n as usize >= count {
        count - 1
    } else {
        n as usize
    }
}

/// Whether the program inside the terminal has asked for mouse events.
pub open spec fn reports_mouse(s: ScreenView) -> bool {
    s.modes.mouse != MouseTracking::Off
}

/// The buffer position of the grid cell that a mouse event names, pulled
/// into the grid.
pub open spec fn pointed_at(s: ScreenView, e: MouseEvent) -> Point {
    Point {
        row: (s.base() + min(e.row as int, s.rows() - 1)) as usize,
        col: min(e.col as int, s.cols - 1) as usize,
    }
}

/// What a mouse event makes of the screen and of the anchor of a selection
/// gesture. While the program has asked for mouse events, nothing: the event
/// is for the program. Else the left button starts a gesture where it goes
/// down and drops the selection; while it is held, moving selects from the
/// anchor up to the cell under the pointer, in reading order; its release
/// ends the gesture and keeps the selection. Other events change nothing.
pub open spec fn gesture(s: ScreenView, anchor: Option<Point>, e: MouseEvent) -> (
    ScreenView,
    Option<Point>,
) {
    if reports_mouse(s) || e.button != MouseButton::Left {
        (s, anchor)
    } else {
        match e.kind {
            MouseKind::Press => (deselect(s), Some(pointed_at(s, e))),
            MouseKind::Motion => match anchor {
                Some(a) => (select(s, a, pointed_at(s, e), SelectionMode::Linear), anchor),
                None => (s, anchor),
            },
            MouseKind::Release => (s, None),
        }
    }
}

/// The bytes that a mouse event sends to the program: those of the input
/// mapper while the program has asked for mouse events, else none.
pub open spec fn pointer_bytes(s: ScreenView, e: MouseEvent) -> Seq<u8> {
    if reports_mouse(s) {
        mouse_bytes(e, s.modes)
    } else {
        Seq::empty()
    }
}

/// The session after the terminal has handled a message: it closes, and
/// what waits is discarded, when the terminal stops.
pub open spec fn session_after(s: SessionView, d: Directive) -> SessionView {
    if d == Directive::Stop {
        SessionView { closed: true, queue: Seq::empty(), ..s }
    } else {
        s
    }
}

/// Whether a delivery closes an open session: it failed, and a chunk was
/// waiting.
pub open spec fn breaks(s: SessionView, d: Delivery) -> bool {
    !s.closed && s.queue.len() > 0 && d == Delivery::Failed
}

/// The panel that shows one terminal.
pub struct TerminalDrawer {
    terminal: Terminal,
    session: Session,
    focused: bool,
    anchor: Option<Point>,
}

impl TerminalDrawer {
    /// The drawer's terminal.
    pub closed spec fn inner(&self) -> Terminal {
        self.terminal
    }

    /// The value of the drawer's terminal.
    pub open spec fn terminal_view(&self) -> TerminalView {
        self.inner()@
    }

    /// The value of the drawer's session.
    pub closed spec fn session_view(&self) -> SessionView {
        self.session@
    }

    /// Whether the drawer has the focus.
    pub closed spec fn has_focus(&self) -> bool {
        self.focused
    }

    /// Where the selection gesture that is under way started, if one is.
    pub closed spec fn gesture_anchor(&self) -> Option<Point> {
        self.anchor
    }

    /// The drawer's invariant: that of its terminal.
    pub open spec fn wf(&self) -> bool {
        self.inner().wf()
    }

    /// The drawer for a child process that the caller has tried to start;
    /// `spawned` says whether it runs. If it does not, no drawer is made and
    /// the failure is returned for the host to report. A new drawer has a
    /// fresh terminal of the given size, an open session of the same size
    /// without pending writes, and no focus. A dimension of 0 is taken as 1,
    /// by the terminal and by the session alike.
    pub fn new(spawned: bool, rows: u16, cols: u16) -> (r: Result<TerminalDrawer, SessionError>)
        ensures
            match r {
                Ok(d) => {
                    &&& spawned
                    &&& d.wf()
                    &&& d.terminal_view() == fresh_terminal(rows, cols, SCROLLBACK_ROWS)
                    &&& d.session_view() == (SessionView {
                        closed: false,
                        rows: asked(rows),
                        cols: asked(cols),
                        queue: Seq::empty(),
                        limit: WRITE_QUEUE_LIMIT as nat,
                    })
                    &&& !d.has_focus()
                    &&& d.gesture_anchor() is None
                },
                Err(e) => !spawned && e == SessionError::SpawnFailed,
            },
    {
        let rows = if rows == 0 { 1 } else { rows };
        let cols = if cols == 0 { 1 } else { cols };
        match Session::open(spawned, rows, cols, WRITE_QUEUE_LIMIT) {
            Ok(session) => Ok(
                TerminalDrawer {
                    terminal: Terminal::new(rows, cols, SCROLLBACK_ROWS),
                    session,
                    focused: false,
                    anchor: None,
                },
            ),
            Err(e) => Err(e),
        }
    }

    /// The terminal.
    pub fn terminal(&self) -> (t: &Terminal)
        requires
            self.wf(),
        ensures
            t.wf(),
            t@ == self.terminal_view(),
    {
        &self.terminal
    }

    /// The session.
    pub fn session(&self) -> (s: &Session)
        ensures
            s@ == self.session_view(),
    {
        &self.session
    }

    /// Whether the drawer has the focus.
    pub fn is_focused(&self) -> (b: bool)
        ensures
            b == self.has_focus(),
    {
        self.focused
    }

    /// Tells the drawer whether it has the focus.
    pub fn set_focus(&mut self, focused: bool)
        requires
            old(self).wf(),
        ensures
            final(self).wf(),
            final(self).has_focus() == focused,
            final(self).terminal_view() == old(self).terminal_view(),
            final(self).session_view() == old(self).session_view(),
            final(self).gesture_anchor() == old(self).gesture_anchor(),
    {
        self.focused = focused;
    }

    /// The name of the panel.
    pub fn panel_name(&self) -> (name: &'static str)
        ensures
            name@ == "Terminal"@,
    {
        "Terminal"
    }

    /// The title of the panel.
    pub fn title(&self) -> (title: &'static str)
        ensures
            title@ == "Terminal"@,
    {
        "Terminal"
    }

    /// Draws one frame of the terminal, with the cursor as the focus asks.
    pub fn render(&mut self) -> (frame: Frame)
        requires
            old(self).wf(),
        ensures
            final(self).wf(),
            is_frame(old(self).terminal_view().screen, old(self).has_focus(), frame),
            final(self).terminal_view() == (TerminalView {
                screen: ScreenView { damage: Set::empty(), ..old(self).terminal_view().screen },
                ..old(self).terminal_view()
            }),
            final(self).has_focus() == old(self).has_focus(),
            final(self).gesture_anchor() == old(self).gesture_anchor(),
            final(self).session_view() == old(self).session_view(),
    {
        self.terminal.draw(self.focused)
    }

    /// Handles one message from the ordered channel: the terminal handles
    /// it, and when the terminal stops the session closes with it. The
    /// result says what the owner of the operating system's handles is to do.
    pub fn handle(&mut self, m: Message) -> (d: Directive)
        requires
            old(self).wf(),
        ensures
            final(self).wf(),
            d == directive(old(self).terminal_view(), m),
            final(self).terminal_view() == handled(old(self).terminal_view(), m),
            final(self).session_view() == session_after(old(self).session_view(), d),
            final(self).has_focus() == old(self).has_focus(),
            final(self).gesture_anchor() == old(self).gesture_anchor(),
    {
        let d = self.terminal.handle(m);
        match d {
            Directive::Stop => self.session.close(),
            _ => {},
        }
        d
    }

    /// Takes a mouse event at a cell of the grid. While the program has
    /// asked for mouse events, the event is for the program and its bytes are
    /// returned for the session; else it is part of a selection gesture, and
    /// no bytes are returned.
    pub fn pointer(&mut self, e: MouseEvent) -> (bytes: Vec<u8>)
        requires
            old(self).wf(),
        ensures
            final(self).wf(),
            bytes@ == pointer_bytes(old(self).terminal_view().screen, e),
            final(self).terminal_view() == (TerminalView {
                screen: gesture(old(self).terminal_view().screen, old(self).gesture_anchor(), e).0,
                ..old(self).terminal_view()
            }),
            final(self).gesture_anchor() == gesture(
                old(self).terminal_view().screen,
                old(self).gesture_anchor(),
                e,
            ).1,
            final(self).session_view() == old(self).session_view(),
            final(self).has_focus() == old(self).has_focus(),
    {
        let modes = self.terminal.screen().modes();
        let reporting = match modes.mouse {
            MouseTracking::Off => false,
            _ => true,
        };
        if reporting {
            return map_mouse(&e, &modes);
        }
        let left = match e.button {
            MouseButton::Left => true,
            _ => false,
        };
        if left {
            let screen = self.terminal.screen();
            let rows = screen.rows();
            let cols = screen.cols();
            let at = Point {
                row: screen.base() + (if e.row as usize >= rows { rows - 1 } else { e.row as usize }),
                col: if e.col as usize >= cols { cols - 1 } else { e.col as usize },
            };
            match e.kind {
                MouseKind::Press => {
                    self.terminal.deselect();
                    self.anchor = Some(at);
                },
                MouseKind::Motion => {
                    match self.anchor {
                        Some(a) => self.terminal.select(a, at, SelectionMode::Linear),
                        None => {},
                    }
                },
                MouseKind::Release => {
                    self.anchor = None;
                },
            }
        }
        Vec::new()
    }

    /// The bytes that an input event sends to the program under the
    /// screen's modes.
    pub fn input(&self, e: &InputEvent) -> (bytes: Vec<u8>)
        ensures
            bytes@ == input_bytes(*e, self.terminal_view().screen.modes),
    {
        self.terminal.input(e)
    }

    /// Hands in a chunk to be written to the child process. On a closed
    /// session this fails; with the queue full the chunk comes back; else
    /// the chunk joins the end of the queue.
    pub fn send(&mut self, bytes: Vec<u8>) -> (r: Result<Queued, SessionError>)
        requires
            old(self).wf(),
        ensures
            final(self).wf(),
            final(self).terminal_view() == old(self).terminal_view(),
            final(self).has_focus() == old(self).has_focus(),
            final(self).gesture_anchor() == old(self).gesture_anchor(),
            match r {
                Err(e) => old(self).session_view().closed && e == SessionError::WriteFailed
                    && final(self).session_view() == old(self).session_view(),
                Ok(Queued::Full(back)) => !old(self).session_view().closed && old(self).session_view().queue.len() >= old(self).session_view().limit && back@ == bytes@
                    && final(self).session_view() == old(self).session_view(),
                Ok(Queued::Accepted) => !old(self).session_view().closed && old(self).session_view().queue.len() < old(self).session_view().limit && final(self).session_view() == (SessionView {
                    queue: old(self).session_view().queue.push(bytes@),
                    ..old(self).session_view()
                }),
            },
    {
        self.session.write(bytes)
    }

    /// Records how the operating system took the chunk at the head of the
    /// queue. A failure closes the session and the terminal with it, and is
    /// reported here once.
    pub fn delivered(&mut self, d: Delivery) -> (e: Option<SessionError>)
        requires
            old(self).wf(),
        ensures
            final(self).wf(),
            final(self).session_view() == after_delivery(old(self).session_view(), d),
            final(self).has_focus() == old(self).has_focus(),
            final(self).gesture_anchor() == old(self).gesture_anchor(),
            e == (if breaks(old(self).session_view(), d) {
                Some(SessionError::WriteFailed)
            } else {
                None
            }),
            final(self).terminal_view() == (if breaks(old(self).session_view(), d) {
                handled(old(self).terminal_view(), Message::Close)
            } else {
                old(self).terminal_view()
            }),
    {
        let e = self.session.delivered(d);
        if e.is_some() {
            let _ = self.terminal.handle(Message::Close);
        }
        e
    }

    /// Records a resize request and how it went; see [`Session::resized`].
    pub fn resized(&mut self, rows: u16, cols: u16, done: bool) -> (r: Result<(), SessionError>)
        requires
            old(self).wf(),
        ensures
            final(self).wf(),
            final(self).terminal_view() == old(self).terminal_view(),
            final(self).has_focus() == old(self).has_focus(),
            final(self).gesture_anchor() == old(self).gesture_anchor(),
            match r {
                Ok(_) => done && !old(self).session_view().closed && final(self).session_view()
                    == (SessionView { rows, cols, ..old(self).session_view() }),
                Err(e) => (!done || old(self).session_view().closed) && e
                    == SessionError::ResizeFailed && final(self).session_view() == old(self).session_view(),
            },
    {
        self.session.resized(rows, cols, done)
    }

    /// Takes the bytes that the terminal wants sent to the program.
    pub fn take_output(&mut self) -> (bytes: Vec<u8>)
        requires
            old(self).wf(),
        ensures
            final(self).wf(),
            bytes@ == old(self).terminal_view().outbox,
            final(self).terminal_view() == (TerminalView {
                outbox: Seq::empty(),
                ..old(self).terminal_view()
            }),
            final(self).session_view() == old(self).session_view(),
            final(self).has_focus() == old(self).has_focus(),
            final(self).gesture_anchor() == old(self).gesture_anchor(),
    {
        self.terminal.take_output()
    }

    /// Takes the oldest waiting event; `None` if none waits.
    pub fn poll_event(&mut self) -> (event: Option<Event>)
        requires
            old(self).wf(),
        ensures
            final(self).wf(),
            final(self).session_view() == old(self).session_view(),
            final(self).has_focus() == old(self).has_focus(),
            final(self).gesture_anchor() == old(self).gesture_anchor(),
            match event {
                Some(e) => old(self).terminal_view().events.len() > 0 && e@ == old(self).terminal_view().events[0] && final(self).terminal_view() == (TerminalView {
                    events: old(self).terminal_view().events.skip(1),
                    ..old(self).terminal_view()
                }),
                None => old(self).terminal_view().events.len() == 0 && final(self).terminal_view() == old(self).terminal_view(),
            },
    {
        self.terminal.poll_event()
    }

    /// Selects the cells between two buffer positions.
    pub fn select(&mut self, a: Point, b: Point, mode: SelectionMode)
        requires
            old(self).wf(),
        ensures
            final(self).wf(),
            final(self).terminal_view() == (TerminalView {
                screen: select(old(self).terminal_view().screen, a, b, mode),
                ..old(self).terminal_view()
            }),
            final(self).session_view() == old(self).session_view(),
            final(self).has_focus() == old(self).has_focus(),
            final(self).gesture_anchor() == old(self).gesture_anchor(),
    {
        self.terminal.select(a, b, mode);
    }

    /// Selects the word at grid row `r`, column `c`.
    pub fn select_word(&mut self, r: usize, c: usize)
        requires
            old(self).wf(),
        ensures
            final(self).wf(),
            final(self).terminal_view() == (TerminalView {
                screen: select_word(old(self).terminal_view().screen, r as int, c as int),
                ..old(self).terminal_view()
            }),
            final(self).session_view() == old(self).session_view(),
            final(self).has_focus() == old(self).has_focus(),
            final(self).gesture_anchor() == old(self).gesture_anchor(),
    {
        self.terminal.select_word(r, c);
    }

    /// Drops the selection.
    pub fn deselect(&mut self)
        requires
            old(self).wf(),
        ensures
            final(self).wf(),
            final(self).terminal_view() == (TerminalView {
                screen: deselect(old(self).terminal_view().screen),
                ..old(self).terminal_view()
            }),
            final(self).session_view() == old(self).session_view(),
            final(self).has_focus() == old(self).has_focus(),
            final(self).gesture_anchor() == old(self).gesture_anchor(),
    {
        self.terminal.deselect();
    }

    /// The text that the selection holds.
    pub fn selected_text(&self) -> (text: Vec<char>)
        requires
            self.wf(),
        ensures
            text@ == selected_text(self.terminal_view().screen),
    {
        self.terminal.selected_text()
    }
}

} // verus!
