//! The terminal: interpreter, screen and event bus together. Bytes from
//! the program go in; the screen changes, events queue up for the host, and
//! replies queue up for the program.

use vstd::prelude::*;
use crate::action::{Effect, EffectView, Event, EventView};
use crate::events::{EventBus, woken};
use crate::interpreter::{Interpreter, InterpreterView, idle, lemma_step_valid, valid};
use crate::model::{ScreenView, apply, effect, fresh, lemma_apply_wf, resize};
use crate::input::{InputEvent, input_bytes, map_input};
use crate::render::{Frame, draw, is_frame};
use crate::screen::Screen;
use crate::selection::{Point, SelectionMode};

verus! {

/// The mathematical value of a terminal.
pub struct TerminalView {
    pub interp: InterpreterView,
    pub screen: ScreenView,
    /// The events waiting for the host, oldest first.
    pub events: Seq<EventView>,
    /// The bytes waiting to be sent to the program.
    pub outbox: Seq<u8>,
    /// The exit code of the program, once it has ended.
    pub exited: Option<i32>,
    /// The terminal was closed: it takes in nothing more.
    pub closed: bool,
}

impl TerminalView {
    /// The terminal's invariant: those of the interpreter and of the screen.
    pub open spec fn wf(self) -> bool {
        valid(self.interp) && self.screen.wf()
    }
}

/// The terminal after what an action asked for has been handed on: an event
/// joins the queue, a reply joins the outbox.
pub open spec fn deliver(t: TerminalView, e: EffectView) -> TerminalView {
    match e {
        EffectView::Nothing => t,
        EffectView::Emit(event) => TerminalView { events: t.events.push(event), ..t },
        EffectView::Reply(bytes) => TerminalView { outbox: t.outbox + bytes, ..t },
    }
}

/// The terminal after one byte: the interpreter takes the byte, and the
/// action that it completes, if any, is applied to the screen.
#[verifier::opaque]
pub open spec fn step(t: TerminalView, b: u8) -> TerminalView {
    let (interp, action) = crate::interpreter::step(t.interp, b);
    match action {
        None => TerminalView { interp, ..t },
        Some(a) => deliver(
            TerminalView { interp, screen: apply(t.screen, a), ..t },
            effect(t.screen, a),
        ),
    }
}

/// The terminal after the bytes, in order.
pub open spec fn feed(t: TerminalView, bytes: Seq<u8>) -> TerminalView
    decreases bytes.len(),
{
    if bytes.len() == 0 {
        t
    } else {
        step(feed(t, bytes.drop_last()), bytes.last())
    }
}

/// The terminal after a chunk of output: the bytes are fed, and if there
/// were any the host is asked to draw again. A closed terminal takes in
/// nothing.
pub open spec fn take_in(t: TerminalView, bytes: Seq<u8>) -> TerminalView {
    if t.closed || bytes.len() == 0 {
        t
    } else {
        let u = feed(t, bytes);
        TerminalView { events: woken(u.events), ..u }
    }
}

/// A fresh terminal.
pub open spec fn fresh_terminal(rows: u16, cols: u16, capacity: usize) -> TerminalView {
    TerminalView {
        interp: idle(),
        screen: fresh(rows, cols, capacity),
        events: Seq::empty(),
        outbox: Seq::empty(),
        exited: None,
        closed: false,
    }
}

/// One byte keeps the terminal's invariant and the size of the grid.
pub proof fn lemma_step_wf(t: TerminalView, b: u8)
    requires
        t.wf(),
    ensures
        step(t, b).wf(),
        step(t, b).screen.rows() == t.screen.rows(),
        step(t, b).screen.cols == t.screen.cols,
{
    reveal(step);
    lemma_step_valid(t.interp, b);
    if let Some(a) = crate::interpreter::step(t.interp, b).1 {
        lemma_apply_wf(t.screen, a);
    }
}

/// Whatever the bytes, the terminal's invariant holds after them and the
/// grid keeps its size: the cursor is inside the grid and every row has the
/// grid's width.
pub proof fn lemma_feed_wf(t: TerminalView, bytes: Seq<u8>)
    requires
        t.wf(),
    ensures
        feed(t, bytes).wf(),
        feed(t, bytes).screen.rows() == t.screen.rows(),
        feed(t, bytes).screen.cols == t.screen.cols,
    decreases bytes.len(),
{
    if bytes.len() > 0 {
        lemma_feed_wf(t, bytes.drop_last());
        lemma_step_wf(feed(t, bytes.drop_last()), bytes.last());
    }
}

/// A message for the terminal. Output, resizes and the end of the program
/// come through one ordered channel, so that they are handled one after the
/// other and in the order in which they were sent.
#[derive(Clone, PartialEq, Eq, Debug)]
pub enum Message {
    /// A chunk of the program's output.
    Output(Vec<u8>),
    /// The host gave the terminal a new size, in cells.
    Resize { rows: u16, cols: u16 },
    /// The program ended with this exit code.
    Exited(i32),
    /// The host closed the terminal.
    Close,
}

/// What the owner of the session does after a message was handled.
#[derive(Clone, Copy, PartialEq, Eq, Structural, Debug)]
pub enum Directive {
    /// Nothing; wait for the next message.
    Continue,
    /// Tell the session the new size.
    NotifySize { rows: u16, cols: u16 },
    /// Close the session and stop.
    Stop,
}

/// The number of rows or columns that a resize request stands for: 0 is
/// taken as 1.
pub open spec fn asked(n: u16) -> u16 {
    if n == 0 { 1 } else { n }
}

/// The terminal after a message.
pub open spec fn handled(t: TerminalView, m: Message) -> TerminalView {
    if t.closed {
        t
    } else {
        match m {
            Message::Output(bytes) => take_in(t, bytes@),
            Message::Resize { rows, cols } => TerminalView {
                screen: resize(t.screen, rows, cols),
                events: woken(t.events),
                ..t
            },
            Message::Exited(code) => TerminalView {
                events: t.events.push(EventView::ProcessExited(code)),
                exited: Some(code),
                closed: true,
                ..t
            },
            Message::Close => TerminalView { closed: true, ..t },
        }
    }
}

/// What the owner of the session is told after a message.
pub open spec fn directive(t: TerminalView, m: Message) -> Directive {
    if t.closed {
        Directive::Stop
    } else {
        match m {
            Message::Output(_) => Directive::Continue,
            Message::Resize { rows, cols } => Directive::NotifySize {
                rows: asked(rows),
                cols: asked(cols),
            },
            Message::Exited(_) => Directive::Stop,
            Message::Close => Directive::Stop,
        }
    }
}

/// The terminal. Its view is a [`TerminalView`].
pub struct Terminal {
    interp: Interpreter,
    screen: Screen,
    bus: EventBus,
    outbox: Vec<u8>,
    exited: Option<i32>,
    closed: bool,
}

impl View for Terminal {
    type V = TerminalView;

    closed spec fn view(&self) -> TerminalView {
        TerminalView {
            interp: self.interp@,
            screen: self.screen@,
            events: self.bus@,
            outbox: self.outbox@,
            exited: self.exited,
            closed: self.closed,
        }
    }
}

impl Terminal {
    /// The terminal's invariant. Every constructor gives it and every
    /// method keeps it.
    pub closed spec fn wf(&self) -> bool {
        self.interp.wf() && self.screen.wf()
    }

    /// The invariant of a terminal implies that of its view.
    pub proof fn lemma_view_wf(&self)
        requires
            self.wf(),
        ensures
            self@.wf(),
    {
    }

    /// A fresh terminal of `rows` by `cols` cells (0 is taken as 1) that
    /// keeps up to `capacity` history rows.
    pub fn new(rows: u16, cols: u16, capacity: usize) -> (t: Terminal)
        ensures
            t.wf(),
            t@ == fresh_terminal(rows, cols, capacity),
    {
        Terminal {
            interp: Interpreter::new(),
            screen: Screen::new(rows, cols, capacity),
            bus: EventBus::new(),
            outbox: Vec::new(),
            exited: None,
            closed: false,
        }
    }

    /// The screen.
    pub fn screen(&self) -> (s: &Screen)
        requires
            self.wf(),
        ensures
            s.wf(),
            s@ == self@.screen,
    {
        &self.screen
    }

    /// Whether the terminal was closed.
    pub fn is_closed(&self) -> (b: bool)
        ensures
            b == self@.closed,
    {
        self.closed
    }

    /// The exit code of the program, once it has ended.
    pub fn exit_code(&self) -> (code: Option<i32>)
        ensures
            code == self@.exited,
    {
        self.exited
    }

    fn deliver(&mut self, e: Effect)
        requires
            old(self).wf(),
        ensures
            final(self).wf(),
            final(self)@ == deliver(old(self)@, e@),
    {
        match e {
            Effect::Nothing => {},
            Effect::Emit(event) => self.bus.push(event),
            Effect::Reply(bytes) => {
                let mut bytes = bytes;
                self.outbox.append(&mut bytes);
            },
        }
    }

    fn advance(&mut self, b: u8)
        requires
            old(self).wf(),
        ensures
            final(self).wf(),
            final(self)@ == step(old(self)@, b),
    {
        proof {
            reveal(step);
        }
        match self.interp.advance(b) {
            None => {},
            Some(a) => {
                let e = self.screen.apply(a);
                self.deliver(e);
            },
        }
    }

    /// Takes in a chunk of the program's output and asks the host to draw
    /// again. Whatever the bytes are, this does not fail and the screen
    /// stays well-formed; a closed terminal takes in nothing.
    pub fn feed(&mut self, bytes: &[u8])
        requires
            old(self).wf(),
        ensures
            final(self).wf(),
            final(self)@.wf(),
            final(self)@ == take_in(old(self)@, bytes@),
            final(self)@.screen.rows() == old(self)@.screen.rows(),
            final(self)@.screen.cols == old(self)@.screen.cols,
    {
        proof {
            lemma_feed_wf(self@, bytes@);
        }
        if self.closed || bytes.len() == 0 {
            return ;
        }
        let mut i: usize = 0;
        assert(bytes@.take(0) =~= Seq::<u8>::empty());
        while i < bytes.len()
            invariant
                i <= bytes.len(),
                self.wf(),
                self@ == feed(old(self)@, bytes@.take(i as int)),
            decreases bytes.len() - i,
        {
            assert(bytes@.take(i + 1).drop_last() =~= bytes@.take(i as int));
            self.advance(bytes[i]);
            i += 1;
        }
        assert(bytes@.take(i as int) =~= bytes@);
        self.bus.wake();
    }

    /// Handles one message from the ordered channel and says what the owner
    /// of the session is to do next.
    pub fn handle(&mut self, m: Message) -> (d: Directive)
        requires
            old(self).wf(),
        ensures
            final(self).wf(),
            final(self)@ == handled(old(self)@, m),
            d == directive(old(self)@, m),
    {
        if self.closed {
            return Directive::Stop;
        }
        match m {
            Message::Output(bytes) => {
                self.feed(bytes.as_slice());
                Directive::Continue
            },
            Message::Resize { rows, cols } => {
                self.screen.resize(rows, cols);
                self.bus.wake();
                Directive::NotifySize {
                    rows: if rows == 0 { 1 } else { rows },
                    cols: if cols == 0 { 1 } else { cols },
                }
            },
            Message::Exited(code) => {
                self.bus.push(Event::ProcessExited(code));
                self.exited = Some(code);
                self.closed = true;
                Directive::Stop
            },
            Message::Close => {
                self.closed = true;
                Directive::Stop
            },
        }
    }

    /// Draws one frame of the screen and clears the damage.
    pub fn draw(&mut self, focused: bool) -> (frame: Frame)
        requires
            old(self).wf(),
        ensures
            final(self).wf(),
            is_frame(old(self)@.screen, focused, frame),
            final(self)@ == (TerminalView {
                screen: ScreenView { damage: Set::empty(), ..old(self)@.screen },
                ..old(self)@
            }),
    {
        draw(&mut self.screen, focused)
    }

    /// The bytes that an input event sends to the program under the
    /// screen's modes. The terminal is not changed: the caller hands the
    /// bytes to the session.
    pub fn input(&self, e: &InputEvent) -> (bytes: Vec<u8>)
        ensures
            bytes@ == input_bytes(*e, self@.screen.modes),
    {
        let modes = self.screen.modes();
        map_input(e, &modes)
    }

    /// Selects the cells between two buffer positions.
    pub fn select(&mut self, a: Point, b: Point, mode: SelectionMode)
        requires
            old(self).wf(),
        ensures
            final(self).wf(),
            final(self)@ == (TerminalView {
                screen: crate::model::select(old(self)@.screen, a, b, mode),
                ..old(self)@
            }),
    {
        self.screen.select(a, b, mode);
    }

    /// Selects the word at grid row `r`, column `c`.
    pub fn select_word(&mut self, r: usize, c: usize)
        requires
            old(self).wf(),
        ensures
            final(self).wf(),
            final(self)@ == (TerminalView {
                screen: crate::model::select_word(old(self)@.screen, r as int, c as int),
                ..old(self)@
            }),
    {
        self.screen.select_word(r, c);
    }

    /// The text that the selection holds.
    pub fn selected_text(&self) -> (text: Vec<char>)
        requires
            self.wf(),
        ensures
            text@ == crate::model::selected_text(self@.screen),
    {
        self.screen.selected_text()
    }

    /// Drops the selection.
    pub fn deselect(&mut self)
        requires
            old(self).wf(),
        ensures
            final(self).wf(),
            final(self)@ == (TerminalView {
                screen: crate::model::deselect(old(self)@.screen),
                ..old(self)@
            }),
    {
        self.screen.deselect();
    }

    /// Takes the oldest waiting event; `None` if none waits.
    pub fn poll_event(&mut self) -> (event: Option<Event>)
        requires
            old(self).wf(),
        ensures
            final(self).wf(),
            match event {
                Some(e) => old(self)@.events.len() > 0 && e@ == old(self)@.events[0] && final(self)@ == (TerminalView { events: old(self)@.events.skip(1), ..old(self)@ }),
                None => old(self)@.events.len() == 0 && final(self)@ == old(self)@,
            },
    {
        self.bus.pop()
    }

    /// Takes the bytes waiting to be sent to the program.
    pub fn take_output(&mut self) -> (bytes: Vec<u8>)
        requires
            old(self).wf(),
        ensures
            final(self).wf(),
            bytes@ == old(self)@.outbox,
            final(self)@ == (TerminalView { outbox: Seq::empty(), ..old(self)@ }),
    {
        let mut out: Vec<u8> = Vec::new();
        core::mem::swap(&mut out, &mut self.outbox);
        out
    }
}

} // verus!
