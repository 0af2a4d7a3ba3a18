//! The escape-sequence interpreter: a streaming state machine from bytes to
//! terminal actions.
//!
//! Each byte moves the machine to its next state and, where the byte
//! completes a recognised sequence, gives that sequence's action. What is
//! malformed or not recognised is consumed without an action, up to its
//! terminator, so that it cannot disturb what follows.

use vstd::prelude::*;
use crate::action::{Action, ActionView, Motion, action_view};
use crate::sequence::{
    MAX_PARAMS, MAX_PAYLOAD, SEMICOLON, csi_action, dispatch_csi, dispatch_osc, is_digit,
    osc_action,
};

verus! {

/// Bell.
pub const BEL: u8 = 0x07;
/// Backspace.
pub const BS: u8 = 0x08;
/// Horizontal tab.
pub const HT: u8 = 0x09;
/// Line feed.
pub const LF: u8 = 0x0A;
/// Vertical tab.
pub const VT: u8 = 0x0B;
/// Form feed.
pub const FF: u8 = 0x0C;
/// Carriage return.
pub const CR: u8 = 0x0D;
/// Cancel: aborts a sequence.
pub const CAN: u8 = 0x18;
/// Substitute: aborts a sequence.
pub const SUB: u8 = 0x1A;
/// Escape: starts a sequence.
pub const ESC: u8 = 0x1B;
/// Delete.
pub const DEL: u8 = 0x7F;
/// `\`, which after `ESC` terminates a string.
pub const BACKSLASH: u8 = 0x5C;
/// The private mode code of the application keypad.
pub const KEYPAD_MODE: u16 = 66;

/// The state of the machine.
#[derive(Clone, Copy, PartialEq, Eq, Structural, Debug)]
pub enum State {
    /// Outside any sequence.
    Ground,
    /// Inside a character of several bytes.
    Utf8,
    /// After `ESC`.
    Escape,
    /// After `ESC` and an intermediate byte.
    EscapeIntermediate,
    /// After `ESC [`.
    CsiEntry,
    /// Reading the parameters of a control sequence.
    CsiParam,
    /// After the intermediate byte of a control sequence.
    CsiIntermediate,
    /// Inside a malformed control sequence, waiting for its final byte.
    CsiIgnore,
    /// Reading the payload of an operating system command.
    OscString,
    /// After `ESC` inside an operating system command.
    OscEscape,
    /// Inside a device control or similar string, which is skipped.
    DcsString,
    /// After `ESC` inside a device control string.
    DcsEscape,
}

/// The mathematical value of an [`Interpreter`].
pub struct InterpreterView {
    pub state: State,
    /// The control sequence began with `?`.
    pub private: bool,
    /// The parameters read so far.
    pub params: Seq<u16>,
    /// The parameter being read.
    pub current: u16,
    /// The intermediate byte of the control sequence, 0 for none.
    pub intermediate: u8,
    /// The sequence holds more than the machine keeps: it will give no action.
    pub overflow: bool,
    /// The payload read so far.
    pub payload: Seq<u8>,
    /// The continuation bytes that the character being read still needs.
    pub need: u8,
    /// The bits of the character read so far.
    pub acc: u32,
    /// The least code point that may be written with as many bytes.
    pub floor: u32,
}

/// The machine in `state` with nothing pending.
pub open spec fn resting(state: State) -> InterpreterView {
    InterpreterView {
        state,
        private: false,
        params: Seq::empty(),
        current: 0,
        intermediate: 0,
        overflow: false,
        payload: Seq::empty(),
        need: 0,
        acc: 0,
        floor: 0,
    }
}

/// The machine outside any sequence.
pub open spec fn idle() -> InterpreterView {
    resting(State::Ground)
}

/// The machine after the first byte of a character of several bytes.
pub open spec fn reading_char(need: u8, acc: u32, floor: u32) -> InterpreterView {
    InterpreterView { need, acc, floor, ..resting(State::Utf8) }
}

/// Whether `v` is a Unicode scalar value: a code point that is no surrogate.
pub open spec fn is_scalar(v: u32) -> bool {
    v < 0xD800 || (0xE000 <= v <= 0x10FFFF)
}

/// The machine's invariant: the pending buffers are within their bounds.
pub open spec fn valid(p: InterpreterView) -> bool {
    &&& p.params.len() <= MAX_PARAMS
    &&& p.payload.len() <= MAX_PAYLOAD
    &&& p.state == State::Utf8 ==> {
        &&& 1 <= p.need <= 3
        &&& p.need == 3 ==> p.acc < 0x8
        &&& p.need == 2 ==> p.acc < 0x200
        &&& p.need == 1 ==> p.acc < 0x8000
    }
}

/// A byte read outside any sequence: `ESC` starts a sequence; bell,
/// backspace, tab, the line feeds and carriage return act; a printable
/// ASCII byte prints its character; the first byte of a character of
/// several bytes starts that character. Every other byte is passed over.
pub open spec fn ground_step(b: u8) -> (InterpreterView, Option<ActionView>) {
    if b == ESC {
        (resting(State::Escape), None)
    } else if b == BEL {
        (idle(), Some(ActionView::Bell))
    } else if b == BS {
        (idle(), Some(ActionView::CursorMove(Motion::Backspace)))
    } else if b == HT {
        (idle(), Some(ActionView::CursorMove(Motion::Tab(1))))
    } else if b == LF || b == VT || b == FF {
        (idle(), Some(ActionView::LineFeed))
    } else if b == CR {
        (idle(), Some(ActionView::CursorMove(Motion::CarriageReturn)))
    } else if 0x20 <= b <= 0x7E {
        (idle(), Some(ActionView::Print(b as char)))
    } else if 0xC2 <= b <= 0xDF {
        (reading_char(1, (b - 0xC0) as u32, 0x80), None)
    } else if 0xE0 <= b <= 0xEF {
        (reading_char(2, (b - 0xE0) as u32, 0x800), None)
    } else if 0xF0 <= b <= 0xF4 {
        (reading_char(3, (b - 0xF0) as u32, 0x10000), None)
    } else {
        (idle(), None)
    }
}

/// A byte read inside a character of several bytes. A continuation byte
/// adds six bits; the last one completes the character, which is printed if
/// it is a scalar value in its shortest form. Any other byte abandons the
/// character and is read as outside any sequence.
pub open spec fn utf8_step(p: InterpreterView, b: u8) -> (InterpreterView, Option<ActionView>) {
    if 0x80 <= b <= 0xBF {
        let acc = (p.acc * 64 + (b - 0x80)) as u32;
        if p.need <= 1 {
            (
                idle(),
                if acc >= p.floor && is_scalar(acc) {
                    Some(ActionView::Print(acc as char))
                } else {
                    None
                },
            )
        } else {
            (InterpreterView { need: (p.need - 1) as u8, acc, ..p }, None)
        }
    } else {
        ground_step(b)
    }
}

/// A byte read after `ESC`: `[` (0x5B) starts a control sequence, `]`
/// (0x5D) an operating system command, and `P`, `X`, `^` and `_` a string
/// that is skipped; `=` and `>` set and reset the application keypad; `D`
/// is a line feed and `E` goes to the next line. An intermediate byte
/// (0x20 to 0x2F) starts a sequence that is not recognised; `CAN` and `SUB`
/// abort; other control bytes are passed over. Any other byte ends the
/// sequence without an action.
pub open spec fn escape_step(b: u8) -> (InterpreterView, Option<ActionView>) {
    if b == 0x5B {
        (resting(State::CsiEntry), None)
    } else if b == 0x5D {
        (resting(State::OscString), None)
    } else if b == 0x50 || b == 0x58 || b == 0x5E || b == 0x5F {
        (resting(State::DcsString), None)
    } else if b == 0x3D {
        (idle(), Some(ActionView::SetMode { codes: seq![KEYPAD_MODE], enable: true }))
    } else if b == 0x3E {
        (idle(), Some(ActionView::SetMode { codes: seq![KEYPAD_MODE], enable: false }))
    } else if b == 0x44 {
        (idle(), Some(ActionView::LineFeed))
    } else if b == 0x45 {
        (idle(), Some(ActionView::CursorMove(Motion::NextLine(1))))
    } else if b == ESC {
        (resting(State::Escape), None)
    } else if b == CAN || b == SUB {
        (idle(), None)
    } else if 0x20 <= b <= 0x2F {
        (resting(State::EscapeIntermediate), None)
    } else if b < 0x20 || b == DEL {
        (resting(State::Escape), None)
    } else {
        (idle(), None)
    }
}

/// A byte read after `ESC` and an intermediate byte: the sequence is not a
/// recognised one and ends with its final byte.
pub open spec fn escape_intermediate_step(b: u8) -> (InterpreterView, Option<ActionView>) {
    if b == ESC {
        (resting(State::Escape), None)
    } else if b == CAN || b == SUB {
        (idle(), None)
    } else if b <= 0x2F || b == DEL {
        (resting(State::EscapeIntermediate), None)
    } else {
        (idle(), None)
    }
}

/// What a control byte does inside a control sequence: `ESC` starts anew,
/// `CAN` and `SUB` abort, the others are passed over. `None` for a byte that
/// is no control byte.
pub open spec fn csi_control(p: InterpreterView, b: u8) -> Option<InterpreterView> {
    if b == ESC {
        Some(resting(State::Escape))
    } else if b == CAN || b == SUB {
        Some(idle())
    } else if b < 0x20 || b == DEL {
        Some(p)
    } else {
        None
    }
}

/// The parameter `current` with the digit `b` appended, at most 65535.
pub open spec fn accumulate(current: u16, b: u8) -> u16 {
    let v = current * 10 + (b - 0x30);
    if v > 0xFFFF { 0xFFFFu16 } else { v as u16 }
}

/// The machine after the parameter being read has ended: it joins the
/// parameters, or the sequence overflows if they are full.
pub open spec fn with_param(p: InterpreterView) -> InterpreterView {
    if p.params.len() < MAX_PARAMS {
        InterpreterView { params: p.params.push(p.current), current: 0, ..p }
    } else {
        InterpreterView { overflow: true, current: 0, ..p }
    }
}

/// The action of the completed control sequence pending in `p`.
pub open spec fn csi_result(p: InterpreterView, fin: u8) -> Option<ActionView> {
    if p.overflow {
        None
    } else {
        csi_action(p.private, p.intermediate, p.params, fin)
    }
}

/// A byte read right after `ESC [`: a digit or `;` starts the parameters,
/// `?` (0x3F) marks the sequence as private, an intermediate byte (0x20 to
/// 0x2F) or a final byte (0x40 to 0x7E) may follow at once. Any other byte
/// makes the sequence malformed.
pub open spec fn csi_entry_step(p: InterpreterView, b: u8) -> (InterpreterView, Option<ActionView>) {
    if let Some(q) = csi_control(p, b) {
        (q, None)
    } else if is_digit(b) {
        (InterpreterView { state: State::CsiParam, current: (b - 0x30) as u16, ..p }, None)
    } else if b == SEMICOLON {
        (InterpreterView { state: State::CsiParam, ..with_param(p) }, None)
    } else if b == 0x3F {
        (InterpreterView { state: State::CsiParam, private: true, ..p }, None)
    } else if 0x20 <= b <= 0x2F {
        (InterpreterView { state: State::CsiIntermediate, intermediate: b, ..p }, None)
    } else if 0x40 <= b <= 0x7E {
        (idle(), csi_result(p, b))
    } else {
        (InterpreterView { state: State::CsiIgnore, ..p }, None)
    }
}

/// A byte read among the parameters of a control sequence: a digit joins
/// the parameter being read, `;` ends it, an intermediate byte ends the
/// parameters, and a final byte completes the sequence. Any other byte
/// makes the sequence malformed.
pub open spec fn csi_param_step(p: InterpreterView, b: u8) -> (InterpreterView, Option<ActionView>) {
    if let Some(q) = csi_control(p, b) {
        (q, None)
    } else if is_digit(b) {
        (InterpreterView { current: accumulate(p.current, b), ..p }, None)
    } else if b == SEMICOLON {
        (with_param(p), None)
    } else if 0x20 <= b <= 0x2F {
        (InterpreterView { state: State::CsiIntermediate, intermediate: b, ..with_param(p) }, None)
    } else if 0x40 <= b <= 0x7E {
        (idle(), csi_result(with_param(p), b))
    } else {
        (InterpreterView { state: State::CsiIgnore, ..p }, None)
    }
}

/// A byte read after the intermediate byte of a control sequence: a final
/// byte completes the sequence; any other byte makes it malformed.
pub open spec fn csi_intermediate_step(p: InterpreterView, b: u8) -> (
    InterpreterView,
    Option<ActionView>,
) {
    if let Some(q) = csi_control(p, b) {
        (q, None)
    } else if 0x40 <= b <= 0x7E {
        (idle(), csi_result(p, b))
    } else {
        (InterpreterView { state: State::CsiIgnore, ..p }, None)
    }
}

/// A byte read inside a malformed control sequence: the sequence ends,
/// without an action, with its final byte.
pub open spec fn csi_ignore_step(p: InterpreterView, b: u8) -> (InterpreterView, Option<ActionView>) {
    if let Some(q) = csi_control(p, b) {
        (q, None)
    } else if 0x40 <= b <= 0x7E {
        (idle(), None)
    } else {
        (p, None)
    }
}

/// The action of the completed operating system command pending in `p`.
pub open spec fn osc_result(p: InterpreterView) -> Option<ActionView> {
    if p.overflow {
        None
    } else {
        osc_action(p.payload)
    }
}

/// A byte read inside an operating system command. `BEL` terminates it;
/// other control bytes are passed over.
pub open spec fn osc_step(p: InterpreterView, b: u8) -> (InterpreterView, Option<ActionView>) {
    if b == BEL {
        (idle(), osc_result(p))
    } else if b == ESC {
        (InterpreterView { state: State::OscEscape, ..p }, None)
    } else if b == CAN || b == SUB {
        (idle(), None)
    } else if b < 0x20 || b == DEL {
        (p, None)
    } else if p.payload.len() < MAX_PAYLOAD {
        (InterpreterView { payload: p.payload.push(b), ..p }, None)
    } else {
        (InterpreterView { overflow: true, ..p }, None)
    }
}

/// A byte read after `ESC` inside an operating system command: `\`
/// terminates the command; anything else abandons it and is read as after
/// `ESC`.
pub open spec fn osc_escape_step(p: InterpreterView, b: u8) -> (InterpreterView, Option<ActionView>) {
    if b == BACKSLASH {
        (idle(), osc_result(p))
    } else {
        escape_step(b)
    }
}

/// A byte read inside a skipped string: only `ESC \` ends it, or `CAN` or
/// `SUB`.
pub open spec fn dcs_step(p: InterpreterView, b: u8) -> (InterpreterView, Option<ActionView>) {
    if b == ESC {
        (InterpreterView { state: State::DcsEscape, ..p }, None)
    } else if b == CAN || b == SUB {
        (idle(), None)
    } else {
        (p, None)
    }
}

/// A byte read after `ESC` inside a skipped string.
pub open spec fn dcs_escape_step(b: u8) -> (InterpreterView, Option<ActionView>) {
    if b == BACKSLASH {
        (idle(), None)
    } else {
        escape_step(b)
    }
}

/// The machine's transition: the state after byte `b` and the action that
/// `b` completes, if any.
pub open spec fn step(p: InterpreterView, b: u8) -> (InterpreterView, Option<ActionView>) {
    match p.state {
        State::Ground => ground_step(b),
        State::Utf8 => utf8_step(p, b),
        State::Escape => escape_step(b),
        State::EscapeIntermediate => escape_intermediate_step(b),
        State::CsiEntry => csi_entry_step(p, b),
        State::CsiParam => csi_param_step(p, b),
        State::CsiIntermediate => csi_intermediate_step(p, b),
        State::CsiIgnore => csi_ignore_step(p, b),
        State::OscString => osc_step(p, b),
        State::OscEscape => osc_escape_step(p, b),
        State::DcsString => dcs_step(p, b),
        State::DcsEscape => dcs_escape_step(b),
    }
}

/// The machine's invariant holds after every byte.
pub proof fn lemma_step_valid(p: InterpreterView, b: u8)
    requires
        valid(p),
    ensures
        valid(step(p, b).0),
{
}

/// `char::from_u32` of the standard library: the character with code point
/// `v` where `v` is a scalar value, `None` where it is not.
pub assume_specification[ char::from_u32 ](v: u32) -> (c: Option<char>)
    ensures
        c == (if is_scalar(v) { Some(v as char) } else { None::<char> }),
;

/// The interpreter. Its view is the state of the machine.
pub struct Interpreter {
    state: State,
    private: bool,
    params: Vec<u16>,
    current: u16,
    intermediate: u8,
    overflow: bool,
    payload: Vec<u8>,
    need: u8,
    acc: u32,
    floor: u32,
}

impl View for Interpreter {
    type V = InterpreterView;

    closed spec fn view(&self) -> InterpreterView {
        InterpreterView {
            state: self.state,
            private: self.private,
            params: self.params@,
            current: self.current,
            intermediate: self.intermediate,
            overflow: self.overflow,
            payload: self.payload@,
            need: self.need,
            acc: self.acc,
            floor: self.floor,
        }
    }
}

impl Interpreter {
    /// The interpreter's invariant.
    pub open spec fn wf(&self) -> bool {
        valid(self@)
    }

    /// An interpreter outside any sequence.
    pub fn new() -> (i: Interpreter)
        ensures
            i.wf(),
            i@ == idle(),
    {
        Interpreter {
            state: State::Ground,
            private: false,
            params: Vec::new(),
            current: 0,
            intermediate: 0,
            overflow: false,
            payload: Vec::new(),
            need: 0,
            acc: 0,
            floor: 0,
        }
    }

    /// The state of the machine.
    pub fn state(&self) -> (s: State)
        ensures
            s == self@.state,
    {
        self.state
    }

    fn rest(&mut self, state: State)
        ensures
            final(self)@ == resting(state),
    {
        self.state = state;
        self.private = false;
        self.params.clear();
        self.current = 0;
        self.intermediate = 0;
        self.overflow = false;
        self.payload.clear();
        self.need = 0;
        self.acc = 0;
        self.floor = 0;
    }

    fn read_char(&mut self, need: u8, acc: u32, floor: u32)
        ensures
            final(self)@ == reading_char(need, acc, floor),
    {
        self.rest(State::Utf8);
        self.need = need;
        self.acc = acc;
        self.floor = floor;
    }

    fn end_param(&mut self)
        requires
            old(self).wf(),
        ensures
            final(self)@ == with_param(old(self)@),
            final(self).wf(),
    {
        if self.params.len() < MAX_PARAMS {
            self.params.push(self.current);
        } else {
            self.overflow = true;
        }
        self.current = 0;
    }

    fn finish_csi(&mut self, fin: u8) -> (a: Option<Action>)
        ensures
            final(self)@ == idle(),
            action_view(a) == csi_result(old(self)@, fin),
    {
        let mut params: Vec<u16> = Vec::new();
        core::mem::swap(&mut params, &mut self.params);
        let a = if self.overflow {
            None
        } else {
            dispatch_csi(self.private, self.intermediate, params, fin)
        };
        self.rest(State::Ground);
        a
    }

    fn finish_osc(&mut self) -> (a: Option<Action>)
        ensures
            final(self)@ == idle(),
            action_view(a) == osc_result(old(self)@),
    {
        let a = if self.overflow {
            None
        } else {
            dispatch_osc(&self.payload)
        };
        self.rest(State::Ground);
        a
    }

    fn ground(&mut self, b: u8) -> (a: Option<Action>)
        ensures
            final(self)@ == ground_step(b).0,
            action_view(a) == ground_step(b).1,
    {
        if b == ESC {
            self.rest(State::Escape);
            None
        } else if 0xC2 <= b && b <= 0xDF {
            self.read_char(1, (b - 0xC0) as u32, 0x80);
            None
        } else if 0xE0 <= b && b <= 0xEF {
            self.read_char(2, (b - 0xE0) as u32, 0x800);
            None
        } else if 0xF0 <= b && b <= 0xF4 {
            self.read_char(3, (b - 0xF0) as u32, 0x10000);
            None
        } else {
            self.rest(State::Ground);
            if b == BEL {
                Some(Action::Bell)
            } else if b == BS {
                Some(Action::CursorMove(Motion::Backspace))
            } else if b == HT {
                Some(Action::CursorMove(Motion::Tab(1)))
            } else if b == LF || b == VT || b == FF {
                Some(Action::LineFeed)
            } else if b == CR {
                Some(Action::CursorMove(Motion::CarriageReturn))
            } else if 0x20 <= b && b <= 0x7E {
                Some(Action::Print(b as char))
            } else {
                None
            }
        }
    }

    fn utf8(&mut self, b: u8) -> (a: Option<Action>)
        requires
            old(self).wf(),
            old(self)@.state == State::Utf8,
        ensures
            final(self)@ == utf8_step(old(self)@, b).0,
            action_view(a) == utf8_step(old(self)@, b).1,
    {
        if 0x80 <= b && b <= 0xBF {
            let acc: u32 = self.acc * 64 + (b - 0x80) as u32;
            if self.need <= 1 {
                let floor = self.floor;
                self.rest(State::Ground);
                if acc >= floor {
                    match char::from_u32(acc) {
                        Some(c) => Some(Action::Print(c)),
                        None => None,
                    }
                } else {
                    None
                }
            } else {
                self.need = self.need - 1;
                self.acc = acc;
                None
            }
        } else {
            self.ground(b)
        }
    }

    fn escape(&mut self, b: u8) -> (a: Option<Action>)
        ensures
            final(self)@ == escape_step(b).0,
            action_view(a) == escape_step(b).1,
    {
        if b == 0x5B {
            self.rest(State::CsiEntry);
            None
        } else if b == 0x5D {
            self.rest(State::OscString);
            None
        } else if b == 0x50 || b == 0x58 || b == 0x5E || b == 0x5F {
            self.rest(State::DcsString);
            None
        } else if b == 0x3D || b == 0x3E {
            self.rest(State::Ground);
            let mut codes: Vec<u16> = Vec::new();
            codes.push(KEYPAD_MODE);
            assert(codes@ =~= seq![KEYPAD_MODE]);
            Some(Action::SetMode { codes, enable: b == 0x3D })
        } else if b == 0x44 {
            self.rest(State::Ground);
            Some(Action::LineFeed)
        } else if b == 0x45 {
            self.rest(State::Ground);
            Some(Action::CursorMove(Motion::NextLine(1)))
        } else if b == ESC {
            self.rest(State::Escape);
            None
        } else if b == CAN || b == SUB {
            self.rest(State::Ground);
            None
        } else if 0x20 <= b && b <= 0x2F {
            self.rest(State::EscapeIntermediate);
            None
        } else if b < 0x20 || b == DEL {
            self.rest(State::Escape);
            None
        } else {
            self.rest(State::Ground);
            None
        }
    }

    fn escape_intermediate(&mut self, b: u8)
        ensures
            final(self)@ == escape_intermediate_step(b).0,
    {
        if b == ESC {
            self.rest(State::Escape);
        } else if b == CAN || b == SUB {
            self.rest(State::Ground);
        } else if b <= 0x2F || b == DEL {
            self.rest(State::EscapeIntermediate);
        } else {
            self.rest(State::Ground);
        }
    }

    /// Handles a control byte inside a control sequence; `false` if `b` is none.
    fn control(&mut self, b: u8) -> (done: bool)
        ensures
            done == csi_control(old(self)@, b).is_some(),
            done ==> final(self)@ == csi_control(old(self)@, b).unwrap(),
            !done ==> final(self)@ == old(self)@,
    {
        if b == ESC {
            self.rest(State::Escape);
            true
        } else if b == CAN || b == SUB {
            self.rest(State::Ground);
            true
        } else {
            b < 0x20 || b == DEL
        }
    }

    fn csi_entry(&mut self, b: u8) -> (a: Option<Action>)
        requires
            old(self).wf(),
        ensures
            final(self).wf(),
            final(self)@ == csi_entry_step(old(self)@, b).0,
            action_view(a) == csi_entry_step(old(self)@, b).1,
    {
        if self.control(b) {
            None
        } else if 0x30 <= b && b <= 0x39 {
            self.state = State::CsiParam;
            self.current = (b - 0x30) as u16;
            None
        } else if b == SEMICOLON {
            self.end_param();
            self.state = State::CsiParam;
            None
        } else if b == 0x3F {
            self.state = State::CsiParam;
            self.private = true;
            None
        } else if 0x20 <= b && b <= 0x2F {
            self.state = State::CsiIntermediate;
            self.intermediate = b;
            None
        } else if 0x40 <= b && b <= 0x7E {
            self.finish_csi(b)
        } else {
            self.state = State::CsiIgnore;
            None
        }
    }

    fn csi_param(&mut self, b: u8) -> (a: Option<Action>)
        requires
            old(self).wf(),
        ensures
            final(self).wf(),
            final(self)@ == csi_param_step(old(self)@, b).0,
            action_view(a) == csi_param_step(old(self)@, b).1,
    {
        if self.control(b) {
            None
        } else if 0x30 <= b && b <= 0x39 {
            let v: u32 = self.current as u32 * 10 + (b - 0x30) as u32;
            self.current = if v > 0xFFFF { 0xFFFF } else { v as u16 };
            None
        } else if b == SEMICOLON {
            self.end_param();
            None
        } else if 0x20 <= b && b <= 0x2F {
            self.end_param();
            self.state = State::CsiIntermediate;
            self.intermediate = b;
            None
        } else if 0x40 <= b && b <= 0x7E {
            self.end_param();
            self.finish_csi(b)
        } else {
            self.state = State::CsiIgnore;
            None
        }
    }

    fn csi_intermediate(&mut self, b: u8) -> (a: Option<Action>)
        requires
            old(self).wf(),
        ensures
            final(self).wf(),
            final(self)@ == csi_intermediate_step(old(self)@, b).0,
            action_view(a) == csi_intermediate_step(old(self)@, b).1,
    {
        if self.control(b) {
            None
        } else if 0x40 <= b && b <= 0x7E {
            self.finish_csi(b)
        } else {
            self.state = State::CsiIgnore;
            None
        }
    }

    fn csi_ignore(&mut self, b: u8)
        requires
            old(self).wf(),
        ensures
            final(self).wf(),
            final(self)@ == csi_ignore_step(old(self)@, b).0,
    {
        if self.control(b) {
        } else if 0x40 <= b && b <= 0x7E {
            self.rest(State::Ground);
        }
    }

    fn osc(&mut self, b: u8) -> (a: Option<Action>)
        requires
            old(self).wf(),
        ensures
            final(self).wf(),
            final(self)@ == osc_step(old(self)@, b).0,
            action_view(a) == osc_step(old(self)@, b).1,
    {
        if b == BEL {
            self.finish_osc()
        } else if b == ESC {
            self.state = State::OscEscape;
            None
        } else if b == CAN || b == SUB {
            self.rest(State::Ground);
            None
        } else if b < 0x20 || b == DEL {
            None
        } else if self.payload.len() < MAX_PAYLOAD {
            self.payload.push(b);
            None
        } else {
            self.overflow = true;
            None
        }
    }

    fn osc_escape(&mut self, b: u8) -> (a: Option<Action>)
        ensures
            final(self)@ == osc_escape_step(old(self)@, b).0,
            action_view(a) == osc_escape_step(old(self)@, b).1,
    {
        if b == BACKSLASH {
            self.finish_osc()
        } else {
            self.escape(b)
        }
    }

    fn dcs(&mut self, b: u8)
        requires
            old(self).wf(),
        ensures
            final(self).wf(),
            final(self)@ == dcs_step(old(self)@, b).0,
    {
        if b == ESC {
            self.state = State::DcsEscape;
        } else if b == CAN || b == SUB {
            self.rest(State::Ground);
        }
    }

    fn dcs_escape(&mut self, b: u8) -> (a: Option<Action>)
        ensures
            final(self)@ == dcs_escape_step(b).0,
            action_view(a) == dcs_escape_step(b).1,
    {
        if b == BACKSLASH {
            self.rest(State::Ground);
            None
        } else {
            self.escape(b)
        }
    }

    /// Takes in one byte: moves the machine by `step` and returns the action
    /// that the byte completes, if any. No byte makes it fail.
    pub fn advance(&mut self, b: u8) -> (a: Option<Action>)
        requires
            old(self).wf(),
        ensures
            final(self).wf(),
            final(self)@ == step(old(self)@, b).0,
            action_view(a) == step(old(self)@, b).1,
    {
        proof {
            lemma_step_valid(self@, b);
        }
        match self.state {
            State::Ground => self.ground(b),
            State::Utf8 => self.utf8(b),
            State::Escape => self.escape(b),
            State::EscapeIntermediate => {
                self.escape_intermediate(b);
                None
            },
            State::CsiEntry => self.csi_entry(b),
            State::CsiParam => self.csi_param(b),
            State::CsiIntermediate => self.csi_intermediate(b),
            State::CsiIgnore => {
                self.csi_ignore(b);
                None
            },
            State::OscString => self.osc(b),
            State::OscEscape => self.osc_escape(b),
            State::DcsString => {
                self.dcs(b);
                None
            },
            State::DcsEscape => self.dcs_escape(b),
        }
    }
}

} // verus!
