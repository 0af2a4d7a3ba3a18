//! What a completed control sequence means: from its parameters and final
//! byte, or from its string payload, to the action it stands for.

use vstd::prelude::*;
use crate::action::{Action, ActionView, DisplayErase, LineErase, Motion, Report, action_view};
use crate::base64::{decode, decoded, is_base64};
use crate::modes::CursorShape;

verus! {

/// The largest number of parameters that a control sequence may carry.
pub const MAX_PARAMS: usize = 16;

/// The largest number of payload bytes that a string sequence may carry.
pub const MAX_PAYLOAD: usize = 4096;

// Final bytes of control sequences, by their standard mnemonics.
/// `A`: cursor up.
pub const CUU: u8 = 0x41;
/// `B`: cursor down.
pub const CUD: u8 = 0x42;
/// `C`: cursor forward.
pub const CUF: u8 = 0x43;
/// `D`: cursor back.
pub const CUB: u8 = 0x44;
/// `E`: cursor to next line.
pub const CNL: u8 = 0x45;
/// `F`: cursor to previous line.
pub const CPL: u8 = 0x46;
/// `G`: cursor to column.
pub const CHA: u8 = 0x47;
/// `H`: cursor to position.
pub const CUP: u8 = 0x48;
/// `I`: cursor forward by tab stops.
pub const CHT: u8 = 0x49;
/// `J`: erase in display.
pub const ED: u8 = 0x4A;
/// `K`: erase in line.
pub const EL: u8 = 0x4B;
/// `Z`: cursor back by tab stops.
pub const CBT: u8 = 0x5A;
/// `` ` ``: cursor to column.
pub const HPA: u8 = 0x60;
/// `a`: cursor forward.
pub const HPR: u8 = 0x61;
/// `c`: device attributes.
pub const DA: u8 = 0x63;
/// `d`: cursor to row.
pub const VPA: u8 = 0x64;
/// `e`: cursor down.
pub const VPR: u8 = 0x65;
/// `f`: cursor to position.
pub const HVP: u8 = 0x66;
/// `h`: set mode.
pub const SM: u8 = 0x68;
/// `l`: reset mode.
pub const RM: u8 = 0x6C;
/// `m`: select graphic rendition.
pub const SGR: u8 = 0x6D;
/// `n`: device status report.
pub const DSR: u8 = 0x6E;
/// `q` after a space: set cursor style.
pub const DECSCUSR: u8 = 0x71;

/// `;`, which parts parameters and fields.
pub const SEMICOLON: u8 = 0x3B;
/// `:`.
pub const COLON: u8 = 0x3A;
/// `#`.
pub const HASH: u8 = 0x23;
/// `/`.
pub const SLASH: u8 = 0x2F;

/// The `i`-th parameter; a missing parameter is 0.
pub open spec fn arg(params: Seq<u16>, i: int) -> u16 {
    if 0 <= i < params.len() { params[i] } else { 0 }
}

/// A parameter read as a count: 0 stands for 1.
pub open spec fn count_of(v: u16) -> u16 {
    if v == 0 { 1 } else { v }
}

/// A parameter read as a row or column, which the sequence counts from 1:
/// the same counted from 0.
pub open spec fn index_of(v: u16) -> u16 {
    if v == 0 { 0 } else { (v - 1) as u16 }
}

/// Whether a private mode code switches to the alternate screen.
pub open spec fn is_alt_screen_code(c: u16) -> bool {
    c == 47 || c == 1047 || c == 1049
}

/// The action of a control sequence without a marker or an intermediate byte.
pub open spec fn plain_csi(params: Seq<u16>, fin: u8) -> Option<ActionView> {
    let p0 = arg(params, 0);
    let n = count_of(p0);
    if fin == CUU {
        Some(ActionView::CursorMove(Motion::Up(n)))
    } else if fin == CUD || fin == VPR {
        Some(ActionView::CursorMove(Motion::Down(n)))
    } else if fin == CUF || fin == HPR {
        Some(ActionView::CursorMove(Motion::Forward(n)))
    } else if fin == CUB {
        Some(ActionView::CursorMove(Motion::Back(n)))
    } else if fin == CNL {
        Some(ActionView::CursorMove(Motion::NextLine(n)))
    } else if fin == CPL {
        Some(ActionView::CursorMove(Motion::PrevLine(n)))
    } else if fin == CHA || fin == HPA {
        Some(ActionView::CursorMove(Motion::Column(index_of(p0))))
    } else if fin == VPA {
        Some(ActionView::CursorMove(Motion::Row(index_of(p0))))
    } else if fin == CUP || fin == HVP {
        Some(
            ActionView::CursorMove(
                Motion::Position { row: index_of(p0), col: index_of(arg(params, 1)) },
            ),
        )
    } else if fin == CHT {
        Some(ActionView::CursorMove(Motion::Tab(n)))
    } else if fin == CBT {
        Some(ActionView::CursorMove(Motion::BackTab(n)))
    } else if fin == ED {
        if p0 == 0 {
            Some(ActionView::EraseInDisplay(DisplayErase::Below))
        } else if p0 == 1 {
            Some(ActionView::EraseInDisplay(DisplayErase::Above))
        } else if p0 == 2 {
            Some(ActionView::EraseInDisplay(DisplayErase::All))
        } else if p0 == 3 {
            Some(ActionView::EraseInDisplay(DisplayErase::History))
        } else {
            None
        }
    } else if fin == EL {
        if p0 == 0 {
            Some(ActionView::EraseInLine(LineErase::ToEnd))
        } else if p0 == 1 {
            Some(ActionView::EraseInLine(LineErase::ToStart))
        } else if p0 == 2 {
            Some(ActionView::EraseInLine(LineErase::All))
        } else {
            None
        }
    } else if fin == SGR {
        Some(ActionView::SetSgr(params))
    } else if fin == DSR {
        if p0 == 5 {
            Some(ActionView::RequestReport(Report::Status))
        } else if p0 == 6 {
            Some(ActionView::RequestReport(Report::CursorPosition))
        } else {
            None
        }
    } else if fin == DA {
        if p0 == 0 {
            Some(ActionView::RequestReport(Report::DeviceAttributes))
        } else {
            None
        }
    } else {
        None
    }
}

/// The action of a control sequence with the private marker `?`.
pub open spec fn private_csi(params: Seq<u16>, fin: u8) -> Option<ActionView> {
    if fin == SM || fin == RM {
        let enable = fin == SM;
        if params.len() == 1 && is_alt_screen_code(params[0]) {
            Some(ActionView::SwitchAlternateScreen(enable))
        } else {
            Some(ActionView::SetMode { codes: params, enable })
        }
    } else {
        None
    }
}

/// The action of a control sequence with a space before its final byte.
pub open spec fn spaced_csi(params: Seq<u16>, fin: u8) -> Option<ActionView> {
    let p0 = arg(params, 0);
    if fin != DECSCUSR || p0 > 6 {
        None
    } else {
        let shape = if p0 <= 2 {
            CursorShape::Block
        } else if p0 <= 4 {
            CursorShape::Underline
        } else {
            CursorShape::Bar
        };
        Some(ActionView::SetCursorStyle { shape, blink: p0 == 0 || p0 % 2 == 1 })
    }
}

/// The action of a control sequence, if it is a recognised one: `private`
/// says whether it began with `?`, `intermediate` is the byte before the
/// final one (0 for none), `fin` the final byte.
pub open spec fn csi_action(private: bool, intermediate: u8, params: Seq<u16>, fin: u8) -> Option<
    ActionView,
> {
    if intermediate == 0 {
        if private {
            private_csi(params, fin)
        } else {
            plain_csi(params, fin)
        }
    } else if intermediate == 0x20 && !private {
        spaced_csi(params, fin)
    } else {
        None
    }
}

/// Whether `b` is a decimal digit.
pub open spec fn is_digit(b: u8) -> bool {
    0x30 <= b <= 0x39
}

/// Whether all of `s` are decimal digits.
pub open spec fn all_digits(s: Seq<u8>) -> bool {
    forall|i: int| 0 <= i < s.len() ==> is_digit(#[trigger] s[i])
}

/// The number that the decimal digits `s` write.
pub open spec fn digits_value(s: Seq<u8>) -> nat
    decreases s.len(),
{
    if s.len() == 0 {
        0
    } else {
        (digits_value(s.drop_last()) * 10 + (s.last() - 0x30)) as nat
    }
}

/// The number in a field of a string sequence: one to five decimal digits.
pub open spec fn number_field(s: Seq<u8>) -> Option<nat> {
    if 1 <= s.len() <= 5 && all_digits(s) {
        Some(digits_value(s))
    } else {
        None
    }
}

/// The index of the first `b` in `s` at or after `from`; `s.len()` if there is none.
pub open spec fn find_from(s: Seq<u8>, b: u8, from: int) -> int
    decreases s.len() - from,
{
    if from >= s.len() {
        s.len() as int
    } else if s[from] == b {
        from
    } else {
        find_from(s, b, from + 1)
    }
}

/// Whether `b` is a hexadecimal digit.
pub open spec fn is_hex(b: u8) -> bool {
    is_digit(b) || (0x61 <= b <= 0x66) || (0x41 <= b <= 0x46)
}

/// The value of the hexadecimal digit `b`.
pub open spec fn hex_value(b: u8) -> int {
    if is_digit(b) {
        b - 0x30
    } else if 0x61 <= b <= 0x66 {
        b - 0x61 + 10
    } else {
        b - 0x41 + 10
    }
}

/// The byte that the two hexadecimal digits at `s[i]` and `s[i + 1]` write.
pub open spec fn hex_pair(s: Seq<u8>, i: int) -> u8 {
    (hex_value(s[i]) * 16 + hex_value(s[i + 1])) as u8
}

/// Whether `s[i]` and `s[i + 1]` are hexadecimal digits.
pub open spec fn is_hex_pair(s: Seq<u8>, i: int) -> bool {
    is_hex(s[i]) && is_hex(s[i + 1])
}

/// The colour that `s` names: `#RRGGBB` or `rgb:RR/GG/BB`, in hexadecimal.
pub open spec fn color_spec(s: Seq<u8>) -> Option<(u8, u8, u8)> {
    if s.len() == 7 && s[0] == HASH && is_hex_pair(s, 1) && is_hex_pair(s, 3) && is_hex_pair(
        s,
        5,
    ) {
        Some((hex_pair(s, 1), hex_pair(s, 3), hex_pair(s, 5)))
    } else if s.len() == 12 && s[0] == 0x72 && s[1] == 0x67 && s[2] == 0x62 && s[3] == COLON
        && s[6] == SLASH && s[9] == SLASH && is_hex_pair(s, 4) && is_hex_pair(s, 7) && is_hex_pair(
        s,
        10,
    ) {
        Some((hex_pair(s, 4), hex_pair(s, 7), hex_pair(s, 10)))
    } else {
        None
    }
}

/// The action of a palette string `index;colour`.
pub open spec fn palette_action(s: Seq<u8>) -> Option<ActionView> {
    let k = find_from(s, SEMICOLON, 0);
    if k >= s.len() {
        None
    } else {
        match (number_field(s.take(k)), color_spec(s.skip(k + 1))) {
            (Some(index), Some(rgb)) => if index <= 255 {
                Some(
                    ActionView::SetPaletteColor {
                        index: index as u8,
                        r: rgb.0,
                        g: rgb.1,
                        b: rgb.2,
                    },
                )
            } else {
                None
            },
            _ => None,
        }
    }
}

/// The action of a hyperlink string `params;target`: an empty target ends
/// the link.
pub open spec fn hyperlink_action(s: Seq<u8>) -> Option<ActionView> {
    let k = find_from(s, SEMICOLON, 0);
    if k >= s.len() {
        None
    } else if k + 1 == s.len() {
        Some(ActionView::SetHyperlink(None))
    } else {
        Some(ActionView::SetHyperlink(Some(s.skip(k + 1))))
    }
}

/// The action of a clipboard string `selection;data`: the data is base64
/// text, and what it writes goes to the clipboard. Data that is not base64
/// text, such as the `?` that asks for the clipboard, gives no action.
pub open spec fn clipboard_action(s: Seq<u8>) -> Option<ActionView> {
    let k = find_from(s, SEMICOLON, 0);
    if k >= s.len() || !is_base64(s.skip(k + 1)) {
        None
    } else {
        Some(ActionView::WriteClipboard(decoded(s.skip(k + 1))))
    }
}

/// The action of a string sequence with this payload, if it is a recognised
/// one: `0;text` and `2;text` set the title, `4;index;colour` sets a palette
/// colour, `8;params;target` sets the hyperlink, `52;selection;data` writes
/// the clipboard.
pub open spec fn osc_action(payload: Seq<u8>) -> Option<ActionView> {
    let k = find_from(payload, SEMICOLON, 0);
    if k >= payload.len() {
        None
    } else {
        let rest = payload.skip(k + 1);
        match number_field(payload.take(k)) {
            Some(code) => if code == 0 || code == 2 {
                Some(ActionView::SetTitle(rest))
            } else if code == 4 {
                palette_action(rest)
            } else if code == 8 {
                hyperlink_action(rest)
            } else if code == 52 {
                clipboard_action(rest)
            } else {
                None
            },
            None => None,
        }
    }
}

fn param(params: &Vec<u16>, i: usize) -> (v: u16)
    ensures
        v == arg(params@, i as int),
{
    if i < params.len() { params[i] } else { 0 }
}

fn count(v: u16) -> (n: u16)
    ensures
        n == count_of(v),
{
    if v == 0 { 1 } else { v }
}

fn index(v: u16) -> (n: u16)
    ensures
        n == index_of(v),
{
    if v == 0 { 0 } else { v - 1 }
}

fn dispatch_plain(params: Vec<u16>, fin: u8) -> (a: Option<Action>)
    ensures
        action_view(a) == plain_csi(params@, fin),
{
    let p0 = param(&params, 0);
    let n = count(p0);
    if fin == CUU {
        Some(Action::CursorMove(Motion::Up(n)))
    } else if fin == CUD || fin == VPR {
        Some(Action::CursorMove(Motion::Down(n)))
    } else if fin == CUF || fin == HPR {
        Some(Action::CursorMove(Motion::Forward(n)))
    } else if fin == CUB {
        Some(Action::CursorMove(Motion::Back(n)))
    } else if fin == CNL {
        Some(Action::CursorMove(Motion::NextLine(n)))
    } else if fin == CPL {
        Some(Action::CursorMove(Motion::PrevLine(n)))
    } else if fin == CHA || fin == HPA {
        Some(Action::CursorMove(Motion::Column(index(p0))))
    } else if fin == VPA {
        Some(Action::CursorMove(Motion::Row(index(p0))))
    } else if fin == CUP || fin == HVP {
        let col = index(param(&params, 1));
        Some(Action::CursorMove(Motion::Position { row: index(p0), col }))
    } else if fin == CHT {
        Some(Action::CursorMove(Motion::Tab(n)))
    } else if fin == CBT {
        Some(Action::CursorMove(Motion::BackTab(n)))
    } else if fin == ED {
        match p0 {
            0 => Some(Action::EraseInDisplay(DisplayErase::Below)),
            1 => Some(Action::EraseInDisplay(DisplayErase::Above)),
            2 => Some(Action::EraseInDisplay(DisplayErase::All)),
            3 => Some(Action::EraseInDisplay(DisplayErase::History)),
            _ => None,
        }
    } else if fin == EL {
        match p0 {
            0 => Some(Action::EraseInLine(LineErase::ToEnd)),
            1 => Some(Action::EraseInLine(LineErase::ToStart)),
            2 => Some(Action::EraseInLine(LineErase::All)),
            _ => None,
        }
    } else if fin == SGR {
        Some(Action::SetSgr(params))
    } else if fin == DSR {
        match p0 {
            5 => Some(Action::RequestReport(Report::Status)),
            6 => Some(Action::RequestReport(Report::CursorPosition)),
            _ => None,
        }
    } else if fin == DA {
        if p0 == 0 {
            Some(Action::RequestReport(Report::DeviceAttributes))
        } else {
            None
        }
    } else {
        None
    }
}

fn dispatch_private(params: Vec<u16>, fin: u8) -> (a: Option<Action>)
    ensures
        action_view(a) == private_csi(params@, fin),
{
    if fin == SM || fin == RM {
        let enable = fin == SM;
        if params.len() == 1 && (params[0] == 47 || params[0] == 1047 || params[0] == 1049) {
            Some(Action::SwitchAlternateScreen(enable))
        } else {
            Some(Action::SetMode { codes: params, enable })
        }
    } else {
        None
    }
}

fn dispatch_spaced(params: Vec<u16>, fin: u8) -> (a: Option<Action>)
    ensures
        action_view(a) == spaced_csi(params@, fin),
{
    let p0 = param(&params, 0);
    if fin != DECSCUSR || p0 > 6 {
        None
    } else {
        let shape = if p0 <= 2 {
            CursorShape::Block
        } else if p0 <= 4 {
            CursorShape::Underline
        } else {
            CursorShape::Bar
        };
        Some(Action::SetCursorStyle { shape, blink: p0 == 0 || p0 % 2 == 1 })
    }
}

/// The action of a completed control sequence; `None` if it is not a
/// recognised one.
pub fn dispatch_csi(private: bool, intermediate: u8, params: Vec<u16>, fin: u8) -> (a: Option<
    Action,
>)
    ensures
        action_view(a) == csi_action(private, intermediate, params@, fin),
{
    if intermediate == 0 {
        if private {
            dispatch_private(params, fin)
        } else {
            dispatch_plain(params, fin)
        }
    } else if intermediate == 0x20 && !private {
        dispatch_spaced(params, fin)
    } else {
        None
    }
}

/// An upper bound on the value of up to five decimal digits.
pub open spec fn pow10(k: int) -> int {
    if k <= 0 {
        1
    } else if k == 1 {
        10
    } else if k == 2 {
        100
    } else if k == 3 {
        1000
    } else if k == 4 {
        10000
    } else {
        100000
    }
}

fn find(s: &Vec<u8>, b: u8, from: usize) -> (k: usize)
    requires
        from <= s.len(),
    ensures
        k == find_from(s@, b, from as int),
        from <= k <= s.len(),
        k < s.len() ==> s@[k as int] == b,
{
    let mut i: usize = from;
    while i < s.len() && s[i] != b
        invariant
            from <= i <= s.len(),
            find_from(s@, b, from as int) == find_from(s@, b, i as int),
        decreases s.len() - i,
    {
        i += 1;
    }
    i
}

fn copy_range(s: &Vec<u8>, from: usize, to: usize) -> (r: Vec<u8>)
    requires
        from <= to <= s.len(),
    ensures
        r@ == s@.subrange(from as int, to as int),
{
    let mut r: Vec<u8> = Vec::new();
    let mut i: usize = from;
    while i < to
        invariant
            from <= i <= to <= s.len(),
            r@ == s@.subrange(from as int, i as int),
        decreases to - i,
    {
        r.push(s[i]);
        i += 1;
        assert(r@ =~= s@.subrange(from as int, i as int));
    }
    r
}

fn parse_number(s: &Vec<u8>) -> (r: Option<u32>)
    ensures
        match r {
            Some(v) => number_field(s@) == Some(v as nat),
            None => number_field(s@) is None,
        },
{
    let n = s.len();
    if n == 0 || n > 5 {
        return None;
    }
    let mut acc: u32 = 0;
    let mut i: usize = 0;
    while i < n
        invariant
            i <= n == s.len(),
            n <= 5,
            all_digits(s@.take(i as int)),
            acc == digits_value(s@.take(i as int)),
            acc < pow10(i as int),
        decreases n - i,
    {
        let b = s[i];
        if b < 0x30 || b > 0x39 {
            assert(!is_digit(s@[i as int]));
            return None;
        }
        assert(s@.take(i + 1).drop_last() =~= s@.take(i as int));
        acc = acc * 10 + (b - 0x30) as u32;
        i += 1;
    }
    assert(s@.take(n as int) =~= s@);
    Some(acc)
}

fn hex(b: u8) -> (r: Option<u8>)
    ensures
        r is Some <==> is_hex(b),
        r matches Some(v) ==> v == hex_value(b) && v < 16,
{
    if 0x30 <= b && b <= 0x39 {
        Some(b - 0x30)
    } else if 0x61 <= b && b <= 0x66 {
        Some(b - 0x61 + 10)
    } else if 0x41 <= b && b <= 0x46 {
        Some(b - 0x41 + 10)
    } else {
        None
    }
}

fn hex_byte(s: &Vec<u8>, i: usize) -> (r: Option<u8>)
    requires
        i + 1 < s.len(),
    ensures
        r == (if is_hex_pair(s@, i as int) { Some(hex_pair(s@, i as int)) } else { None::<u8> }),
{
    match (hex(s[i]), hex(s[i + 1])) {
        (Some(hi), Some(lo)) => Some(hi * 16 + lo),
        _ => None,
    }
}

fn parse_color(s: &Vec<u8>) -> (r: Option<(u8, u8, u8)>)
    ensures
        r == color_spec(s@),
{
    if s.len() == 7 && s[0] == HASH {
        match (hex_byte(s, 1), hex_byte(s, 3), hex_byte(s, 5)) {
            (Some(r), Some(g), Some(b)) => Some((r, g, b)),
            _ => None,
        }
    } else if s.len() == 12 && s[0] == 0x72 && s[1] == 0x67 && s[2] == 0x62 && s[3] == COLON
        && s[6] == SLASH && s[9] == SLASH {
        match (hex_byte(s, 4), hex_byte(s, 7), hex_byte(s, 10)) {
            (Some(r), Some(g), Some(b)) => Some((r, g, b)),
            _ => None,
        }
    } else {
        None
    }
}

fn dispatch_palette(s: &Vec<u8>) -> (a: Option<Action>)
    ensures
        action_view(a) == palette_action(s@),
{
    let k = find(s, SEMICOLON, 0);
    if k >= s.len() {
        return None;
    }
    let field = copy_range(s, 0, k);
    let rest = copy_range(s, k + 1, s.len());
    assert(field@ == s@.take(k as int));
    assert(rest@ == s@.skip(k + 1));
    match (parse_number(&field), parse_color(&rest)) {
        (Some(index), Some(rgb)) => {
            if index <= 255 {
                Some(
                    Action::SetPaletteColor { index: index as u8, r: rgb.0, g: rgb.1, b: rgb.2 },
                )
            } else {
                None
            }
        },
        _ => None,
    }
}

fn dispatch_hyperlink(s: &Vec<u8>) -> (a: Option<Action>)
    ensures
        action_view(a) == hyperlink_action(s@),
{
    let k = find(s, SEMICOLON, 0);
    if k >= s.len() {
        None
    } else if k + 1 == s.len() {
        Some(Action::SetHyperlink(None))
    } else {
        let target = copy_range(s, k + 1, s.len());
        assert(target@ == s@.skip(k + 1));
        Some(Action::SetHyperlink(Some(target)))
    }
}

fn dispatch_clipboard(s: &Vec<u8>) -> (a: Option<Action>)
    ensures
        action_view(a) == clipboard_action(s@),
{
    let k = find(s, SEMICOLON, 0);
    if k >= s.len() {
        return None;
    }
    let data = copy_range(s, k + 1, s.len());
    assert(data@ == s@.skip(k + 1));
    match decode(&data) {
        Some(bytes) => Some(Action::WriteClipboard(bytes)),
        None => None,
    }
}

/// The action of a completed string sequence with this payload; `None` if
/// it is not a recognised one.
pub fn dispatch_osc(payload: &Vec<u8>) -> (a: Option<Action>)
    ensures
        action_view(a) == osc_action(payload@),
{
    let k = find(payload, SEMICOLON, 0);
    if k >= payload.len() {
        return None;
    }
    let field = copy_range(payload, 0, k);
    let rest = copy_range(payload, k + 1, payload.len());
    assert(field@ == payload@.take(k as int));
    assert(rest@ == payload@.skip(k + 1));
    match parse_number(&field) {
        Some(code) => {
            if code == 0 || code == 2 {
                Some(Action::SetTitle(rest))
            } else if code == 4 {
                dispatch_palette(&rest)
            } else if code == 8 {
                dispatch_hyperlink(&rest)
            } else if code == 52 {
                dispatch_clipboard(&rest)
            } else {
                None
            }
        },
        None => None,
    }
}

} // verus!
