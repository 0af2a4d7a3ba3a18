//! Graphic rendition: how attribute parameters change the pen.

use vstd::prelude::*;
use crate::cell::{Attrs, Color, Style, plain_style};

verus! {

/// The pen after one attribute parameter that stands alone. Parameters that
/// are not recognised leave the pen as it is.
pub open spec fn sgr_one(pen: Style, p: u16) -> Style {
    if p == 0 {
        plain_style()
    } else if p == 1 {
        Style { attrs: Attrs { bold: true, ..pen.attrs }, ..pen }
    } else if p == 2 {
        Style { attrs: Attrs { dim: true, ..pen.attrs }, ..pen }
    } else if p == 3 {
        Style { attrs: Attrs { italic: true, ..pen.attrs }, ..pen }
    } else if p == 4 {
        Style { attrs: Attrs { underline: true, ..pen.attrs }, ..pen }
    } else if p == 7 {
        Style { attrs: Attrs { inverse: true, ..pen.attrs }, ..pen }
    } else if p == 9 {
        Style { attrs: Attrs { strikethrough: true, ..pen.attrs }, ..pen }
    } else if p == 22 {
        Style { attrs: Attrs { bold: false, dim: false, ..pen.attrs }, ..pen }
    } else if p == 23 {
        Style { attrs: Attrs { italic: false, ..pen.attrs }, ..pen }
    } else if p == 24 {
        Style { attrs: Attrs { underline: false, ..pen.attrs }, ..pen }
    } else if p == 27 {
        Style { attrs: Attrs { inverse: false, ..pen.attrs }, ..pen }
    } else if p == 29 {
        Style { attrs: Attrs { strikethrough: false, ..pen.attrs }, ..pen }
    } else if 30 <= p <= 37 {
        Style { fg: Color::Indexed((p - 30) as u8), ..pen }
    } else if p == 39 {
        Style { fg: Color::Default, ..pen }
    } else if 40 <= p <= 47 {
        Style { bg: Color::Indexed((p - 40) as u8), ..pen }
    } else if p == 49 {
        Style { bg: Color::Default, ..pen }
    } else if 90 <= p <= 97 {
        Style { fg: Color::Indexed((p - 90 + 8) as u8), ..pen }
    } else if 100 <= p <= 107 {
        Style { bg: Color::Indexed((p - 100 + 8) as u8), ..pen }
    } else {
        pen
    }
}

/// The colour that the parameters from index `i` on select after a 38 or 48,
/// and how many parameters it takes: `5;n` is palette entry `n`, `2;r;g;b` a
/// direct colour. `None` if they are not of either form.
pub open spec fn extended_color(params: Seq<u16>, i: int) -> Option<(Color, int)> {
    if i + 1 < params.len() && params[i] == 5 && params[i + 1] <= 255 {
        Some((Color::Indexed(params[i + 1] as u8), 2))
    } else if i + 3 < params.len() && params[i] == 2 && params[i + 1] <= 255 && params[i + 2]
        <= 255 && params[i + 3] <= 255 {
        Some((Color::Rgb(params[i + 1] as u8, params[i + 2] as u8, params[i + 3] as u8), 4))
    } else {
        None
    }
}

/// The pen after the parameters from index `i` on, in order. A 38 or 48
/// takes the parameters of its colour with it; where those are malformed,
/// the rest of the parameters is ignored.
pub open spec fn sgr_from(pen: Style, params: Seq<u16>, i: int) -> Style
    decreases params.len() - i,
{
    if i < 0 || i >= params.len() {
        pen
    } else if params[i] == 38 || params[i] == 48 {
        match extended_color(params, i + 1) {
            Some((color, used)) => {
                let next = if params[i] == 38 {
                    Style { fg: color, ..pen }
                } else {
                    Style { bg: color, ..pen }
                };
                sgr_from(next, params, i + 1 + used)
            },
            None => pen,
        }
    } else {
        sgr_from(sgr_one(pen, params[i]), params, i + 1)
    }
}

/// The pen after a graphic rendition sequence with these parameters; with
/// none, the pen is reset.
pub open spec fn apply_sgr(pen: Style, params: Seq<u16>) -> Style {
    if params.len() == 0 {
        plain_style()
    } else {
        sgr_from(pen, params, 0)
    }
}

fn one(pen: Style, p: u16) -> (r: Style)
    ensures
        r == sgr_one(pen, p),
{
    let mut r = pen;
    if p == 0 {
        r = Style::plain();
    } else if p == 1 {
        r.attrs.bold = true;
    } else if p == 2 {
        r.attrs.dim = true;
    } else if p == 3 {
        r.attrs.italic = true;
    } else if p == 4 {
        r.attrs.underline = true;
    } else if p == 7 {
        r.attrs.inverse = true;
    } else if p == 9 {
        r.attrs.strikethrough = true;
    } else if p == 22 {
        r.attrs.bold = false;
        r.attrs.dim = false;
    } else if p == 23 {
        r.attrs.italic = false;
    } else if p == 24 {
        r.attrs.underline = false;
    } else if p == 27 {
        r.attrs.inverse = false;
    } else if p == 29 {
        r.attrs.strikethrough = false;
    } else if 30 <= p && p <= 37 {
        r.fg = Color::Indexed((p - 30) as u8);
    } else if p == 39 {
        r.fg = Color::Default;
    } else if 40 <= p && p <= 47 {
        r.bg = Color::Indexed((p - 40) as u8);
    } else if p == 49 {
        r.bg = Color::Default;
    } else if 90 <= p && p <= 97 {
        r.fg = Color::Indexed((p - 90 + 8) as u8);
    } else if 100 <= p && p <= 107 {
        r.bg = Color::Indexed((p - 100 + 8) as u8);
    }
    r
}

fn extended(params: &Vec<u16>, i: usize) -> (r: Option<(Color, usize)>)
    requires
        i <= params.len(),
    ensures
        match r {
            Some((color, used)) => extended_color(params@, i as int) == Some((color, used as int))
                && i + used <= params.len(),
            None => extended_color(params@, i as int) is None,
        },
{
    let n = params.len();
    if n - i >= 2 && params[i] == 5 && params[i + 1] <= 255 {
        Some((Color::Indexed(params[i + 1] as u8), 2))
    } else if n - i >= 4 && params[i] == 2 && params[i + 1] <= 255 && params[i + 2] <= 255
        && params[i + 3] <= 255 {
        Some((Color::Rgb(params[i + 1] as u8, params[i + 2] as u8, params[i + 3] as u8), 4))
    } else {
        None
    }
}

/// The pen after a graphic rendition sequence with these parameters.
pub fn restyle(pen: Style, params: &Vec<u16>) -> (r: Style)
    ensures
        r == apply_sgr(pen, params@),
{
    if params.len() == 0 {
        return Style::plain();
    }
    let mut cur = pen;
    let mut i: usize = 0;
    while i < params.len()
        invariant
            i <= params.len(),
            sgr_from(pen, params@, 0) == sgr_from(cur, params@, i as int),
        decreases params.len() - i,
    {
        let p = params[i];
        if p == 38 || p == 48 {
            match extended(params, i + 1) {
                Some((color, used)) => {
                    if p == 38 {
                        cur.fg = color;
                    } else {
                        cur.bg = color;
                    }
                    i = i + 1 + used;
                },
                None => {
                    return cur;
                },
            }
        } else {
            cur = one(cur, p);
            i += 1;
        }
    }
    cur
}

} // verus!
