//! Cells: the glyph, colours and attributes of one grid position.

use vstd::prelude::*;

verus! {

/// A foreground or background colour. Resolving `Default` and `Indexed` to
/// concrete colours is left to the host's theme.
#[derive(Clone, Copy, PartialEq, Eq, Structural, Debug)]
pub enum Color {
    /// The theme's default foreground or background.
    Default,
    /// An entry of the 256-colour palette.
    Indexed(u8),
    /// A direct 24-bit colour.
    Rgb(u8, u8, u8),
}

/// The text attributes of a cell.
#[derive(Clone, Copy, PartialEq, Eq, Structural, Debug)]
pub struct Attrs {
    pub bold: bool,
    pub dim: bool,
    pub italic: bool,
    pub underline: bool,
    pub inverse: bool,
    pub strikethrough: bool,
}

/// Colours and attributes together: what the pen carries and what a cell keeps.
#[derive(Clone, Copy, PartialEq, Eq, Structural, Debug)]
pub struct Style {
    pub fg: Color,
    pub bg: Color,
    pub attrs: Attrs,
}

/// What a cell displays.
#[derive(Clone, Copy, PartialEq, Eq, Structural, Debug)]
pub enum Glyph {
    /// Nothing; drawn as a space.
    Empty,
    /// A character. A wide character also claims the cell to its right.
    Char(char),
    /// The right half of the wide character in the cell to the left.
    Continuation,
}

/// One grid position. Cells are plain values and are copied freely.
#[derive(Clone, Copy, PartialEq, Eq, Structural, Debug)]
pub struct Cell {
    pub glyph: Glyph,
    pub style: Style,
    /// Index into the screen's table of hyperlink targets, if the cell is linked.
    pub link: Option<u32>,
}

/// No attribute set.
pub open spec fn no_attrs() -> Attrs {
    Attrs {
        bold: false,
        dim: false,
        italic: false,
        underline: false,
        inverse: false,
        strikethrough: false,
    }
}

/// Default colours, no attribute.
pub open spec fn plain_style() -> Style {
    Style { fg: Color::Default, bg: Color::Default, attrs: no_attrs() }
}

/// The empty cell: no glyph, plain style, no link.
pub open spec fn blank_cell() -> Cell {
    Cell { glyph: Glyph::Empty, style: plain_style(), link: None }
}

/// Whether `c` takes two cells. The ranges are the East Asian wide and
/// fullwidth blocks and the emoji blocks.
#[verifier::opaque]
pub open spec fn is_wide(c: char) -> bool {
    let v = c as u32;
    ||| 0x1100 <= v <= 0x115F
    ||| 0x2E80 <= v <= 0x303E
    ||| 0x3041 <= v <= 0x33FF
    ||| 0x3400 <= v <= 0x4DBF
    ||| 0x4E00 <= v <= 0x9FFF
    ||| 0xA000 <= v <= 0xA4CF
    ||| 0xAC00 <= v <= 0xD7A3
    ||| 0xF900 <= v <= 0xFAFF
    ||| 0xFE30 <= v <= 0xFE4F
    ||| 0xFF00 <= v <= 0xFF60
    ||| 0xFFE0 <= v <= 0xFFE6
    ||| 0x1F300 <= v <= 0x1F64F
    ||| 0x1F900 <= v <= 0x1F9FF
    ||| 0x20000 <= v <= 0x3FFFD
}

/// The number of cells that `c` takes: 2 if it is wide, else 1.
pub open spec fn glyph_width(c: char) -> nat {
    if is_wide(c) { 2 } else { 1 }
}

impl Attrs {
    /// No attribute set.
    pub fn none() -> (a: Attrs)
        ensures
            a == no_attrs(),
    {
        Attrs {
            bold: false,
            dim: false,
            italic: false,
            underline: false,
            inverse: false,
            strikethrough: false,
        }
    }
}

impl Style {
    /// Default colours, no attribute.
    pub fn plain() -> (s: Style)
        ensures
            s == plain_style(),
    {
        Style { fg: Color::Default, bg: Color::Default, attrs: Attrs::none() }
    }
}

impl Cell {
    /// The empty cell.
    pub fn blank() -> (c: Cell)
        ensures
            c == blank_cell(),
    {
        Cell { glyph: Glyph::Empty, style: Style::plain(), link: None }
    }

    /// A cell showing `ch` in `style`, linked to `link`.
    pub fn with_char(ch: char, style: Style, link: Option<u32>) -> (c: Cell)
        ensures
            c == (Cell { glyph: Glyph::Char(ch), style, link }),
    {
        Cell { glyph: Glyph::Char(ch), style, link }
    }

    /// Whether the cell shows nothing.
    pub fn is_empty(&self) -> (b: bool)
        ensures
            b == (self.glyph == Glyph::Empty),
    {
        match self.glyph {
            Glyph::Empty => true,
            _ => false,
        }
    }
}

/// Decides whether `c` takes two cells.
pub fn wide(c: char) -> (w: bool)
    ensures
        w == is_wide(c),
{
    proof {
        reveal(is_wide);
    }
    let v: u32 = c as u32;
    (0x1100 <= v && v <= 0x115F) || (0x2E80 <= v && v <= 0x303E) || (0x3041 <= v && v <= 0x33FF)
        || (0x3400 <= v && v <= 0x4DBF) || (0x4E00 <= v && v <= 0x9FFF) || (0xA000 <= v && v
        <= 0xA4CF) || (0xAC00 <= v && v <= 0xD7A3) || (0xF900 <= v && v <= 0xFAFF) || (0xFE30 <= v
        && v <= 0xFE4F) || (0xFF00 <= v && v <= 0xFF60) || (0xFFE0 <= v && v <= 0xFFE6) || (0x1F300
        <= v && v <= 0x1F64F) || (0x1F900 <= v && v <= 0x1F9FF) || (0x20000 <= v && v <= 0x3FFFD)
}

} // verus!
