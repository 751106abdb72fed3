//! The style/color codec: bit-packing of a color selector and independent
//! attribute flags into one word-sized cell style.
//!
//! The low four bits of a [`Style`] word hold the color selector; three
//! higher bits hold the Bold, Underline and Reverse attributes. The two
//! fields never overlap, and every combining operation masks each side
//! into its own field before the bitwise OR, so that neither field can
//! corrupt the other.

use vstd::prelude::*;

verus! {

/// Mask of the 4-bit color field of a style word.
pub const TB_NORMAL_COLOR: u16 = 0x000F;

/// Bold attribute bit.
pub const RB_BOLD: u16 = 0x0100;

/// Underline attribute bit.
pub const RB_UNDERLINE: u16 = 0x0200;

/// Reverse-video attribute bit.
pub const RB_REVERSE: u16 = 0x0400;

/// The zero style: default color, no attributes.
pub const RB_NORMAL: u16 = 0x0000;

/// Mask of the three attribute bits of a style word.
pub const TB_ATTRIB: u16 = RB_BOLD | RB_UNDERLINE | RB_REVERSE;

/// A foreground or background color selector: the terminal default plus
/// eight named colors.
#[derive(Clone, Copy, PartialEq, Eq, Debug)]
pub enum Color {
    Default,
    Black,
    Red,
    Green,
    Yellow,
    Blue,
    Magenta,
    Cyan,
    White,
}

/// The bit pattern a color occupies inside the 4-bit color field.
pub open spec fn spec_color_code(c: Color) -> u16 {
    match c {
        Color::Default => 0x00,
        Color::Black => 0x01,
        Color::Red => 0x02,
        Color::Green => 0x03,
        Color::Yellow => 0x04,
        Color::Blue => 0x05,
        Color::Magenta => 0x06,
        Color::Cyan => 0x07,
        Color::White => 0x08,
    }
}

/// The color a 4-bit color field decodes to, if the field holds one of
/// the nine defined patterns.
pub open spec fn spec_color_of_code(code: u16) -> Option<Color> {
    if code == 0x00 {
        Some(Color::Default)
    } else if code == 0x01 {
        Some(Color::Black)
    } else if code == 0x02 {
        Some(Color::Red)
    } else if code == 0x03 {
        Some(Color::Green)
    } else if code == 0x04 {
        Some(Color::Yellow)
    } else if code == 0x05 {
        Some(Color::Blue)
    } else if code == 0x06 {
        Some(Color::Magenta)
    } else if code == 0x07 {
        Some(Color::Cyan)
    } else if code == 0x08 {
        Some(Color::White)
    } else {
        None
    }
}

impl Color {
    /// The bit pattern this color occupies inside the color field.
    pub fn code(self) -> (r: u16)
        ensures
            r == spec_color_code(self),
    {
        match self {
            Color::Default => 0x00,
            Color::Black => 0x01,
            Color::Red => 0x02,
            Color::Green => 0x03,
            Color::Yellow => 0x04,
            Color::Blue => 0x05,
            Color::Magenta => 0x06,
            Color::Cyan => 0x07,
            Color::White => 0x08,
        }
    }
}

/// A bit-packed cell style: a color selector in the low four bits and
/// attribute flags in the [`TB_ATTRIB`] bits. Build one from the named
/// attribute constants with [`Style::from_bits`], or from a color with
/// [`Style::from_color`].
#[derive(Clone, Copy, PartialEq, Eq, Debug)]
pub struct Style {
    pub bits: u16,
}

/// The style word that carries exactly a color, with no attribute bits:
/// the color's pattern masked into the color field.
pub open spec fn spec_from_color(c: Color) -> u16 {
    spec_color_code(c) & TB_NORMAL_COLOR
}

/// The combined style word of an attribute carrier and a color: each side
/// masked into its own field, then joined by OR.
pub open spec fn spec_with_color(attrs: u16, c: Color) -> u16 {
    (attrs & TB_ATTRIB) | (spec_color_code(c) & TB_NORMAL_COLOR)
}

impl Style {
    /// The raw style word.
    pub open spec fn spec_bits(self) -> u16 {
        self.bits
    }

    /// Packs a raw word into a style.
    pub fn from_bits(bits: u16) -> (r: Style)
        ensures
            r.spec_bits() == bits,
    {
        Style { bits }
    }

    /// The raw style word, as handed to the driver's cell-write call.
    pub fn bits(self) -> (r: u16)
        ensures
            r == self.spec_bits(),
    {
        self.bits
    }

    /// Encodes a color as a style: the color's pattern masked into the
    /// 4-bit color field, with every attribute bit zero.
    pub fn from_color(c: Color) -> (r: Style)
        ensures
            r.spec_bits() == spec_from_color(c),
            r.spec_bits() & TB_ATTRIB == 0,
    {
        let code = c.code();
        proof {
            assert((code & TB_NORMAL_COLOR) & TB_ATTRIB == 0) by (bit_vector);
        }
        Style { bits: code & TB_NORMAL_COLOR }
    }

    /// The attribute bits this style carries, with the color field
    /// masked out.
    pub fn attributes(self) -> (r: Style)
        ensures
            r.spec_bits() == self.spec_bits() & TB_ATTRIB,
    {
        Style { bits: self.bits & TB_ATTRIB }
    }

    /// Combines the attribute bits of `self` with `c`: each side is
    /// masked into its own field before the OR, so the color field of
    /// `self` is discarded and the attribute bits pass through unchanged.
    pub fn with_color(self, c: Color) -> (r: Style)
        ensures
            r.spec_bits() == spec_with_color(self.spec_bits(), c),
    {
        let code = c.code();
        Style { bits: (self.bits & TB_ATTRIB) | (code & TB_NORMAL_COLOR) }
    }

    /// Decodes the color field: the color whose pattern the low four
    /// bits hold, or `None` when they hold none of the nine patterns.
    pub fn color(self) -> (r: Option<Color>)
        ensures
            r == spec_color_of_code(self.spec_bits() & TB_NORMAL_COLOR),
    {
        let code = self.bits & TB_NORMAL_COLOR;
        if code == 0x00 {
            Some(Color::Default)
        } else if code == 0x01 {
            Some(Color::Black)
        } else if code == 0x02 {
            Some(Color::Red)
        } else if code == 0x03 {
            Some(Color::Green)
        } else if code == 0x04 {
            Some(Color::Yellow)
        } else if code == 0x05 {
            Some(Color::Blue)
        } else if code == 0x06 {
            Some(Color::Magenta)
        } else if code == 0x07 {
            Some(Color::Cyan)
        } else if code == 0x08 {
            Some(Color::White)
        } else {
            None
        }
    }
}

impl core::convert::From<Color> for Style {
    /// Encodes a color as a style, as [`Style::from_color`] does.
    fn from(c: Color) -> Style {
        Style::from_color(c)
    }
}

impl vstd::std_specs::convert::FromSpecImpl<Color> for Style {
    open spec fn obeys_from_spec() -> bool {
        true
    }

    open spec fn from_spec(c: Color) -> Style {
        Style { bits: spec_from_color(c) }
    }
}

/// Encoding a color and decoding the color field recovers the color:
/// the nine color patterns survive the mask into the color field intact.
pub proof fn lemma_color_round_trip(c: Color)
    ensures
        spec_color_of_code(spec_from_color(c) & TB_NORMAL_COLOR) == Some(c),
{
    let code = spec_color_code(c);
    assert(code & TB_NORMAL_COLOR == code) by (bit_vector)
        requires
            code <= 0x08,
    ;
}

/// One cell-write call for the driver: a cell position, the character to
/// put there, and the fully combined foreground and background words.
#[derive(Clone, Copy, PartialEq, Eq, Debug)]
pub struct CellWrite {
    pub x: usize,
    pub y: usize,
    pub ch: u32,
    pub fg: u16,
    pub bg: u16,
}

/// The cell write that puts character `ch` at `(x, y)` with attribute
/// carrier `sty` over foreground `fg` and background `bg`. The
/// background carries only its color field; attribute bits apply to the
/// foreground alone.
pub open spec fn spec_cell_write(x: usize, y: usize, sty: Style, fg: Color, bg: Color, ch: char) -> CellWrite {
    CellWrite {
        x,
        y,
        ch: ch as u32,
        fg: spec_with_color(sty.bits, fg),
        bg: spec_from_color(bg),
    }
}

/// Computes the one cell write that prints `ch` at `(x, y)`: the
/// foreground is `sty`'s attribute bits combined with `fg`, the
/// background is `bg` alone.
pub fn print_char(x: usize, y: usize, sty: Style, fg: Color, bg: Color, ch: char) -> (r:
    CellWrite)
    ensures
        r == spec_cell_write(x, y, sty, fg, bg, ch),
{
    let fg_style = sty.with_color(fg);
    let bg_style = Style::from_color(bg);
    CellWrite { x, y, ch: ch as u32, fg: fg_style.bits(), bg: bg_style.bits() }
}

/// Computes the cell writes that print `s` starting at `(x, y)`: one
/// write per character, at sequential column offsets, every one with the
/// same combined foreground and background words.
///
/// No wide-character width accounting is performed: each character
/// consumes exactly one cell column. That is a documented limitation of
/// the cell model, not an oversight.
pub fn print(x: usize, y: usize, sty: Style, fg: Color, bg: Color, s: &str) -> (r: Vec<
    CellWrite,
>)
    requires
        x + s@.len() <= usize::MAX,
    ensures
        r@.len() == s@.len(),
        forall|i: int|
            0 <= i < r@.len() ==> r@[i] == spec_cell_write(
                (x + i) as usize,
                y,
                sty,
                fg,
                bg,
                s@[i],
            ),
{
    let fg_style = sty.with_color(fg);
    let bg_style = Style::from_color(bg);
    let mut cells: Vec<CellWrite> = Vec::new();
    let mut i: usize = 0;
    for c in it: s.chars()
        invariant
            it.seq() == s@,
            i == it.index(),
            i <= s@.len(),
            x + s@.len() <= usize::MAX,
            cells@.len() == i,
            fg_style.bits == spec_with_color(sty.bits, fg),
            bg_style.bits == spec_from_color(bg),
            forall|j: int|
                0 <= j < cells@.len() ==> cells@[j] == spec_cell_write(
                    (x + j) as usize,
                    y,
                    sty,
                    fg,
                    bg,
                    s@[j],
                ),
    {
        cells.push(CellWrite { x: x + i, y, ch: c as u32, fg: fg_style.bits, bg: bg_style.bits });
        i = i + 1;
    }
    cells
}

/// Combining any attribute carrier with any color and masking the result
/// back to the attribute field recovers the carrier's attribute bits,
/// whatever the color was: the two fields never overlap.
pub proof fn lemma_attributes_survive_color(attrs: u16, c: Color)
    ensures
        spec_with_color(attrs, c) & TB_ATTRIB == attrs & TB_ATTRIB,
        spec_with_color(attrs, c) & TB_NORMAL_COLOR == spec_from_color(c),
{
    let code = spec_color_code(c);
    assert(((attrs & TB_ATTRIB) | (code & TB_NORMAL_COLOR)) & TB_ATTRIB == attrs & TB_ATTRIB)
        by (bit_vector);
    assert(((attrs & TB_ATTRIB) | (code & TB_NORMAL_COLOR)) & TB_NORMAL_COLOR == code
        & TB_NORMAL_COLOR) by (bit_vector);
}

} // verus!
