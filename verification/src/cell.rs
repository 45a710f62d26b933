//! Character cells: rendition flags, colours and attributes.

use vstd::prelude::*;

verus! {

pub const BOLD: u16 = 1;
pub const UNDERLINE: u16 = 2;
pub const BLINK: u16 = 4;
pub const REVERSE: u16 = 8;
pub const INVISIBLE: u16 = 16;
pub const PROTECTED: u16 = 32;
pub const COLOR_ALTERNATE: u16 = 64;
pub const COLOR_MONO: u16 = 128;

/// Character rendition flags (SGR and DECSCA), one bit each.
#[derive(Debug, Clone, Copy, PartialEq, Eq, Hash, Structural)]
pub struct Flags(pub u16);

impl Flags {
    /// No rendition.
    pub fn none() -> (r: Flags)
        ensures
            r.0 == 0,
    {
        Flags(0)
    }

    pub fn bold() -> (r: Flags)
        ensures
            r.0 == BOLD,
    {
        Flags(BOLD)
    }

    pub fn underline() -> (r: Flags)
        ensures
            r.0 == UNDERLINE,
    {
        Flags(UNDERLINE)
    }

    pub fn blink() -> (r: Flags)
        ensures
            r.0 == BLINK,
    {
        Flags(BLINK)
    }

    pub fn reverse() -> (r: Flags)
        ensures
            r.0 == REVERSE,
    {
        Flags(REVERSE)
    }

    /// SGR 8 (VT220 and later).
    pub fn invisible() -> (r: Flags)
        ensures
            r.0 == INVISIBLE,
    {
        Flags(INVISIBLE)
    }

    /// DECSCA: not erasable by DECSED/DECSEL/DECSERA.
    pub fn protected() -> (r: Flags)
        ensures
            r.0 == PROTECTED,
    {
        Flags(PROTECTED)
    }

    /// Written in the alternate colour mode (DECSTGLT 1 or 2).
    pub fn color_alternate() -> (r: Flags)
        ensures
            r.0 == COLOR_ALTERNATE,
    {
        Flags(COLOR_ALTERNATE)
    }

    /// Written in the monochrome colour mode (DECSTGLT 0).
    pub fn color_mono() -> (r: Flags)
        ensures
            r.0 == COLOR_MONO,
    {
        Flags(COLOR_MONO)
    }

    /// The union of two flag sets.
    pub fn union(self, other: Flags) -> (r: Flags)
        ensures
            r.0 == self.0 | other.0,
    {
        Flags(self.0 | other.0)
    }

    /// The bits as a number.
    pub fn bits(self) -> (r: u16)
        ensures
            r == self.0,
    {
        self.0
    }

    /// Every bit of `other` is set in `self`.
    pub fn contains(self, other: Flags) -> (r: bool)
        ensures
            r == (self.0 & other.0 == other.0),
    {
        self.0 & other.0 == other.0
    }

    /// Sets or clears the bits of `flag`.
    pub fn set(&mut self, flag: Flags, on: bool)
        ensures
            final(self).0 == (if on { old(self).0 | flag.0 } else { old(self).0 & !flag.0 }),
    {
        if on {
            self.0 = self.0 | flag.0;
        } else {
            self.0 = self.0 & !flag.0;
        }
    }

    pub fn is_empty(self) -> (r: bool)
        ensures
            r == (self.0 == 0),
    {
        self.0 == 0
    }
}

/// Foreground or background colour.
#[derive(Debug, Clone, Copy, PartialEq, Eq, Hash, Structural)]
pub enum Color {
    /// The terminal's default (phosphor) colour.
    Default,
    /// Index into the colour table (VT525 / ANSI 0–15, xterm 16–255).
    Indexed(u8),
    /// Direct colour (xterm extension; never produced in DEC-strict mode).
    Rgb(u8, u8, u8),
}

#[derive(Debug, Clone, Copy, PartialEq, Eq, Hash, Structural)]
pub struct Attrs {
    pub flags: Flags,
    pub fg: Color,
    pub bg: Color,
}

impl Attrs {
    /// No rendition, default colours.
    pub fn plain() -> (r: Attrs)
        ensures
            r == (Attrs { flags: Flags(0), fg: Color::Default, bg: Color::Default }),
    {
        Attrs { flags: Flags(0), fg: Color::Default, bg: Color::Default }
    }
}

#[derive(Debug, Clone, Copy, PartialEq, Eq, Hash, Structural)]
pub struct Cell {
    /// Displayed character. DEC graphic sets are stored as their Unicode
    /// equivalents; soft-font (DRCS) glyphs use the Private Use Area.
    pub ch: char,
    pub attrs: Attrs,
}

/// A space with no rendition and default colours.
pub open spec fn blank_cell() -> Cell {
    Cell { ch: ' ', attrs: Attrs { flags: Flags(0), fg: Color::Default, bg: Color::Default } }
}

impl Cell {
    /// A space with no rendition and default colours.
    pub fn blank() -> (r: Cell)
        ensures
            r == blank_cell(),
    {
        Cell::erased(Color::Default)
    }

    /// A cell cleared by an erase function. DEC erases to spaces with no
    /// rendition; on colour terminals the current background is kept.
    pub fn erased(bg: Color) -> (r: Cell)
        ensures
            r == (Cell { ch: ' ', attrs: Attrs { flags: Flags(0), fg: Color::Default, bg } }),
    {
        Cell { ch: ' ', attrs: Attrs { flags: Flags(0), fg: Color::Default, bg } }
    }
}

impl Default for Flags {
    fn default() -> (r: Flags)
        ensures
            r.0 == 0,
    {
        Flags(0)
    }
}

impl core::ops::BitOr for Flags {
    type Output = Flags;

    fn bitor(self, rhs: Flags) -> (r: Flags)
        ensures
            r.0 == self.0 | rhs.0,
    {
        Flags(self.0 | rhs.0)
    }
}

impl vstd::std_specs::ops::BitOrSpecImpl for Flags {
    open spec fn obeys_bitor_spec() -> bool {
        true
    }

    open spec fn bitor_req(self, rhs: Flags) -> bool {
        true
    }

    open spec fn bitor_spec(self, rhs: Flags) -> Flags {
        Flags(self.0 | rhs.0)
    }
}

impl Default for Color {
    fn default() -> (r: Color)
        ensures
            r == Color::Default,
    {
        Color::Default
    }
}

impl Default for Attrs {
    fn default() -> (r: Attrs)
        ensures
            r == (Attrs { flags: Flags(0), fg: Color::Default, bg: Color::Default }),
    {
        Attrs::plain()
    }
}

impl Default for Cell {
    fn default() -> (r: Cell)
        ensures
            r == blank_cell(),
    {
        Cell::blank()
    }
}

} // verus!
