//! VT525 colour: the 16-entry colour map, normal text and window frame
//! colours (DECAC), alternate text colours (DECATC), the colour mode
//! (DECSTGLT), and how a cell's renditions select its colours
//! (EK-VT520-RM section 2.9 and chapter 5).

use vstd::prelude::*;
use crate::cell::{Attrs, Color, Flags, BLINK, BOLD, COLOR_ALTERNATE, COLOR_MONO, INVISIBLE, REVERSE, UNDERLINE};

verus! {

/// DECSTGLT colour look-up table selection.
#[derive(Debug, Clone, Copy, PartialEq, Eq, Structural)]
pub enum ColorMode {
    /// A monochrome or grey-level map for applications not designed for colour.
    Mono,
    /// Renditions select colours from the alternate text colour table.
    Alternate,
    /// The second alternate colour selection, which DEC documents without detail.
    Alternate2,
    /// ANSI SGR colours (factory default).
    Sgr,
}

impl Default for ColorMode {
    fn default() -> (r: ColorMode)
        ensures
            r == ColorMode::Sgr,
    {
        ColorMode::Sgr
    }
}

/// The DECSTGLT code of a colour mode.
pub open spec fn mode_code(m: ColorMode) -> u16 {
    match m {
        ColorMode::Mono => 0,
        ColorMode::Alternate => 1,
        ColorMode::Alternate2 => 2,
        ColorMode::Sgr => 3,
    }
}

impl ColorMode {
    pub fn code(self) -> (r: u16)
        ensures
            r == mode_code(self),
    {
        match self {
            ColorMode::Mono => 0,
            ColorMode::Alternate => 1,
            ColorMode::Alternate2 => 2,
            ColorMode::Sgr => 3,
        }
    }

    pub fn from_code(code: u16) -> (r: Option<ColorMode>)
        ensures
            code <= 3 ==> (r matches Some(m) && mode_code(m) == code),
            code > 3 ==> r is None,
    {
        if code == 0 {
            Some(ColorMode::Mono)
        } else if code == 1 {
            Some(ColorMode::Alternate)
        } else if code == 2 {
            Some(ColorMode::Alternate2)
        } else if code == 3 {
            Some(ColorMode::Sgr)
        } else {
            None
        }
    }
}

/// A colour mode reads back from its code.
pub proof fn lemma_mode_code_round_trip(m: ColorMode, back: ColorMode)
    requires
        mode_code(back) == mode_code(m),
    ensures
        back == m,
{
}

/// An RGB colour with components 0–100, as DECCTR reports them.
pub type Rgb100 = [u8; 3];

/// The factory colour map: entries 0–7 are the ANSI colours in SGR order
/// and 8–15 their bright forms ("bold adds 8").
pub open spec fn default_map_entry(i: int) -> Seq<u8> {
    if i == 0 {
        seq![0, 0, 0]
    } else if i == 1 {
        seq![67, 0, 0]
    } else if i == 2 {
        seq![0, 67, 0]
    } else if i == 3 {
        seq![67, 67, 0]
    } else if i == 4 {
        seq![0, 0, 67]
    } else if i == 5 {
        seq![67, 0, 67]
    } else if i == 6 {
        seq![0, 67, 67]
    } else if i == 7 {
        seq![67, 67, 67]
    } else if i == 8 {
        seq![33, 33, 33]
    } else if i == 9 {
        seq![100, 33, 33]
    } else if i == 10 {
        seq![33, 100, 33]
    } else if i == 11 {
        seq![100, 100, 33]
    } else if i == 12 {
        seq![33, 33, 100]
    } else if i == 13 {
        seq![100, 33, 100]
    } else if i == 14 {
        seq![33, 100, 100]
    } else {
        seq![100, 100, 100]
    }
}

/// The factory colour map.
pub fn default_map() -> (r: [Rgb100; 16])
    ensures
        forall|i: int| 0 <= i < 16 ==> (#[trigger] r@[i])@ == default_map_entry(i),
{
    let r: [Rgb100; 16] = [
        [0, 0, 0],
        [67, 0, 0],
        [0, 67, 0],
        [67, 67, 0],
        [0, 0, 67],
        [67, 0, 67],
        [0, 67, 67],
        [67, 67, 67],
        [33, 33, 33],
        [100, 33, 33],
        [33, 100, 33],
        [100, 100, 33],
        [33, 33, 100],
        [100, 33, 100],
        [33, 100, 100],
        [100, 100, 100],
    ];
    assert forall|i: int| 0 <= i < 16 implies (#[trigger] r@[i])@ == default_map_entry(i) by {
        assert(r@[i]@ =~= default_map_entry(i));
    }
    r
}

/// Attribute combinations in DECATC order: bold 1, reverse 2, underline 4,
/// blink 8 map to Ps1 0–15.
pub open spec fn atc_order() -> Seq<u8> {
    seq![0b0000, 0b0001, 0b0010, 0b0100, 0b1000, 0b0011, 0b0101, 0b1001, 0b0110, 0b1010, 0b1100, 0b0111, 0b1011, 0b1101, 0b1110, 0b1111]
}

/// The factory alternate text colours of Ps1 (bits in DECATC order):
/// underline selects cyan, blink yellow, both magenta; bold brightens;
/// reverse exchanges foreground and background.
pub open spec fn alternate_entry(bits: u8) -> (u8, u8) {
    let bold = bits & 1 != 0;
    let reverse = bits & 2 != 0;
    let underline = bits & 4 != 0;
    let blink = bits & 8 != 0;
    let base: u8 = if !underline && !blink {
        7
    } else if underline && !blink {
        6
    } else if !underline && blink {
        3
    } else {
        5
    };
    let color: u8 = if bold { (base + 8) as u8 } else { base };
    if reverse { (0, color) } else { (color, 0) }
}

fn atc_bits(ps1: usize) -> (r: u8)
    requires
        ps1 < 16,
    ensures
        r == atc_order()[ps1 as int],
{
    if ps1 == 0 {
        0b0000
    } else if ps1 == 1 {
        0b0001
    } else if ps1 == 2 {
        0b0010
    } else if ps1 == 3 {
        0b0100
    } else if ps1 == 4 {
        0b1000
    } else if ps1 == 5 {
        0b0011
    } else if ps1 == 6 {
        0b0101
    } else if ps1 == 7 {
        0b1001
    } else if ps1 == 8 {
        0b0110
    } else if ps1 == 9 {
        0b1010
    } else if ps1 == 10 {
        0b1100
    } else if ps1 == 11 {
        0b0111
    } else if ps1 == 12 {
        0b1011
    } else if ps1 == 13 {
        0b1101
    } else if ps1 == 14 {
        0b1110
    } else {
        0b1111
    }
}

/// The factory alternate text colours by Ps1.
pub fn default_alternate() -> (r: [(u8, u8); 16])
    ensures
        forall|i: int| 0 <= i < 16 ==> #[trigger] r@[i] == alternate_entry(atc_order()[i]),
{
    let mut table: [(u8, u8); 16] = [(7, 0); 16];
    let mut ps1: usize = 0;
    while ps1 < 16
        invariant
            ps1 <= 16,
            table@.len() == 16,
            forall|i: int| 0 <= i < ps1 ==> #[trigger] table@[i] == alternate_entry(atc_order()[i]),
        decreases 16 - ps1,
    {
        let bits = atc_bits(ps1);
        let bold = bits & 1 != 0;
        let reverse = bits & 2 != 0;
        let underline = bits & 4 != 0;
        let blink = bits & 8 != 0;
        let base: u8 = if !underline && !blink {
            7
        } else if underline && !blink {
            6
        } else if !underline && blink {
            3
        } else {
            5
        };
        let color: u8 = if bold { base + 8 } else { base };
        table[ps1] = if reverse { (0, color) } else { (color, 0) };
        ps1 = ps1 + 1;
    }
    table
}

/// Whether every bit of `bit` is set.
pub open spec fn has(f: Flags, bit: u16) -> bool {
    f.0 & bit == bit
}

/// The DECATC bits of a rendition: bold 1, reverse 2, underline 4, blink 8.
pub open spec fn atc_bits_of(flags: Flags) -> u8 {
    ((if has(flags, BOLD) { 1int } else { 0 }) + (if has(flags, REVERSE) { 2int } else { 0 }) + (if has(flags, UNDERLINE) {
        4int
    } else {
        0
    }) + (if has(flags, BLINK) { 8int } else { 0 })) as u8
}

/// The colours of the cells of a session.
#[derive(Debug, PartialEq, Eq)]
pub struct ColorTable {
    pub map: [Rgb100; 16],
    /// DECAC item 1: normal text foreground and background indexes.
    pub normal: (u8, u8),
    /// DECAC item 2: window frame foreground and background indexes.
    pub frame: (u8, u8),
    /// DECATC colours by Ps1.
    pub alternate: [(u8, u8); 16],
    pub mode: ColorMode,
}

impl Clone for ColorTable {
    fn clone(&self) -> (r: ColorTable)
        ensures
            r == *self,
    {
        ColorTable { map: self.map, normal: self.normal, frame: self.frame, alternate: self.alternate, mode: self.mode }
    }
}

impl Default for ColorTable {
    fn default() -> (r: ColorTable)
        ensures
            forall|i: int| 0 <= i < 16 ==> (#[trigger] r.map@[i])@ == default_map_entry(i),
            r.normal == (7u8, 0u8),
            r.frame == (7u8, 0u8),
            forall|i: int| 0 <= i < 16 ==> #[trigger] r.alternate@[i] == alternate_entry(atc_order()[i]),
            r.mode == ColorMode::Sgr,
    {
        ColorTable {
            map: default_map(),
            normal: (7, 0),
            frame: (7, 0),
            alternate: default_alternate(),
            mode: ColorMode::Sgr,
        }
    }
}

/// Mode settings that change how renditions are coloured.
#[derive(Debug, Clone, Copy, PartialEq, Eq, Structural)]
pub struct ColorOptions {
    /// DECBBSM: bold and blink affect the background too.
    pub bold_blink_background: bool,
    /// DECATCUM: underlined text is also underlined in alternate colour mode.
    pub alternate_underline: bool,
    /// DECATCBM: blinking text also blinks in alternate colour mode.
    pub alternate_blink: bool,
}

impl Default for ColorOptions {
    fn default() -> (r: ColorOptions)
        ensures
            !r.bold_blink_background && !r.alternate_underline && !r.alternate_blink,
    {
        ColorOptions { bold_blink_background: false, alternate_underline: false, alternate_blink: false }
    }
}

/// How a cell is drawn.
#[derive(Debug, Clone, Copy, PartialEq, Eq)]
pub struct CellColors {
    pub fg: Rgb100,
    pub bg: Rgb100,
    pub underline: bool,
    /// The glyph is not drawn (invisible, or the off phase of blinking).
    pub hidden: bool,
}

/// What a drawn cell looks like: foreground, background, underline, hidden.
pub ghost struct ColorsView {
    pub fg: Seq<u8>,
    pub bg: Seq<u8>,
    pub underline: bool,
    pub hidden: bool,
}

/// A colour index from a rendition colour: an index below 16, else `d`.
pub open spec fn color_index(c: Color, d: u8) -> u8 {
    match c {
        Color::Indexed(i) => if i < 16 { i } else { d },
        _ => d,
    }
}

/// The blink cycle's dimmer, less saturated shade: each component moved
/// towards the grey of the colour and scaled by 0.3.
pub open spec fn dimmer_spec(c: Seq<u8>) -> Seq<u8> {
    let grey = (c[0] + c[1] + c[2]) / 3;
    Seq::new(3, |i: int| ((c[i] + grey) * 3 / 10) as u8)
}

/// The colours a table gives a cell.
pub open spec fn resolved(t: ColorTable, attrs: Attrs, options: ColorOptions, blink_on: bool) -> ColorsView {
    let f = attrs.flags;
    let bold = has(f, BOLD);
    let blink = has(f, BLINK);
    let n0 = t.normal.0;
    let n1 = t.normal.1;
    let fg_i = color_index(attrs.fg, n0);
    let bg_i = color_index(attrs.bg, n1);
    let (fg, bg, underline, blinks) = if has(f, COLOR_ALTERNATE) {
        (t.map@[fg_i as int]@, t.map@[bg_i as int]@, has(f, UNDERLINE) && options.alternate_underline, blink
            && options.alternate_blink)
    } else if has(f, COLOR_MONO) {
        let fc: Seq<u8> = if bold { seq![100, 100, 100] } else { seq![67, 67, 67] };
        if has(f, REVERSE) {
            (seq![0u8, 0, 0], fc, has(f, UNDERLINE), blink)
        } else {
            (fc, seq![0u8, 0, 0], has(f, UNDERLINE), blink)
        }
    } else {
        let fi: u8 = if bold { fg_i | 8 } else { fg_i };
        let bi: u8 = if bold && options.bold_blink_background { bg_i | 8 } else { bg_i };
        let fc = t.map@[fi as int]@;
        let bc = t.map@[bi as int]@;
        if has(f, REVERSE) {
            (bc, fc, has(f, UNDERLINE), blink)
        } else {
            (fc, bc, has(f, UNDERLINE), blink)
        }
    };
    let fg2 = if blinks && !blink_on { dimmer_spec(fg) } else { fg };
    let bg2 = if blinks && !blink_on && options.bold_blink_background { dimmer_spec(bg) } else { bg };
    let hidden = has(f, INVISIBLE);
    ColorsView { fg: if hidden { bg2 } else { fg2 }, bg: bg2, underline, hidden }
}

/// The dimmer shade of a colour.
fn dimmer(c: Rgb100) -> (r: Rgb100)
    ensures
        r@ == dimmer_spec(c@),
{
    let grey: u16 = (c[0] as u16 + c[1] as u16 + c[2] as u16) / 3;
    let a = ((c[0] as u16 + grey) * 3 / 10) as u8;
    let b = ((c[1] as u16 + grey) * 3 / 10) as u8;
    let d = ((c[2] as u16 + grey) * 3 / 10) as u8;
    let r = [a, b, d];
    assert(r@ =~= dimmer_spec(c@));
    r
}

impl ColorTable {
    /// Position of an attribute combination in the DECATC table.
    pub fn alternate_index(flags: Flags) -> (r: usize)
        ensures
            r < 16,
            atc_order()[r as int] == atc_bits_of(flags),
    {
        let bits: u8 = (if flags.contains(Flags::bold()) { 1u8 } else { 0 }) + (if flags.contains(Flags::reverse()) {
            2u8
        } else {
            0
        }) + (if flags.contains(Flags::underline()) { 4u8 } else { 0 }) + (if flags.contains(Flags::blink()) {
            8u8
        } else {
            0
        });
        let mut i: usize = 0;
        while i < 16
            invariant
                i <= 16,
                bits == atc_bits_of(flags),
                bits < 16,
                forall|j: int| 0 <= j < i ==> atc_order()[j] != bits,
            decreases 16 - i,
        {
            if atc_bits(i) == bits {
                return i;
            }
            i = i + 1;
        }
        assert(atc_order()[bits as int] == bits) by {
            assert(atc_order() =~= seq![0u8, 1, 2, 4, 8, 3, 5, 9, 6, 10, 12, 7, 11, 13, 14, 15]);
        }
        0
    }

    /// The attributes a character is written with. The colour mode in
    /// effect when a character is written decides its colours: alternate
    /// mode stores the DECATC colours in the cell.
    pub fn attrs_for_writing(&self, attrs: Attrs) -> (r: Attrs)
        ensures
            self.mode == ColorMode::Sgr ==> r == attrs,
            (self.mode == ColorMode::Alternate || self.mode == ColorMode::Alternate2) ==> exists|i: int|
                0 <= i < 16 && atc_order()[i] == atc_bits_of(attrs.flags) && r == (Attrs {
                    fg: Color::Indexed(self.alternate@[i].0),
                    bg: Color::Indexed(self.alternate@[i].1),
                    flags: Flags(attrs.flags.0 | COLOR_ALTERNATE),
                }),
            self.mode == ColorMode::Mono ==> r == (Attrs { flags: Flags(attrs.flags.0 | COLOR_MONO), ..attrs }),
    {
        let mut a = attrs;
        match self.mode {
            ColorMode::Sgr => {},
            ColorMode::Alternate | ColorMode::Alternate2 => {
                let i = Self::alternate_index(a.flags);
                let (fg, bg) = self.alternate[i];
                a.fg = Color::Indexed(fg);
                a.bg = Color::Indexed(bg);
                a.flags.set(Flags::color_alternate(), true);
            },
            ColorMode::Mono => a.flags.set(Flags::color_mono(), true),
        }
        a
    }

    /// Colours for a cell. `blink_on` is the visible phase of the blink
    /// cycle.
    pub fn resolve(&self, attrs: Attrs, options: ColorOptions, blink_on: bool) -> (r: CellColors)
        requires
            self.normal.0 < 16,
            self.normal.1 < 16,
        ensures
            ({
                let v = resolved(*self, attrs, options, blink_on);
                r.fg@ == v.fg && r.bg@ == v.bg && r.underline == v.underline && r.hidden == v.hidden
            }),
    {
        let f = attrs.flags;
        let bold = f.contains(Flags::bold());
        let blink = f.contains(Flags::blink());
        let fg_i = index_of(attrs.fg, self.normal.0);
        let bg_i = index_of(attrs.bg, self.normal.1);
        let (mut fg, mut bg, underline, blinks): (Rgb100, Rgb100, bool, bool) = if f.contains(
            Flags::color_alternate(),
        ) {
            (
                self.map[fg_i as usize],
                self.map[bg_i as usize],
                f.contains(Flags::underline()) && options.alternate_underline,
                blink && options.alternate_blink,
            )
        } else if f.contains(Flags::color_mono()) {
            let fc: Rgb100 = if bold { [100, 100, 100] } else { [67, 67, 67] };
            if f.contains(Flags::reverse()) {
                ([0, 0, 0], fc, f.contains(Flags::underline()), blink)
            } else {
                (fc, [0, 0, 0], f.contains(Flags::underline()), blink)
            }
        } else {
            let fi: u8 = if bold { fg_i | 8 } else { fg_i };
            let bi: u8 = if bold && options.bold_blink_background { bg_i | 8 } else { bg_i };
            proof {
                assert(fg_i < 16 ==> fg_i | 8 < 16) by (bit_vector);
                assert(bg_i < 16 ==> bg_i | 8 < 16) by (bit_vector);
            }
            let fc = self.map[fi as usize];
            let bc = self.map[bi as usize];
            if f.contains(Flags::reverse()) {
                (bc, fc, f.contains(Flags::underline()), blink)
            } else {
                (fc, bc, f.contains(Flags::underline()), blink)
            }
        };
        let ghost v = resolved(*self, attrs, options, blink_on);
        proof {
            let mono3: Seq<u8> = seq![0u8, 0, 0];
            assert([0u8, 0, 0]@ =~= mono3);
            assert([100u8, 100, 100]@ =~= seq![100u8, 100, 100]);
            assert([67u8, 67, 67]@ =~= seq![67u8, 67, 67]);
        }
        if blinks && !blink_on {
            fg = dimmer(fg);
            if options.bold_blink_background {
                bg = dimmer(bg);
            }
        }
        let hidden = f.contains(Flags::invisible());
        if hidden {
            fg = bg;
        }
        CellColors { fg, bg, underline, hidden }
    }
}

/// A colour index from a rendition colour: an index below 16, else `d`.
fn index_of(c: Color, d: u8) -> (r: u8)
    ensures
        r == color_index(c, d),
{
    match c {
        Color::Indexed(i) => if i < 16 {
            i
        } else {
            d
        },
        _ => d,
    }
}

/// A resolved cell is underlined exactly when its rendition has the
/// underline flag (bit 1), with or without reverse video, in SGR and
/// monochrome colour; with the alternate colour flag (bit 6) only when the
/// options also keep underline for alternate colour. It is hidden exactly
/// when the rendition has the invisible flag (bit 4).
pub proof fn lemma_underline_and_hidden_follow_rendition(
    t: ColorTable,
    attrs: Attrs,
    options: ColorOptions,
    blink_on: bool,
)
    ensures
        ({
            let v = resolved(t, attrs, options, blink_on);
            let f = attrs.flags.0;
            &&& (f & 64u16) != 64u16 ==> v.underline == ((f & 2u16) == 2u16)
            &&& (f & 64u16) == 64u16 ==> v.underline == ((f & 2u16) == 2u16 && options.alternate_underline)
            &&& v.hidden == ((f & 16u16) == 16u16)
        }),
{
}

/// Reverse video swaps the foreground and background of a cell in SGR
/// colour: toggling the reverse flag (bit 3) alone, on a cell that neither
/// blinks nor is hidden, exchanges the two colours.
pub proof fn lemma_reverse_swaps_colours(t: ColorTable, attrs: Attrs, options: ColorOptions, blink_on: bool)
    requires
        attrs.flags.0 & (64u16 | 128u16 | 8u16 | 4u16 | 16u16) == 0,
    ensures
        ({
            let plain = resolved(t, attrs, options, blink_on);
            let rev = resolved(t, Attrs { flags: Flags(attrs.flags.0 | 8u16), ..attrs }, options, blink_on);
            rev.fg == plain.bg && rev.bg == plain.fg && rev.underline == plain.underline
        }),
{
    let f = attrs.flags.0;
    assert(f & (64u16 | 128u16 | 8u16 | 4u16 | 16u16) == 0 ==> (f & 64u16 != 64u16 && f & 128u16 != 128u16 && f & 8u16
        != 8u16 && f & 4u16 != 4u16 && f & 16u16 != 16u16)) by (bit_vector);
    assert(f & (64u16 | 128u16 | 8u16 | 4u16 | 16u16) == 0 ==> ((f | 8u16) & 64u16 != 64u16 && (f | 8u16) & 128u16 != 128u16 && (f | 8u16) & 8u16
        == 8u16 && (f | 8u16) & 4u16 != 4u16 && (f | 8u16) & 16u16 != 16u16 && ((f | 8u16) & 1u16 == 1u16) == (f & 1u16 == 1u16) && ((f | 8u16) & 2u16
        == 2u16) == (f & 2u16 == 2u16))) by (bit_vector);
}

/// Setting bit 3 of a colour index below 16 turns colours 0 to 7 into 8
/// to 15 and leaves 8 to 15 as they are.
proof fn lemma_bright(i: u8)
    requires
        i < 16,
    ensures
        (i | 8u8) == (if i < 8 { (i + 8) as u8 } else { i }),
{
    assert(i < 16 ==> (i | 8u8) == (if i < 8 { (i + 8) as u8 } else { i })) by (bit_vector);
}

/// In SGR colour, a cell that neither blinks, is reversed nor hidden shows
/// the table colour its rendition names: an indexed colour below 16, else
/// the table's normal foreground or background; bold brightens the
/// foreground to the colour eight above (and the background too when bold
/// and blink select the background), colours 8 to 15 staying as they are.
pub proof fn lemma_sgr_colours(t: ColorTable, attrs: Attrs, options: ColorOptions, blink_on: bool)
    requires
        attrs.flags.0 & (64u16 | 128u16 | 4u16 | 8u16 | 16u16) == 0,
        t.normal.0 < 16,
        t.normal.1 < 16,
    ensures
        ({
            let v = resolved(t, attrs, options, blink_on);
            let bold = attrs.flags.0 & 1u16 == 1u16;
            let fi: u8 = match attrs.fg {
                Color::Indexed(i) => if i < 16 { i } else { t.normal.0 },
                _ => t.normal.0,
            };
            let bi: u8 = match attrs.bg {
                Color::Indexed(i) => if i < 16 { i } else { t.normal.1 },
                _ => t.normal.1,
            };
            let f2: int = if bold && fi < 8 { fi + 8 } else { fi as int };
            let b2: int = if bold && options.bold_blink_background && bi < 8 { bi + 8 } else { bi as int };
            &&& v.fg == t.map@[f2]@
            &&& v.bg == t.map@[b2]@
            &&& !v.hidden
        }),
{
    let f = attrs.flags.0;
    assert(f & (64u16 | 128u16 | 4u16 | 8u16 | 16u16) == 0 ==> (f & 64u16 != 64u16 && f & 128u16 != 128u16 && f & 4u16
        != 4u16 && f & 8u16 != 8u16 && f & 16u16 != 16u16)) by (bit_vector);
    let fi = color_index(attrs.fg, t.normal.0);
    let bi = color_index(attrs.bg, t.normal.1);
    lemma_bright(fi);
    lemma_bright(bi);
}

/// In monochrome colour (bit 7 without bit 6) a cell is bright white when
/// bold, else grey, on black, or black on that with reverse video, unless
/// it blinks in the off phase or is hidden.
pub proof fn lemma_mono_colours(t: ColorTable, attrs: Attrs, options: ColorOptions, blink_on: bool)
    requires
        attrs.flags.0 & 64u16 == 0,
        attrs.flags.0 & 128u16 == 128u16,
        attrs.flags.0 & (4u16 | 16u16) == 0,
    ensures
        ({
            let v = resolved(t, attrs, options, blink_on);
            let lit: Seq<u8> = if attrs.flags.0 & 1u16 == 1u16 { seq![100u8, 100, 100] } else { seq![67u8, 67, 67] };
            let black: Seq<u8> = seq![0u8, 0, 0];
            &&& attrs.flags.0 & 8u16 == 0 ==> v.fg == lit && v.bg == black
            &&& attrs.flags.0 & 8u16 == 8u16 ==> v.fg == black && v.bg == lit
        }),
{
    let f = attrs.flags.0;
    assert(f & (4u16 | 16u16) == 0 ==> (f & 4u16 != 4u16 && f & 16u16 != 16u16)) by (bit_vector);
    assert(f & 8u16 == 0 ==> f & 8u16 != 8u16) by (bit_vector);
}

/// A hidden cell (bit 4) shows its background in place of its glyph.
pub proof fn lemma_hidden_shows_background(t: ColorTable, attrs: Attrs, options: ColorOptions, blink_on: bool)
    requires
        attrs.flags.0 & 16u16 == 16u16,
    ensures
        resolved(t, attrs, options, blink_on).fg == resolved(t, attrs, options, blink_on).bg,
        resolved(t, attrs, options, blink_on).hidden,
{
}

} // verus!
