//! Downloadable soft character sets (DECDLD / DRCS).

use vstd::prelude::*;
use crate::charset::SOFT_BASE;
use crate::text::{split, split_bytes, views};

verus! {

/// Number of font buffers (Pfn 1–2; Pfn 0 selects the first free one).
pub const BUFFERS: usize = 2;

/// Header parameters of a DECDLD string.
#[derive(Debug, Clone, Copy, PartialEq, Eq, Structural)]
pub struct DldParams {
    pub font_number: u16,
    pub start: u16,
    pub erase: u16,
    pub width: u16,
    pub font_set_size: u16,
    pub text_or_full_cell: u16,
    pub height: u16,
    pub is_96: bool,
}

/// A soft glyph: `height` rows of up to 16 dots, bit 0 leftmost.
#[derive(Debug, Clone, PartialEq, Eq)]
pub struct SoftGlyph {
    pub width: u8,
    pub height: u8,
    pub rows: Vec<u16>,
}

/// What a glyph holds: width, height and rows.
pub type GlyphView = (u8, u8, Seq<u16>);

pub open spec fn glyph_view(g: SoftGlyph) -> GlyphView {
    (g.width, g.height, g.rows@)
}

pub open spec fn opt_glyph_view(o: Option<SoftGlyph>) -> Option<GlyphView> {
    match o {
        Some(g) => Some(glyph_view(g)),
        None => None,
    }
}

/// The glyphs of one rendition (80 or 132 columns), for the 96 positions
/// of a set.
#[derive(Debug, Clone, PartialEq, Eq)]
struct Rendition {
    glyphs: Vec<Option<SoftGlyph>>,
}

spec fn rendition_view(r: Rendition) -> Seq<Option<GlyphView>> {
    Seq::new(r.glyphs@.len(), |i: int| opt_glyph_view(r.glyphs@[i]))
}

/// A rendition with no glyph loaded.
pub open spec fn empty_rendition() -> Seq<Option<GlyphView>> {
    Seq::new(96, |i: int| None::<GlyphView>)
}

impl Rendition {
    fn new() -> (r: Rendition)
        ensures
            rendition_view(r) == empty_rendition(),
    {
        let mut glyphs: Vec<Option<SoftGlyph>> = Vec::new();
        let mut i: usize = 0;
        while i < 96
            invariant
                i <= 96,
                glyphs@.len() == i,
                forall|j: int| 0 <= j < i ==> glyphs@[j] is None,
            decreases 96 - i,
        {
            glyphs.push(None);
            i = i + 1;
        }
        let r = Rendition { glyphs };
        assert(rendition_view(r) =~= empty_rendition());
        r
    }
}

#[derive(Debug, Clone, PartialEq, Eq)]
struct Buffer {
    designation: Vec<u8>,
    is_96: bool,
    height: u8,
    /// The 80-column rendition.
    narrow: Rendition,
    /// The 132-column rendition.
    wide: Rendition,
}

/// What a font buffer holds: its designation (intermediates and final),
/// size, height and the two renditions (index 0: 80 columns, 1: 132).
pub ghost struct BufferView {
    pub designation: Seq<u8>,
    pub is_96: bool,
    pub height: u8,
    pub renditions: Seq<Seq<Option<GlyphView>>>,
}

spec fn buffer_view(b: Buffer) -> BufferView {
    BufferView {
        designation: b.designation@,
        is_96: b.is_96,
        height: b.height,
        renditions: seq![rendition_view(b.narrow), rendition_view(b.wide)],
    }
}

spec fn opt_buffer_view(o: Option<Buffer>) -> Option<BufferView> {
    match o {
        Some(b) => Some(buffer_view(b)),
        None => None,
    }
}

/// Every rendition of a buffer has the 96 positions.
pub open spec fn buffer_wf(b: Option<BufferView>) -> bool {
    match b {
        Some(b) => b.renditions.len() == 2 && b.renditions[0].len() == 96 && b.renditions[1].len() == 96,
        None => true,
    }
}

/// The soft fonts: two buffers, and which of them was loaded last.
#[derive(Debug, Clone, PartialEq, Eq)]
pub struct SoftFonts {
    first: Option<Buffer>,
    second: Option<Buffer>,
    /// The buffer the last successful load went to (0 or 1).
    newest: u8,
}

impl SoftFonts {
    /// The two buffers.
    pub closed spec fn view(&self) -> Seq<Option<BufferView>> {
        seq![opt_buffer_view(self.first), opt_buffer_view(self.second)]
    }

    /// The buffer the last successful load went to.
    pub closed spec fn newest(&self) -> nat {
        self.newest as nat
    }

    /// Every loaded buffer has both renditions of 96 positions.
    pub open spec fn wf(&self) -> bool {
        buffer_wf(self.view()[0]) && buffer_wf(self.view()[1]) && self.newest() < 2
    }

    /// No soft font loaded.
    pub fn new() -> (r: SoftFonts)
        ensures
            r.wf(),
            r.view() == seq![None::<BufferView>, None],
    {
        SoftFonts { first: None, second: None, newest: 1 }
    }

    /// Drops every soft font.
    pub fn clear(&mut self)
        ensures
            final(self).wf(),
            final(self).view() == seq![None::<BufferView>, None],
    {
        self.first = None;
        self.second = None;
        self.newest = 1;
    }
}

impl Default for SoftFonts {
    fn default() -> (r: SoftFonts)
        ensures
            r.wf(),
            r.view() == seq![None::<BufferView>, None],
    {
        SoftFonts::new()
    }
}

/// Whether a buffer is loaded with this designation and size.
pub open spec fn designates(b: Option<BufferView>, designation: Seq<u8>, is_96: bool) -> bool {
    match b {
        Some(b) => b.designation == designation && b.is_96 == is_96,
        None => false,
    }
}

/// Default matrix size by conformance level: (80-column width, 132-column
/// width, height).
pub open spec fn default_matrix_spec(level: u8) -> (u8, u8, u8) {
    if level <= 2 {
        (8, 5, 10)
    } else if level == 3 {
        (15, 9, 12)
    } else {
        (10, 6, 16)
    }
}

/// Default matrix size by conformance level: (80-column width, 132-column
/// width, height).
pub fn default_matrix(level: u8) -> (r: (u8, u8, u8))
    ensures
        r == default_matrix_spec(level),
{
    if level <= 2 {
        (8, 5, 10)
    } else if level == 3 {
        (15, 9, 12)
    } else {
        (10, 6, 16)
    }
}

/// A sixel data byte.
pub open spec fn is_sixel(b: u8) -> bool {
    0x3F <= b <= 0x7E
}

/// The sixel data bytes of a band, other bytes skipped.
pub open spec fn sixels(s: Seq<u8>) -> Seq<u8>
    decreases s.len(),
{
    if s.len() == 0 {
        s
    } else {
        let r = sixels(s.drop_last());
        if is_sixel(s.last()) { r.push(s.last()) } else { r }
    }
}

/// Whether dot `bit` (0 top) of a sixel is set.
pub open spec fn sixel_bit(s: u8, bit: u8) -> bool {
    (((s - 0x3F) as u8 >> bit) & 1u8) == 1u8
}

/// The dots of row `bit` of a band, in its first `n` columns: bit `x` of
/// the row is column `x`.
pub open spec fn row_value(s: Seq<u8>, bit: u8, n: nat) -> u16
    decreases n,
{
    if n == 0 {
        0
    } else {
        row_value(s, bit, (n - 1) as nat) | (if sixel_bit(s[n - 1], bit) { 1u16 << ((n - 1) as u16) } else { 0u16 })
    }
}

/// The rows of a glyph from its sixel data: bands of six rows separated by
/// `/`, one sixel per column up to the matrix width; rows past the bands are
/// empty.
pub open spec fn glyph_rows(g: Seq<u8>, width: u8, height: u8) -> Seq<u16> {
    Seq::new(
        height as nat,
        |y: int|
            {
                let bands = split(g, 47);
                let b = y / 6;
                if b < bands.len() {
                    let s = sixels(bands[b]);
                    row_value(s, (y % 6) as u8, if (width as nat) < s.len() { width as nat } else { s.len() })
                } else {
                    0u16
                }
            },
    )
}

/// The sixel data bytes of a band.
fn sixels_of(s: &[u8]) -> (r: Vec<u8>)
    ensures
        r@ == sixels(s@),
{
    let mut r: Vec<u8> = Vec::new();
    let mut i: usize = 0;
    while i < s.len()
        invariant
            i <= s@.len(),
            r@ == sixels(s@.subrange(0, i as int)),
        decreases s@.len() - i,
    {
        proof {
            assert(s@.subrange(0, i + 1).drop_last() =~= s@.subrange(0, i as int));
        }
        if 0x3F <= s[i] && s[i] <= 0x7E {
            r.push(s[i]);
        }
        i = i + 1;
    }
    assert(s@.subrange(0, i as int) =~= s@);
    r
}

/// The dots of row `bit` of a band in its first `n` columns.
fn row_value_of(s: &[u8], bit: u8, n: usize) -> (r: u16)
    requires
        n <= s@.len(),
        n <= 16,
        bit < 6,
        forall|i: int| 0 <= i < s@.len() ==> is_sixel(#[trigger] s@[i]),
    ensures
        r == row_value(s@, bit, n as nat),
{
    let mut acc: u16 = 0;
    let mut x: usize = 0;
    while x < n
        invariant
            x <= n,
            n <= s@.len(),
            n <= 16,
            bit < 6,
            forall|i: int| 0 <= i < s@.len() ==> is_sixel(#[trigger] s@[i]),
            acc == row_value(s@, bit, x as nat),
        decreases n - x,
    {
        let c = s[x];
        assert(is_sixel(c));
        let bits: u8 = c - 0x3F;
        let on = ((bits >> bit) & 1u8) == 1u8;
        let shift = x as u16;
        acc = acc | (if on { 1u16 << shift } else { 0u16 });
        x = x + 1;
    }
    acc
}

/// The rows of a glyph from its sixel data.
fn glyph_rows_of(g: &[u8], width: u8, height: u8) -> (r: Vec<u16>)
    requires
        width <= 16,
    ensures
        r@ == glyph_rows(g@, width, height),
{
    let bands = split_bytes(g, 47);
    let ghost bs = views(bands@);
    let mut sx: Vec<Vec<u8>> = Vec::new();
    let mut k: usize = 0;
    while k < bands.len()
        invariant
            k <= bands@.len(),
            bs == views(bands@),
            sx@.len() == k,
            forall|j: int| 0 <= j < k ==> (#[trigger] sx@[j])@ == sixels(bs[j]),
        decreases bands@.len() - k,
    {
        let s = sixels_of(bands[k].as_slice());
        sx.push(s);
        k = k + 1;
    }
    let mut rows: Vec<u16> = Vec::new();
    let mut y: u8 = 0;
    while y < height
        invariant
            y <= height,
            width <= 16,
            bs == views(bands@),
            bs == split(g@, 47),
            sx@.len() == bands@.len(),
            forall|j: int| 0 <= j < bands@.len() ==> (#[trigger] sx@[j])@ == sixels(bs[j]),
            rows@ == glyph_rows(g@, width, height).subrange(0, y as int),
        decreases height - y,
    {
        let b = (y / 6) as usize;
        let bit = y % 6;
        let row: u16 = if b < sx.len() {
            let s = sx[b].as_slice();
            proof {
                lemma_sixels_all(bs[b as int]);
            }
            let n = if (width as usize) < s.len() { width as usize } else { s.len() };
            row_value_of(s, bit, n)
        } else {
            0
        };
        rows.push(row);
        y = y + 1;
        assert(rows@ =~= glyph_rows(g@, width, height).subrange(0, y as int));
    }
    assert(glyph_rows(g@, width, height).subrange(0, height as int) =~= glyph_rows(g@, width, height));
    rows
}

/// Every byte `sixels` keeps is sixel data.
proof fn lemma_sixels_all(s: Seq<u8>)
    ensures
        forall|i: int| 0 <= i < sixels(s).len() ==> is_sixel(#[trigger] sixels(s)[i]),
    decreases s.len(),
{
    if s.len() > 0 {
        lemma_sixels_all(s.drop_last());
        let r = sixels(s.drop_last());
        assert forall|i: int| 0 <= i < sixels(s).len() implies is_sixel(#[trigger] sixels(s)[i]) by {
            if i < r.len() {
                assert(sixels(s)[i] == r[i]);
            }
        }
    }
}

/// The number of leading intermediate bytes (0x20–0x2F).
pub open spec fn leading_intermediates(d: Seq<u8>) -> nat
    decreases d.len(),
{
    if d.len() > 0 && 0x20 <= d[0] <= 0x2F { 1 + leading_intermediates(d.drop_first()) } else { 0 }
}

/// Why a DECDLD string is refused, checked in this order; `None` when it
/// is accepted.
pub open spec fn load_error(params: DldParams, data: Seq<u8>) -> Option<Seq<char>> {
    let size = params.font_set_size;
    let inter = leading_intermediates(data);
    if !(size == 0 || size == 1 || size == 2 || size == 11 || size == 12 || size == 21 || size == 22) {
        Some("unsupported font set size"@)
    } else if !(params.width == 0 || (2 <= params.width <= 16)) {
        Some("bad matrix width"@)
    } else if params.height > 16 {
        Some("bad matrix height"@)
    } else if inter > 2 || data.len() <= inter || !(0x30 <= data[inter as int] <= 0x7E) {
        Some("bad designator"@)
    } else if params.font_number > 2 {
        Some("bad font number"@)
    } else {
        None
    }
}

/// A 132-column font set size.
pub open spec fn is_wide(params: DldParams) -> bool {
    params.font_set_size == 2 || params.font_set_size == 12 || params.font_set_size == 22
}

/// The matrix width of an accepted load.
pub open spec fn load_width(params: DldParams, level: u8) -> u8 {
    if params.width == 0 {
        if is_wide(params) { default_matrix_spec(level).1 } else { default_matrix_spec(level).0 }
    } else {
        params.width as u8
    }
}

/// The matrix height of an accepted load.
pub open spec fn load_height(params: DldParams, level: u8) -> u8 {
    if params.height == 0 { default_matrix_spec(level).2 } else { params.height as u8 }
}

/// The buffer a load goes to: Pfn 1 or 2, or for Pfn 0 the first free one
/// (the first when both are loaded).
pub open spec fn load_slot(v: Seq<Option<BufferView>>, params: DldParams) -> int {
    if params.font_number == 0 {
        if v[0] is None { 0 } else if v[1] is None { 1 } else { 0 }
    } else {
        params.font_number - 1
    }
}

/// Glyphs `start`, `start + 1`, … replaced by the pieces, up to position 95.
pub open spec fn glyphs_loaded(
    gl: Seq<Option<GlyphView>>,
    start: nat,
    pieces: Seq<Seq<u8>>,
    width: u8,
    height: u8,
) -> Seq<Option<GlyphView>> {
    Seq::new(
        gl.len(),
        |i: int|
            if start <= i < start + pieces.len() && i < 96 {
                Some((width, height, glyph_rows(pieces[i - start], width, height)))
            } else {
                gl[i]
            },
    )
}

/// The buffers after an accepted load: the buffer is reset when its
/// designation, height or size changes or Pe is 2; Pe 0 clears the
/// rendition first; then the glyphs separated by `;` are loaded from Pcn.
pub open spec fn loaded(v: Seq<Option<BufferView>>, params: DldParams, data: Seq<u8>, level: u8) -> Seq<
    Option<BufferView>,
> {
    let width = load_width(params, level);
    let height = load_height(params, level);
    let inter = leading_intermediates(data);
    let designation = data.subrange(0, inter as int + 1);
    let glyph_data = data.subrange(inter as int + 1, data.len() as int);
    let slot = load_slot(v, params);
    let b0 = v[slot];
    let reshaped = match b0 {
        None => true,
        Some(b) => b.designation != designation || b.height != height || b.is_96 != params.is_96,
    };
    let b1 = if reshaped || params.erase == 2 {
        BufferView {
            designation,
            is_96: params.is_96,
            height,
            renditions: seq![empty_rendition(), empty_rendition()],
        }
    } else {
        b0->0
    };
    let r: int = if is_wide(params) { 1 } else { 0 };
    let before = if params.erase == 0 { empty_rendition() } else { b1.renditions[r] };
    let after = glyphs_loaded(before, params.start as nat, split(glyph_data, 59), width, height);
    v.update(slot, Some(BufferView { renditions: b1.renditions.update(r, after), ..b1 }))
}

/// The number of leading intermediate bytes.
fn count_intermediates(d: &[u8]) -> (r: usize)
    ensures
        r == leading_intermediates(d@),
{
    let mut i: usize = 0;
    assert(d@.subrange(0, d@.len() as int) =~= d@);
    while i < d.len() && 0x20 <= d[i] && d[i] <= 0x2F
        invariant
            i <= d@.len(),
            leading_intermediates(d@) == i + leading_intermediates(d@.subrange(i as int, d@.len() as int)),
        decreases d@.len() - i,
    {
        proof {
            let t = d@.subrange(i as int, d@.len() as int);
            assert(t.drop_first() =~= d@.subrange(i + 1, d@.len() as int));
        }
        i = i + 1;
    }
    proof {
        let t = d@.subrange(i as int, d@.len() as int);
        if t.len() > 0 {
            assert(t[0] == d@[i as int]);
        }
    }
    i
}

/// Loads glyphs into a rendition from the pieces, starting at `start`.
fn load_glyphs(rend: &mut Rendition, start: u16, pieces: &Vec<Vec<u8>>, width: u8, height: u8)
    requires
        rendition_view(*old(rend)).len() == 96,
        width <= 16,
    ensures
        rendition_view(*final(rend)) == glyphs_loaded(rendition_view(*old(rend)), start as nat, views(pieces@), width, height),
{
    let ghost before = rendition_view(*rend);
    let mut n: usize = 0;
    while n < pieces.len()
        invariant
            n <= pieces@.len(),
            width <= 16,
            rend.glyphs@.len() == 96,
            before.len() == 96,
            forall|i: int|
                0 <= i < 96 ==> #[trigger] rendition_view(*rend)[i] == (if start <= i < start + n {
                    Some((width, height, glyph_rows(views(pieces@)[i - start], width, height)))
                } else {
                    before[i]
                }),
        ensures
            forall|i: int|
                0 <= i < 96 ==> #[trigger] rendition_view(*rend)[i] == (if start <= i < start + pieces@.len() && i < 96 {
                    Some((width, height, glyph_rows(views(pieces@)[i - start], width, height)))
                } else {
                    before[i]
                }),
        decreases pieces@.len() - n,
    {
        if (start as usize) >= 96 || n >= 96 - (start as usize) {
            break;
        }
        let index = start as usize + n;
        let rows = glyph_rows_of(pieces[n].as_slice(), width, height);
        proof {
            assert(views(pieces@)[n as int] == pieces@[n as int]@);
        }
        let ghost prev = rendition_view(*rend);
        let ghost rv = rows@;
        rend.glyphs.set(index, Some(SoftGlyph { width, height, rows }));
        assert(rendition_view(*rend) =~= prev.update(index as int, Some((width, height, rv))));
        n = n + 1;
    }
    assert(rendition_view(*rend) =~= glyphs_loaded(before, start as nat, views(pieces@), width, height));
}

impl SoftFonts {
    /// Finds the buffer designated by `designation` (intermediates + final).
    /// When two buffers share a designation the most recently loaded wins.
    pub fn find(&self, designation: &[u8], is_96: bool) -> (r: Option<u8>)
        requires
            self.wf(),
        ensures
            r == (if designates(self.view()[0], designation@, is_96) && designates(self.view()[1], designation@, is_96) {
                Some(self.newest() as u8)
            } else if designates(self.view()[1], designation@, is_96) {
                Some(1u8)
            } else if designates(self.view()[0], designation@, is_96) {
                Some(0u8)
            } else {
                None
            }),
    {
        let second = matches_buffer(&self.second, designation, is_96);
        let first = matches_buffer(&self.first, designation, is_96);
        if first && second {
            Some(self.newest)
        } else if second {
            Some(1)
        } else if first {
            Some(0)
        } else {
            None
        }
    }

    pub fn designation(&self, slot: u8) -> (r: Option<&[u8]>)
        ensures
            slot >= 2 ==> r is None,
            slot < 2 ==> match self.view()[slot as int] {
                Some(b) => r matches Some(d) && d@ == b.designation,
                None => r is None,
            },
    {
        let b = if slot == 0 {
            &self.first
        } else if slot == 1 {
            &self.second
        } else {
            return None;
        };
        match b {
            Some(b) => Some(b.designation.as_slice()),
            None => None,
        }
    }

    /// The glyph for a soft character, in the rendition for the column mode.
    pub fn glyph(&self, ch: char, columns_132: bool) -> (r: Option<&SoftGlyph>)
        ensures
            match soft_glyph(self.view(), ch, columns_132) {
                Some(g) => r matches Some(q) && glyph_view(*q) == g,
                None => r is None,
            },
    {
        let c = ch as u32;
        if c < SOFT_BASE {
            return None;
        }
        let offset = c - SOFT_BASE;
        let slot = offset / 256;
        let code = offset % 256;
        let b = if slot == 0 {
            &self.first
        } else if slot == 1 {
            &self.second
        } else {
            return None;
        };
        let buffer = match b {
            Some(b) => b,
            None => {
                return None;
            },
        };
        if code < 0x20 {
            return None;
        }
        let index = (code - 0x20) as usize;
        let rend = if columns_132 { &buffer.wide } else { &buffer.narrow };
        if index >= rend.glyphs.len() {
            return None;
        }
        match &rend.glyphs[index] {
            Some(g) => Some(g),
            None => None,
        }
    }

    /// Loads a DECDLD string. `data` is everything after the final `{`.
    pub fn load(&mut self, params: DldParams, data: &[u8], level: u8) -> (r: Result<(), &'static str>)
        requires
            old(self).wf(),
        ensures
            final(self).wf(),
            match load_error(params, data@) {
                Some(msg) => r matches Err(e) && e@ == msg && final(self).view() == old(self).view()
                    && final(self).newest() == old(self).newest(),
                None => r is Ok && final(self).view() == loaded(old(self).view(), params, data@, level)
                    && final(self).newest() == load_slot(old(self).view(), params),
            },
    {
        let size = params.font_set_size;
        let columns_132 = size == 2 || size == 12 || size == 22;
        if !(size == 0 || size == 1 || size == 2 || size == 11 || size == 12 || size == 21 || size == 22) {
            return Err("unsupported font set size");
        }
        let (w80, w132, default_height) = default_matrix(level);
        let width: u8 = if params.width == 0 {
            if columns_132 {
                w132
            } else {
                w80
            }
        } else if 2 <= params.width && params.width <= 16 {
            params.width as u8
        } else {
            return Err("bad matrix width");
        };
        let height: u8 = if params.height == 0 {
            default_height
        } else if params.height <= 16 {
            params.height as u8
        } else {
            return Err("bad matrix height");
        };
        let inter = count_intermediates(data);
        if inter > 2 || data.len() <= inter || !(0x30 <= data[inter] && data[inter] <= 0x7E) {
            return Err("bad designator");
        }
        let designation = crate::text::slice_to_vec(data, 0, inter + 1);
        let glyph_data = crate::text::slice_to_vec(data, inter + 1, data.len());
        let slot: u16 = if params.font_number == 0 {
            if self.first.is_none() {
                0
            } else if self.second.is_none() {
                1
            } else {
                0
            }
        } else if params.font_number <= 2 {
            params.font_number - 1
        } else {
            return Err("bad font number");
        };
        let ghost v = self.view();
        let current = if slot == 0 { self.first.take() } else { self.second.take() };
        let reshaped = match &current {
            None => true,
            Some(b) => !bytes_eq(&b.designation, &designation) || b.height != height || b.is_96 != params.is_96,
        };
        let mut buffer = if reshaped || params.erase == 2 {
            Buffer {
                designation,
                is_96: params.is_96,
                height,
                narrow: Rendition::new(),
                wide: Rendition::new(),
            }
        } else {
            match current {
                Some(b) => b,
                None => {
                    Buffer {
                        designation,
                        is_96: params.is_96,
                        height,
                        narrow: Rendition::new(),
                        wide: Rendition::new(),
                    }
                },
            }
        };
        let ghost b1 = buffer_view(buffer);
        if params.erase == 0 {
            if columns_132 {
                buffer.wide = Rendition::new();
            } else {
                buffer.narrow = Rendition::new();
            }
        }
        let pieces = split_bytes(glyph_data.as_slice(), 59);
        if columns_132 {
            load_glyphs(&mut buffer.wide, params.start, &pieces, width, height);
        } else {
            load_glyphs(&mut buffer.narrow, params.start, &pieces, width, height);
        }
        let ghost b3 = buffer_view(buffer);
        proof {
            let r: int = if columns_132 { 1 } else { 0 };
            assert(b3.renditions =~= b1.renditions.update(
                r,
                glyphs_loaded(
                    if params.erase == 0 { empty_rendition() } else { b1.renditions[r] },
                    params.start as nat,
                    split(glyph_data@, 59),
                    width,
                    height,
                ),
            ));
        }
        if slot == 0 {
            self.first = Some(buffer);
        } else {
            self.second = Some(buffer);
        }
        self.newest = slot as u8;
        assert(self.view() =~= loaded(v, params, data@, level));
        Ok(())
    }
}

/// The glyph shown for a character of a soft set.
pub open spec fn soft_glyph(v: Seq<Option<BufferView>>, ch: char, columns_132: bool) -> Option<GlyphView> {
    let c = ch as u32;
    if c < SOFT_BASE {
        None
    } else {
        let offset = c - SOFT_BASE;
        let slot = offset / 256;
        let code = offset % 256;
        if slot >= 2 {
            None
        } else {
            match v[slot] {
                None => None,
                Some(b) => if code < 0x20 {
                    None
                } else {
                    let rend = b.renditions[if columns_132 { 1int } else { 0 }];
                    let index = code - 0x20;
                    if index < rend.len() { rend[index] } else { None }
                },
            }
        }
    }
}

/// Whether a buffer is loaded with this designation and size.
fn matches_buffer(b: &Option<Buffer>, designation: &[u8], is_96: bool) -> (r: bool)
    ensures
        r == designates(opt_buffer_view(*b), designation@, is_96),
{
    match b {
        Some(b) => bytes_eq(&b.designation, designation) && b.is_96 == is_96,
        None => false,
    }
}

/// Whether two byte strings are equal.
fn bytes_eq(a: &[u8], b: &[u8]) -> (r: bool)
    ensures
        r == (a@ == b@),
{
    if a.len() != b.len() {
        return false;
    }
    let mut i: usize = 0;
    while i < a.len()
        invariant
            i <= a@.len(),
            a@.len() == b@.len(),
            forall|j: int| 0 <= j < i ==> a@[j] == b@[j],
        decreases a@.len() - i,
    {
        if a[i] != b[i] {
            return false;
        }
        i = i + 1;
    }
    assert(a@ =~= b@);
    true
}

} // verus!
