//! Graphic character sets and the ISO 2022 / DEC code extension state
//! (G0–G3, GL/GR invocation, single shifts).
//!
//! Sources: VT220 Programmer Reference tables 2-5 to 2-15 (NRC sets), VT510
//! Programmer Information chapter 5 (SCS designators) and the DEC Technical
//! character set chart at vt100.net.

use vstd::prelude::*;

verus! {

/// A national replacement character set (7-bit, 94 characters).
#[derive(Debug, Clone, Copy, PartialEq, Eq, Hash, Structural)]
pub enum Nrc {
    British,
    Dutch,
    Finnish,
    French,
    FrenchCanadian,
    German,
    Italian,
    NorwegianDanish,
    Portuguese,
    Spanish,
    Swedish,
    Swiss,
}

/// ASCII positions replaced by NRC sets: `#@[\]^_`{|}~`.
pub open spec fn nrc_positions() -> Seq<u8> {
    seq![35u8, 64, 91, 92, 93, 94, 95, 96, 123, 124, 125, 126]
}

/// The index of `code` among [`nrc_positions`], or -1.
pub open spec fn position_index(code: u8) -> int {
    match code {
        35 => 0,
        64 => 1,
        91 => 2,
        92 => 3,
        93 => 4,
        94 => 5,
        95 => 6,
        96 => 7,
        123 => 8,
        124 => 9,
        125 => 10,
        126 => 11,
        _ => -1,
    }
}

/// Replacement characters of each set for [`nrc_positions`].
pub open spec fn nrc_table(n: Nrc) -> Seq<char> {
    match n {
        Nrc::British => seq!['£', '@', '[', '\\', ']', '^', '_', '`', '{', '|', '}', '~'],
        Nrc::Dutch => seq!['£', '¾', 'ĳ', '½', '|', '^', '_', '`', '¨', 'ƒ', '¼', '´'],
        Nrc::Finnish => seq!['#', '@', 'Ä', 'Ö', 'Å', 'Ü', '_', 'é', 'ä', 'ö', 'å', 'ü'],
        Nrc::French => seq!['£', 'à', '°', 'ç', '§', '^', '_', '`', 'é', 'ù', 'è', '¨'],
        Nrc::FrenchCanadian => seq!['#', 'à', 'â', 'ç', 'ê', 'î', '_', 'ô', 'é', 'ù', 'è', 'û'],
        Nrc::German => seq!['#', '§', 'Ä', 'Ö', 'Ü', '^', '_', '`', 'ä', 'ö', 'ü', 'ß'],
        Nrc::Italian => seq!['£', '§', '°', 'ç', 'é', '^', '_', 'ù', 'à', 'ò', 'è', 'ì'],
        Nrc::NorwegianDanish => seq!['#', 'Ä', 'Æ', 'Ø', 'Å', 'Ü', '_', 'ä', 'æ', 'ø', 'å', 'ü'],
        Nrc::Portuguese => seq!['#', '@', 'Ã', 'Ç', 'Õ', '^', '_', '`', 'ã', 'ç', 'õ', '~'],
        Nrc::Spanish => seq!['£', '§', '¡', 'Ñ', '¿', '^', '_', '`', '°', 'ñ', 'ç', '~'],
        Nrc::Swedish => seq!['#', 'É', 'Ä', 'Ö', 'Å', 'Ü', '_', 'é', 'ä', 'ö', 'å', 'ü'],
        Nrc::Swiss => seq!['ù', 'à', 'é', 'ç', 'ê', 'î', 'è', 'ô', 'ä', 'ö', 'ü', 'û'],
    }
}

/// The first index of `x` in `s`, or -1.
pub open spec fn first_index<T>(s: Seq<T>, x: T) -> int
    decreases s.len(),
{
    if s.len() == 0 {
        -1
    } else if s[0] == x {
        0
    } else {
        let r = first_index(s.drop_first(), x);
        if r < 0 { -1 } else { r + 1 }
    }
}

proof fn lemma_first_index<T>(s: Seq<T>, x: T)
    ensures
        -1 <= first_index(s, x) < s.len(),
        first_index(s, x) >= 0 ==> s[first_index(s, x)] == x,
        first_index(s, x) >= 0 ==> forall|j: int| 0 <= j < first_index(s, x) ==> s[j] != x,
        first_index(s, x) < 0 ==> forall|j: int| 0 <= j < s.len() ==> s[j] != x,
    decreases s.len(),
{
    if s.len() > 0 && s[0] != x {
        lemma_first_index(s.drop_first(), x);
        let r = first_index(s.drop_first(), x);
        assert forall|j: int| 1 <= j < s.len() implies s[j] == s.drop_first()[j - 1] by {}
        if r < 0 {
            assert forall|j: int| 0 <= j < s.len() implies s[j] != x by {
                if j > 0 {
                    assert(s.drop_first()[j - 1] != x);
                }
            }
        } else {
            assert forall|j: int| 0 <= j < r + 1 implies s[j] != x by {
                if j > 0 {
                    assert(s.drop_first()[j - 1] != x);
                }
            }
        }
    }
}

/// What a code shows in a national set.
pub open spec fn nrc_map(n: Nrc, code: u8) -> char {
    if position_index(code) >= 0 {
        nrc_table(n)[position_index(code)]
    } else {
        code as char
    }
}

/// ASCII graphic characters (`!` to `~`).
pub open spec fn is_ascii_graphic(ch: char) -> bool {
    '!' <= ch <= '~'
}

/// The 7-bit code that displays `ch` in a national set: its replacement
/// position when the set has it, else the ASCII code when that position
/// is not replaced by something else.
pub open spec fn nrc_encode(n: Nrc, ch: char) -> Option<u8> {
    let i = first_index(nrc_table(n), ch);
    if i >= 0 {
        Some(nrc_positions()[i])
    } else if (is_ascii_graphic(ch) || ch == ' ') && (position_index(ch as u8) < 0 || nrc_map(
        n,
        ch as u8,
    ) == ch) {
        Some(ch as u8)
    } else {
        None
    }
}

fn positions() -> (r: [u8; 12])
    ensures
        r@ == nrc_positions(),
{
    let r: [u8; 12] = [35, 64, 91, 92, 93, 94, 95, 96, 123, 124, 125, 126];
    assert(r@ =~= nrc_positions());
    r
}

fn index_of_position(code: u8) -> (r: Option<usize>)
    ensures
        position_index(code) < 0 ==> r is None,
        position_index(code) >= 0 ==> r == Some(position_index(code) as usize),
{
    match code {
        35 => Some(0),
        64 => Some(1),
        91 => Some(2),
        92 => Some(3),
        93 => Some(4),
        94 => Some(5),
        95 => Some(6),
        96 => Some(7),
        123 => Some(8),
        124 => Some(9),
        125 => Some(10),
        126 => Some(11),
        _ => None,
    }
}

/// The first index of `ch` in `s`.
pub fn find_char(s: &[char], ch: char) -> (r: Option<usize>)
    ensures
        first_index(s@, ch) < 0 ==> r is None,
        first_index(s@, ch) >= 0 ==> (r matches Some(i) && i as int == first_index(s@, ch)),
        r matches Some(i) ==> i < s@.len() && s@[i as int] == ch,
{
    proof {
        lemma_first_index(s@, ch);
    }
    let mut i: usize = 0;
    while i < s.len()
        invariant
            i <= s.len(),
            forall|j: int| 0 <= j < i ==> s@[j] != ch,
            -1 <= first_index(s@, ch) < s@.len(),
            first_index(s@, ch) >= 0 ==> s@[first_index(s@, ch)] == ch,
            first_index(s@, ch) >= 0 ==> forall|j: int| 0 <= j < first_index(s@, ch) ==> s@[j] != ch,
            first_index(s@, ch) < 0 ==> forall|j: int| 0 <= j < s@.len() ==> s@[j] != ch,
        decreases s.len() - i,
    {
        if s[i] == ch {
            return Some(i);
        }
        i = i + 1;
    }
    None
}

impl Nrc {
    /// Replacement characters for the positions `#@[\]^_`{|}~`.
    pub fn table(self) -> (r: [char; 12])
        ensures
            r@ == nrc_table(self),
    {
        let r: [char; 12] = match self {
            Nrc::British => ['£', '@', '[', '\\', ']', '^', '_', '`', '{', '|', '}', '~'],
            Nrc::Dutch => ['£', '¾', 'ĳ', '½', '|', '^', '_', '`', '¨', 'ƒ', '¼', '´'],
            Nrc::Finnish => ['#', '@', 'Ä', 'Ö', 'Å', 'Ü', '_', 'é', 'ä', 'ö', 'å', 'ü'],
            Nrc::French => ['£', 'à', '°', 'ç', '§', '^', '_', '`', 'é', 'ù', 'è', '¨'],
            Nrc::FrenchCanadian => ['#', 'à', 'â', 'ç', 'ê', 'î', '_', 'ô', 'é', 'ù', 'è', 'û'],
            Nrc::German => ['#', '§', 'Ä', 'Ö', 'Ü', '^', '_', '`', 'ä', 'ö', 'ü', 'ß'],
            Nrc::Italian => ['£', '§', '°', 'ç', 'é', '^', '_', 'ù', 'à', 'ò', 'è', 'ì'],
            Nrc::NorwegianDanish => ['#', 'Ä', 'Æ', 'Ø', 'Å', 'Ü', '_', 'ä', 'æ', 'ø', 'å', 'ü'],
            Nrc::Portuguese => ['#', '@', 'Ã', 'Ç', 'Õ', '^', '_', '`', 'ã', 'ç', 'õ', '~'],
            Nrc::Spanish => ['£', '§', '¡', 'Ñ', '¿', '^', '_', '`', '°', 'ñ', 'ç', '~'],
            Nrc::Swedish => ['#', 'É', 'Ä', 'Ö', 'Å', 'Ü', '_', 'é', 'ä', 'ö', 'å', 'ü'],
            Nrc::Swiss => ['ù', 'à', 'é', 'ç', 'ê', 'î', 'è', 'ô', 'ä', 'ö', 'ü', 'û'],
        };
        assert(r@ =~= nrc_table(self));
        r
    }

    /// The character a 7-bit code shows in this set.
    pub fn map(self, code: u8) -> (r: char)
        ensures
            r == nrc_map(self, code),
    {
        match index_of_position(code) {
            Some(i) => {
                let t = self.table();
                t[i]
            },
            None => code as char,
        }
    }

    /// The 7-bit code that displays `ch` in this set, if any.
    pub fn encode(self, ch: char) -> (r: Option<u8>)
        ensures
            r == nrc_encode(self, ch),
    {
        let t = self.table();
        if let Some(i) = find_char(t.as_slice(), ch) {
            let p = positions();
            return Some(p[i]);
        }
        if ('!' <= ch && ch <= '~') || ch == ' ' {
            let b = ch as u8;
            match index_of_position(b) {
                None => Some(b),
                Some(_) => {
                    if self.map(b) == ch {
                        Some(b)
                    } else {
                        None
                    }
                },
            }
        } else {
            None
        }
    }
}

/// What a national set encodes is a printable byte (0x20 to 0x7E) that
/// the set shows as that character again; and a character is encoded
/// exactly when the set shows it at some printable byte.
pub proof fn lemma_nrc_encode_map(n: Nrc, ch: char)
    ensures
        nrc_encode(n, ch) matches Some(b) ==> 0x20 <= b <= 0x7E && b < 128 && nrc_map(n, b) == ch,
        (nrc_encode(n, ch) is Some) <==> (exists|b: u8| 0x20 <= b <= 0x7E && #[trigger] nrc_map(n, b) == ch),
{
    lemma_first_index(nrc_table(n), ch);
    let i = first_index(nrc_table(n), ch);
    if i >= 0 {
        assert(position_index(nrc_positions()[i]) == i);
        let b = nrc_positions()[i];
        assert(0x20 <= b <= 0x7E);
        assert(nrc_map(n, b) == ch);
    } else if nrc_encode(n, ch) is Some {
        let b = ch as u8;
        assert(nrc_map(n, b) == ch);
    }
    if exists|b: u8| 0x20 <= b <= 0x7E && #[trigger] nrc_map(n, b) == ch {
        let b = choose|b: u8| 0x20 <= b <= 0x7E && #[trigger] nrc_map(n, b) == ch;
        if position_index(b) >= 0 {
            assert(nrc_table(n)[position_index(b)] == ch);
            assert(i >= 0);
        } else {
            assert(b as char == ch);
            assert(ch as u8 == b);
            assert(is_ascii_graphic(ch) || ch == ' ');
        }
    }
}

/// A national set shows at a printable byte what its map gives.
pub proof fn lemma_national_map(n: Nrc, b: u8)
    requires
        0x20 <= b <= 0x7E,
    ensures
        charset_map(Charset::National(n), b) == Some(nrc_map(n, b)),
{
}

/// A VT500 set's designator selects it again: a 96-character set has one
/// final byte, a 94-character set an intermediate and a final; no national
/// set has 96 characters.
pub proof fn lemma_vt500_designator_round_trip(s: Vt500Set)
    ensures
        vt500_designator(s).len() == (if vt500_is_96(s) { 1int } else { 2int }),
        vt500_from_designator(
            vt500_is_96(s),
            if vt500_designator(s).len() == 2 { Some(vt500_designator(s)[0] as u8) } else { None },
            vt500_designator(s)[vt500_designator(s).len() - 1] as u8,
        ) == Some(s),
        !(vt500_is_96(s) && vt500_is_national(s)),
{
}

/// A national set's designator selects it again.
pub proof fn lemma_national_designator_round_trip(n: Nrc)
    ensures
        1 <= charset_designator(Charset::National(n)).len() <= 2,
        charset_designator(Charset::National(n)).len() == 1 ==> national_from_designator(
            None,
            charset_designator(Charset::National(n))[0] as u8,
        ) == Some(n),
        charset_designator(Charset::National(n)).len() == 2 ==> national_from_designator(
            Some(charset_designator(Charset::National(n))[0] as u8),
            charset_designator(Charset::National(n))[1] as u8,
        ) == Some(n),
{
}

/// A designatable graphic set.
#[derive(Debug, Clone, Copy, PartialEq, Eq, Hash, Structural)]
pub enum Charset {
    /// US ASCII (`B`).
    Ascii,
    /// A national replacement set; `A` (British) is also a VT100 set.
    National(Nrc),
    /// DEC Special Graphics (`0`), the VT100 line-drawing set.
    DecSpecialGraphics,
    /// DEC Supplemental Graphic (`%5`; `<` on the VT220), the GR half of DEC Multinational.
    DecSupplemental,
    /// DEC Technical (`>`), VT320 and later.
    DecTechnical,
    /// ISO Latin-1 Supplemental, a 96-character set (`- A`).
    IsoLatin1,
    /// A downloaded soft set (DECDLD), by font slot.
    Soft { slot: u8, is_96: bool },
    /// A VT510/VT520 national or supplemental set.
    Vt500(Vt500Set),
}

/// Character sets added by the VT510 and VT520 (EK-VT520-RM table 5-14).
#[derive(Debug, Clone, Copy, PartialEq, Eq, Hash, Structural)]
pub enum Vt500Set {
    DecGreek,
    DecHebrew,
    DecTurkish,
    DecCyrillic,
    IsoLatin2,
    IsoGreek,
    IsoHebrew,
    IsoCyrillic,
    IsoLatin5,
    /// National replacement sets, available only in NRC mode.
    NrcGreek,
    NrcHebrew,
    NrcTurkish,
    NrcSerboCroatian,
    NrcRussian,
}

pub open spec fn vt500_is_96(set: Vt500Set) -> bool {
    match set {
        Vt500Set::IsoLatin2 | Vt500Set::IsoGreek | Vt500Set::IsoHebrew | Vt500Set::IsoCyrillic
        | Vt500Set::IsoLatin5 => true,
        _ => false,
    }
}

pub open spec fn vt500_is_national(set: Vt500Set) -> bool {
    match set {
        Vt500Set::NrcGreek | Vt500Set::NrcHebrew | Vt500Set::NrcTurkish
        | Vt500Set::NrcSerboCroatian | Vt500Set::NrcRussian => true,
        _ => false,
    }
}

/// The set an SCS designator selects: (96-character, intermediate, final).
pub open spec fn vt500_from_designator(is_96: bool, intermediate: Option<u8>, final_byte: u8) -> Option<Vt500Set> {
    if !is_96 && intermediate == Some(34u8) && final_byte == 63 { Some(Vt500Set::DecGreek) }
    else if !is_96 && intermediate == Some(34u8) && final_byte == 52 { Some(Vt500Set::DecHebrew) }
    else if !is_96 && intermediate == Some(37u8) && final_byte == 48 { Some(Vt500Set::DecTurkish) }
    else if !is_96 && intermediate == Some(38u8) && final_byte == 52 { Some(Vt500Set::DecCyrillic) }
    else if !is_96 && intermediate == Some(34u8) && final_byte == 62 { Some(Vt500Set::NrcGreek) }
    else if !is_96 && intermediate == Some(37u8) && final_byte == 61 { Some(Vt500Set::NrcHebrew) }
    else if !is_96 && intermediate == Some(37u8) && final_byte == 50 { Some(Vt500Set::NrcTurkish) }
    else if !is_96 && intermediate == Some(37u8) && final_byte == 51 { Some(Vt500Set::NrcSerboCroatian) }
    else if !is_96 && intermediate == Some(38u8) && final_byte == 53 { Some(Vt500Set::NrcRussian) }
    else if is_96 && intermediate is None && final_byte == 66 { Some(Vt500Set::IsoLatin2) }
    else if is_96 && intermediate is None && final_byte == 70 { Some(Vt500Set::IsoGreek) }
    else if is_96 && intermediate is None && final_byte == 72 { Some(Vt500Set::IsoHebrew) }
    else if is_96 && intermediate is None && final_byte == 76 { Some(Vt500Set::IsoCyrillic) }
    else if is_96 && intermediate is None && final_byte == 77 { Some(Vt500Set::IsoLatin5) }
    else { None }
}

/// The SCS designator of a VT500 set.
pub open spec fn vt500_designator(set: Vt500Set) -> Seq<char> {
    match set {
        Vt500Set::DecGreek => seq!['"', '?'],
        Vt500Set::DecHebrew => seq!['"', '4'],
        Vt500Set::DecTurkish => seq!['%', '0'],
        Vt500Set::DecCyrillic => seq!['&', '4'],
        Vt500Set::IsoLatin2 => seq!['B'],
        Vt500Set::IsoGreek => seq!['F'],
        Vt500Set::IsoHebrew => seq!['H'],
        Vt500Set::IsoCyrillic => seq!['L'],
        Vt500Set::IsoLatin5 => seq!['M'],
        Vt500Set::NrcGreek => seq!['"', '>'],
        Vt500Set::NrcHebrew => seq!['%', '='],
        Vt500Set::NrcTurkish => seq!['%', '2'],
        Vt500Set::NrcSerboCroatian => seq!['%', '3'],
        Vt500Set::NrcRussian => seq!['&', '5'],
    }
}

impl Vt500Set {
    pub fn is_96(self) -> (r: bool)
        ensures
            r == vt500_is_96(self),
    {
        match self {
            Vt500Set::IsoLatin2 | Vt500Set::IsoGreek | Vt500Set::IsoHebrew | Vt500Set::IsoCyrillic
            | Vt500Set::IsoLatin5 => true,
            _ => false,
        }
    }

    pub fn is_national(self) -> (r: bool)
        ensures
            r == vt500_is_national(self),
    {
        match self {
            Vt500Set::NrcGreek | Vt500Set::NrcHebrew | Vt500Set::NrcTurkish
            | Vt500Set::NrcSerboCroatian | Vt500Set::NrcRussian => true,
            _ => false,
        }
    }

    /// The set selected by an SCS designator.
    pub fn from_designator(is_96: bool, intermediate: Option<u8>, final_byte: u8) -> (r: Option<Vt500Set>)
        ensures
            r == vt500_from_designator(is_96, intermediate, final_byte),
    {
        match intermediate {
            Some(i) => {
                if is_96 {
                    None
                } else if i == 34 {
                    match final_byte {
                        63 => Some(Vt500Set::DecGreek),
                        52 => Some(Vt500Set::DecHebrew),
                        62 => Some(Vt500Set::NrcGreek),
                        _ => None,
                    }
                } else if i == 37 {
                    match final_byte {
                        48 => Some(Vt500Set::DecTurkish),
                        61 => Some(Vt500Set::NrcHebrew),
                        50 => Some(Vt500Set::NrcTurkish),
                        51 => Some(Vt500Set::NrcSerboCroatian),
                        _ => None,
                    }
                } else if i == 38 {
                    match final_byte {
                        52 => Some(Vt500Set::DecCyrillic),
                        53 => Some(Vt500Set::NrcRussian),
                        _ => None,
                    }
                } else {
                    None
                }
            },
            None => {
                if !is_96 {
                    None
                } else {
                    match final_byte {
                        66 => Some(Vt500Set::IsoLatin2),
                        70 => Some(Vt500Set::IsoGreek),
                        72 => Some(Vt500Set::IsoHebrew),
                        76 => Some(Vt500Set::IsoCyrillic),
                        77 => Some(Vt500Set::IsoLatin5),
                        _ => None,
                    }
                }
            },
        }
    }

    pub fn designator(self) -> (r: &'static str)
        ensures
            r@ == vt500_designator(self),
    {
        proof {
            reveal_strlit("\"?");
            reveal_strlit("\"4");
            reveal_strlit("%0");
            reveal_strlit("&4");
            reveal_strlit("B");
            reveal_strlit("F");
            reveal_strlit("H");
            reveal_strlit("L");
            reveal_strlit("M");
            reveal_strlit("\">");
            reveal_strlit("%=");
            reveal_strlit("%2");
            reveal_strlit("%3");
            reveal_strlit("&5");
        }
        let r = match self {
            Vt500Set::DecGreek => "\"?",
            Vt500Set::DecHebrew => "\"4",
            Vt500Set::DecTurkish => "%0",
            Vt500Set::DecCyrillic => "&4",
            Vt500Set::IsoLatin2 => "B",
            Vt500Set::IsoGreek => "F",
            Vt500Set::IsoHebrew => "H",
            Vt500Set::IsoCyrillic => "L",
            Vt500Set::IsoLatin5 => "M",
            Vt500Set::NrcGreek => "\">",
            Vt500Set::NrcHebrew => "%=",
            Vt500Set::NrcTurkish => "%2",
            Vt500Set::NrcSerboCroatian => "%3",
            Vt500Set::NrcRussian => "&5",
        };
        assert(r@ =~= vt500_designator(self));
        r
    }
}

/// DEC Special Graphics for 0x5F–0x7E.
pub open spec fn special_graphics() -> Seq<char> {
    seq!['\u{00A0}', '◆', '▒', '␉', '␌', '␍', '␊', '°', '±', '␤', '␋', '┘', '┐', '┌', '└', '┼',
        '⎺', '⎻', '─', '⎼', '⎽', '├', '┤', '┴', '┬', '│', '≤', '≥', 'π', '≠', '£', '·']
}

/// First Private Use code point for DEC Technical pieces with no Unicode
/// equivalent (the large sigma parts at 3/1–3/7). The font draws these.
pub const TECHNICAL_PUA: u32 = 0xF7E0;

/// DEC Technical for 0x21–0x7E. `None` marks positions DEC left undefined.
pub open spec fn technical() -> Seq<Option<char>> {
    seq![Some('⎷'), Some('┌'), Some('─'), Some('⌠'), Some('⌡'), Some('│'), Some('⎡'), Some('⎣'), Some('⎤'), Some('⎦'), Some('⎛'), Some('⎝'), Some('⎞'), Some('⎠'), Some('⎨'), Some('⎬'), Some('\u{F7E1}'), Some('\u{F7E2}'), Some('\u{F7E3}'), Some('\u{F7E4}'), Some('\u{F7E5}'), Some('\u{F7E6}'), Some('\u{F7E7}'), None, None, None, None, Some('≤'), Some('≠'), Some('≥'), Some('∫'), Some('∴'), Some('∝'), Some('∞'), Some('÷'), Some('Δ'), Some('∇'), Some('Φ'), Some('Γ'), Some('∼'), Some('≃'), Some('Θ'), Some('×'), Some('Λ'), Some('⇔'), Some('⇒'), Some('≡'), Some('Π'), Some('Ψ'), None, Some('Σ'), None, None, Some('√'), Some('Ω'), Some('Ξ'), Some('Υ'), Some('⊂'), Some('⊃'), Some('∩'), Some('∪'), Some('∧'), Some('∨'), Some('¬'), Some('α'), Some('β'), Some('χ'), Some('δ'), Some('ε'), Some('φ'), Some('γ'), Some('η'), Some('ι'), Some('θ'), Some('κ'), Some('λ'), None, Some('ν'), Some('∂'), Some('π'), Some('ψ'), Some('ρ'), Some('σ'), Some('τ'), None, Some('ƒ'), Some('ω'), Some('ξ'), Some('υ'), Some('ζ'), Some('←'), Some('↑'), Some('→'), Some('↓')]
}

/// Character DEC terminals show for undefined positions and unloaded soft characters.
pub const ERROR_CHARACTER: char = '\u{2426}';

/// First code point used for soft (DRCS) characters: plane 16 private use,
/// `SOFT_BASE + slot * 256 + code`.
pub const SOFT_BASE: u32 = 0x10_0000;

pub open spec fn charset_is_96(cs: Charset) -> bool {
    match cs {
        Charset::IsoLatin1 => true,
        Charset::Soft { is_96, .. } => is_96,
        Charset::Vt500(set) => vt500_is_96(set),
        _ => false,
    }
}

/// DEC Supplemental Graphic at the 8-bit code `c` (0xA0–0xFF).
pub open spec fn dec_supplemental(c: int) -> char {
    if c == 0xA8 { '¤' }
    else if c == 0xD7 { 'Œ' }
    else if c == 0xDD { 'Ÿ' }
    else if c == 0xF7 { 'œ' }
    else if c == 0xFD { 'ÿ' }
    else if c == 0xA4 || c == 0xA6 || (0xAC <= c <= 0xAF) || c == 0xB4 || c == 0xB8 || c == 0xBE
        || c == 0xD0 || c == 0xDE || c == 0xF0 || c == 0xFE { ERROR_CHARACTER }
    else { c as char }
}

/// The character a GL-relative code (0x20–0x7F) shows in a set. 94-character
/// sets show SPACE at 0x20 and nothing at 0x7F.
pub open spec fn charset_map(cs: Charset, code: u8) -> Option<char> {
    if !charset_is_96(cs) && code == 0x20 {
        Some(' ')
    } else if !charset_is_96(cs) && code == 0x7F {
        None
    } else {
        Some(match cs {
            Charset::Ascii => code as char,
            Charset::National(n) => nrc_map(n, code),
            Charset::DecSpecialGraphics => if 0x5F <= code <= 0x7E {
                special_graphics()[code - 0x5F]
            } else {
                code as char
            },
            Charset::DecSupplemental => dec_supplemental(code + 0x80),
            Charset::DecTechnical => match technical()[code - 0x21] {
                Some(c) => c,
                None => ERROR_CHARACTER,
            },
            Charset::IsoLatin1 => (code + 0x80) as char,
            Charset::Vt500(_) => ERROR_CHARACTER,
            Charset::Soft { slot, .. } => (SOFT_BASE + slot * 256 + code) as char,
        })
    }
}

fn special_graphic(code: u8) -> (r: char)
    requires
        0x5F <= code <= 0x7E,
    ensures
        r == special_graphics()[code - 0x5F],
{
    let t: [char; 32] = ['\u{00A0}', '◆', '▒', '␉', '␌', '␍', '␊', '°', '±', '␤', '␋', '┘', '┐', '┌', '└', '┼',
        '⎺', '⎻', '─', '⎼', '⎽', '├', '┤', '┴', '┬', '│', '≤', '≥', 'π', '≠', '£', '·'];
    assert(t@ =~= special_graphics());
    t[(code - 0x5F) as usize]
}

fn technical_at(code: u8) -> (r: Option<char>)
    requires
        0x21 <= code <= 0x7E,
    ensures
        r == technical()[code - 0x21],
{
    let t: [Option<char>; 94] = [Some('⎷'), Some('┌'), Some('─'), Some('⌠'), Some('⌡'), Some('│'), Some('⎡'), Some('⎣'), Some('⎤'), Some('⎦'), Some('⎛'), Some('⎝'), Some('⎞'), Some('⎠'), Some('⎨'), Some('⎬'), Some('\u{F7E1}'), Some('\u{F7E2}'), Some('\u{F7E3}'), Some('\u{F7E4}'), Some('\u{F7E5}'), Some('\u{F7E6}'), Some('\u{F7E7}'), None, None, None, None, Some('≤'), Some('≠'), Some('≥'), Some('∫'), Some('∴'), Some('∝'), Some('∞'), Some('÷'), Some('Δ'), Some('∇'), Some('Φ'), Some('Γ'), Some('∼'), Some('≃'), Some('Θ'), Some('×'), Some('Λ'), Some('⇔'), Some('⇒'), Some('≡'), Some('Π'), Some('Ψ'), None, Some('Σ'), None, None, Some('√'), Some('Ω'), Some('Ξ'), Some('Υ'), Some('⊂'), Some('⊃'), Some('∩'), Some('∪'), Some('∧'), Some('∨'), Some('¬'), Some('α'), Some('β'), Some('χ'), Some('δ'), Some('ε'), Some('φ'), Some('γ'), Some('η'), Some('ι'), Some('θ'), Some('κ'), Some('λ'), None, Some('ν'), Some('∂'), Some('π'), Some('ψ'), Some('ρ'), Some('σ'), Some('τ'), None, Some('ƒ'), Some('ω'), Some('ξ'), Some('υ'), Some('ζ'), Some('←'), Some('↑'), Some('→'), Some('↓')];
    assert(t@ =~= technical());
    t[(code - 0x21) as usize]
}

fn supplemental_at(c: u8) -> (r: char)
    requires
        c >= 0x80,
    ensures
        r == dec_supplemental(c as int),
{
    if c == 0xA8 {
        '¤'
    } else if c == 0xD7 {
        'Œ'
    } else if c == 0xDD {
        'Ÿ'
    } else if c == 0xF7 {
        'œ'
    } else if c == 0xFD {
        'ÿ'
    } else if c == 0xA4 || c == 0xA6 || (0xAC <= c && c <= 0xAF) || c == 0xB4 || c == 0xB8 || c
        == 0xBE || c == 0xD0 || c == 0xDE || c == 0xF0 || c == 0xFE {
        ERROR_CHARACTER
    } else {
        c as char
    }
}

/// `char::from_u32`: the character for a Unicode scalar value, `None` for
/// a surrogate or a value above U+10FFFF, as its documentation states.
#[verifier::external_body]
pub(crate) fn char_from_u32(v: u32) -> (r: Option<char>)
    ensures
        (v < 0xD800 || (0xE000 <= v <= 0x10FFFF)) ==> r == Some(v as char),
        !(v < 0xD800 || (0xE000 <= v <= 0x10FFFF)) ==> r is None,
{
    char::from_u32(v)
}

impl Charset {
    /// 94-character sets have fixed SPACE and DEL positions; 96-character sets do not.
    pub fn is_96(self) -> (r: bool)
        ensures
            r == charset_is_96(self),
    {
        match self {
            Charset::IsoLatin1 => true,
            Charset::Soft { is_96, .. } => is_96,
            Charset::Vt500(set) => set.is_96(),
            _ => false,
        }
    }

    /// Maps a GL-relative code (0x20–0x7F) to its character.
    pub fn map(self, code: u8) -> (r: Option<char>)
        requires
            0x20 <= code <= 0x7F,
        ensures
            r == charset_map(self, code),
    {
        if !self.is_96() {
            if code == 0x20 {
                return Some(' ');
            }
            if code == 0x7F {
                return None;
            }
        }
        proof {
            assert((code | 0x80) == code + 0x80) by (bit_vector)
                requires
                    code < 0x80,
            ;
        }
        let c = match self {
            Charset::Ascii => code as char,
            Charset::National(nrc) => nrc.map(code),
            Charset::DecSpecialGraphics => {
                if 0x5F <= code && code <= 0x7E {
                    special_graphic(code)
                } else {
                    code as char
                }
            },
            Charset::DecSupplemental => supplemental_at(code | 0x80),
            Charset::DecTechnical => match technical_at(code) {
                Some(c) => c,
                None => ERROR_CHARACTER,
            },
            Charset::IsoLatin1 => (code | 0x80) as char,
            Charset::Vt500(_) => ERROR_CHARACTER,
            Charset::Soft { slot, .. } => {
                let v: u32 = SOFT_BASE + (slot as u32) * 256 + (code as u32);
                match char_from_u32(v) {
                    Some(c) => c,
                    None => ERROR_CHARACTER,
                }
            },
        };
        Some(c)
    }
}

/// The NRC set a 94-character SCS designator selects, per the VT510 table.
pub open spec fn national_from_designator(intermediate: Option<u8>, final_byte: u8) -> Option<Nrc> {
    match intermediate {
        None => match final_byte {
            65 => Some(Nrc::British),
            52 => Some(Nrc::Dutch),
            67 | 53 => Some(Nrc::Finnish),
            82 | 102 => Some(Nrc::French),
            81 | 57 => Some(Nrc::FrenchCanadian),
            75 => Some(Nrc::German),
            89 => Some(Nrc::Italian),
            96 | 69 | 54 => Some(Nrc::NorwegianDanish),
            90 => Some(Nrc::Spanish),
            72 | 55 => Some(Nrc::Swedish),
            61 => Some(Nrc::Swiss),
            _ => None,
        },
        Some(i) => if i == 37 && final_byte == 54 {
            Some(Nrc::Portuguese)
        } else {
            None
        },
    }
}

/// The SCS designator (intermediate and final) that selects a set.
pub open spec fn charset_designator(cs: Charset) -> Seq<char> {
    match cs {
        Charset::Ascii => seq!['B'],
        Charset::DecSpecialGraphics => seq!['0'],
        Charset::DecSupplemental => seq!['%', '5'],
        Charset::DecTechnical => seq!['>'],
        Charset::IsoLatin1 => seq!['A'],
        Charset::Soft { .. } => seq![' ', '@'],
        Charset::Vt500(set) => vt500_designator(set),
        Charset::National(n) => match n {
            Nrc::British => seq!['A'],
            Nrc::Dutch => seq!['4'],
            Nrc::Finnish => seq!['C'],
            Nrc::French => seq!['R'],
            Nrc::FrenchCanadian => seq!['Q'],
            Nrc::German => seq!['K'],
            Nrc::Italian => seq!['Y'],
            Nrc::NorwegianDanish => seq!['E'],
            Nrc::Portuguese => seq!['%', '6'],
            Nrc::Spanish => seq!['Z'],
            Nrc::Swedish => seq!['H'],
            Nrc::Swiss => seq!['='],
        },
    }
}

impl Charset {
    /// The NRC set for a 94-character SCS designator, per the VT510 table.
    pub fn national(intermediate: Option<u8>, final_byte: u8) -> (r: Option<Nrc>)
        ensures
            r == national_from_designator(intermediate, final_byte),
    {
        match intermediate {
            None => match final_byte {
                65 => Some(Nrc::British),
                52 => Some(Nrc::Dutch),
                67 | 53 => Some(Nrc::Finnish),
                82 | 102 => Some(Nrc::French),
                81 | 57 => Some(Nrc::FrenchCanadian),
                75 => Some(Nrc::German),
                89 => Some(Nrc::Italian),
                96 | 69 | 54 => Some(Nrc::NorwegianDanish),
                90 => Some(Nrc::Spanish),
                72 | 55 => Some(Nrc::Swedish),
                61 => Some(Nrc::Swiss),
                _ => None,
            },
            Some(i) => {
                if i == 37 && final_byte == 54 {
                    Some(Nrc::Portuguese)
                } else {
                    None
                }
            },
        }
    }

    /// The SCS designator (intermediate and final) that selects this set.
    pub fn designator(self) -> (r: &'static str)
        ensures
            r@ == charset_designator(self),
    {
        proof {
            reveal_strlit("B");
            reveal_strlit("0");
            reveal_strlit("%5");
            reveal_strlit(">");
            reveal_strlit("A");
            reveal_strlit(" @");
            reveal_strlit("4");
            reveal_strlit("C");
            reveal_strlit("R");
            reveal_strlit("Q");
            reveal_strlit("K");
            reveal_strlit("Y");
            reveal_strlit("E");
            reveal_strlit("%6");
            reveal_strlit("Z");
            reveal_strlit("H");
            reveal_strlit("=");
        }
        let r = match self {
            Charset::Ascii => "B",
            Charset::DecSpecialGraphics => "0",
            Charset::DecSupplemental => "%5",
            Charset::DecTechnical => ">",
            Charset::IsoLatin1 => "A",
            Charset::Soft { .. } => " @",
            Charset::Vt500(set) => set.designator(),
            Charset::National(n) => match n {
                Nrc::British => "A",
                Nrc::Dutch => "4",
                Nrc::Finnish => "C",
                Nrc::French => "R",
                Nrc::FrenchCanadian => "Q",
                Nrc::German => "K",
                Nrc::Italian => "Y",
                Nrc::NorwegianDanish => "E",
                Nrc::Portuguese => "%6",
                Nrc::Spanish => "Z",
                Nrc::Swedish => "H",
                Nrc::Swiss => "=",
            },
        };
        assert(r@ =~= charset_designator(self));
        r
    }
}

/// The first 8-bit code from `b` to 0xFF whose DEC Supplemental character
/// is `ch`.
pub open spec fn supplemental_search(ch: char, b: int) -> Option<u8>
    decreases 0x100 - b,
{
    if b > 0xFF || b < 0xA0 {
        None
    } else if charset_map(Charset::DecSupplemental, (b - 0x80) as u8) == Some(ch) {
        Some(b as u8)
    } else {
        supplemental_search(ch, b + 1)
    }
}

/// A typed character as an 8-bit DEC Multinational code: ASCII as itself,
/// others at their DEC Supplemental position.
pub open spec fn dec_multinational_code(ch: char) -> Option<u8> {
    if (ch as u32) < 128 {
        Some(ch as u8)
    } else if ch == ERROR_CHARACTER {
        None
    } else {
        supplemental_search(ch, 0xA0)
    }
}

/// Encodes a typed character as an 8-bit DEC Multinational (ASCII + DEC
/// Supplemental) code, the VT220+ factory keyboard encoding.
pub fn encode_dec_multinational(ch: char) -> (r: Option<u8>)
    ensures
        r == dec_multinational_code(ch),
{
    if (ch as u32) < 128 {
        return Some(ch as u8);
    }
    if ch == ERROR_CHARACTER {
        return None;
    }
    let mut b: u16 = 0xA0;
    while b <= 0xFF
        invariant
            0xA0 <= b <= 0x100,
            (ch as u32) >= 128,
            ch != ERROR_CHARACTER,
            supplemental_search(ch, 0xA0) == supplemental_search(ch, b as int),
        decreases 0x100 - b,
    {
        let code = (b - 0x80) as u8;
        assert(code == (b as int - 0x80) as u8);
        if Charset::DecSupplemental.map(code) == Some(ch) {
            assert(supplemental_search(ch, b as int) == Some(b as u8));
            return Some(b as u8);
        }
        b = b + 1;
    }
    None
}

/// What the DEC Multinational encoding sends, DEC Multinational shows again.
pub proof fn lemma_dec_multinational_round_trip(ch: char)
    ensures
        dec_multinational_code(ch) matches Some(b) ==> (b < 128 && b as char == ch) || (b >= 0xA0
            && charset_map(Charset::DecSupplemental, (b - 0x80) as u8) == Some(ch)),
{
    if (ch as u32) >= 128 && ch != ERROR_CHARACTER {
        lemma_supplemental_search(ch, 0xA0);
    }
}

proof fn lemma_supplemental_search(ch: char, b: int)
    ensures
        supplemental_search(ch, b) matches Some(c) ==> c >= 0xA0 && charset_map(
            Charset::DecSupplemental,
            (c - 0x80) as u8,
        ) == Some(ch),
    decreases 0x100 - b,
{
    if 0xA0 <= b <= 0xFF && charset_map(Charset::DecSupplemental, (b - 0x80) as u8) != Some(ch) {
        lemma_supplemental_search(ch, b + 1);
    }
}

/// A typed character as an ISO Latin-1 code: code points below 0x100 other
/// than the C1 controls.
pub open spec fn latin1_code(ch: char) -> Option<u8> {
    if (ch as u32) < 0x100 && ((ch as u32) < 0x80 || (ch as u32) >= 0xA0) {
        Some(ch as u8)
    } else {
        None
    }
}

/// Encodes a typed character as an ISO Latin-1 code.
pub fn encode_latin1(ch: char) -> (r: Option<u8>)
    ensures
        r == latin1_code(ch),
{
    let v = ch as u32;
    if v < 0x100 && (v < 0x80 || v >= 0xA0) {
        Some(ch as u8)
    } else {
        None
    }
}

/// Which G-set a byte is taken from.
#[derive(Debug, Clone, Copy, PartialEq, Eq, Hash)]
pub struct CharsetState {
    pub g: [Charset; 4],
    /// Index of the G-set invoked into GL (0x20–0x7F).
    pub gl: u8,
    /// Index of the G-set invoked into GR (0xA0–0xFF).
    pub gr: u8,
    /// Pending SS2 (2) or SS3 (3).
    pub single_shift: Option<u8>,
}

impl CharsetState {
    /// GL, GR and any single shift name one of the four G-sets.
    pub open spec fn wf(&self) -> bool {
        &&& self.gl < 4
        &&& self.gr < 4
        &&& self.single_shift matches Some(g) ==> g < 4
    }

    /// The set a byte would be taken from.
    pub open spec fn set_for(&self, byte: u8) -> Charset {
        match self.single_shift {
            Some(g) => self.g@[g as int],
            None => if byte < 0x80 {
                self.g@[self.gl as int]
            } else {
                self.g@[self.gr as int]
            },
        }
    }

    /// VT100 power-up state: ASCII everywhere, G0 in GL.
    pub fn vt100() -> (r: CharsetState)
        ensures
            r.g@ == seq![Charset::Ascii, Charset::Ascii, Charset::Ascii, Charset::Ascii],
            r.gl == 0,
            r.gr == 2,
            r.single_shift is None,
    {
        let r = CharsetState {
            g: [Charset::Ascii, Charset::Ascii, Charset::Ascii, Charset::Ascii],
            gl: 0,
            gr: 2,
            single_shift: None,
        };
        assert(r.g@ =~= seq![Charset::Ascii, Charset::Ascii, Charset::Ascii, Charset::Ascii]);
        r
    }

    /// VT220+ power-up state: ASCII in G0/G1, the user-preferred supplemental
    /// set in G2/G3, G0 in GL and G2 in GR.
    pub fn vt220(upss: Charset) -> (r: CharsetState)
        ensures
            r.g@ == seq![Charset::Ascii, Charset::Ascii, upss, upss],
            r.gl == 0,
            r.gr == 2,
            r.single_shift is None,
    {
        let r = CharsetState {
            g: [Charset::Ascii, Charset::Ascii, upss, upss],
            gl: 0,
            gr: 2,
            single_shift: None,
        };
        assert(r.g@ =~= seq![Charset::Ascii, Charset::Ascii, upss, upss]);
        r
    }

    /// Translates a received graphic byte, consuming any single shift.
    pub fn translate(&mut self, byte: u8) -> (r: Option<char>)
        requires
            old(self).wf(),
            0x20 <= byte % 0x80,
        ensures
            r == charset_map(old(self).set_for(byte), byte % 0x80),
            final(self).single_shift is None,
            final(self).g == old(self).g,
            final(self).gl == old(self).gl,
            final(self).gr == old(self).gr,
    {
        let set = match self.single_shift {
            Some(g) => self.g[g as usize],
            None => {
                if byte < 0x80 {
                    self.g[self.gl as usize]
                } else {
                    self.g[self.gr as usize]
                }
            },
        };
        self.single_shift = None;
        proof {
            assert(byte & 0x7F == byte % 0x80) by (bit_vector);
        }
        set.map(byte & 0x7F)
    }
}

/// How the graphic sets show GL codes: in a 94-character set, 2/0 is a
/// space and 7/15 shows nothing; ASCII shows the code itself; DEC Special
/// Graphics shows ASCII below 5/15 and line-drawing characters above (the
/// corners, crossing, lines and tees at 6/10 to 7/8, the diamond and
/// checkerboard at 6/0 and 6/1); ISO Latin-1 shows the character 128
/// above the code.
pub proof fn lemma_charset_map_laws(cs: Charset, code: u8)
    requires
        0x20 <= code <= 0x7F,
    ensures
        (cs == Charset::Ascii || cs == Charset::DecSpecialGraphics || cs == Charset::DecSupplemental || cs
            == Charset::DecTechnical || cs is National) ==> {
            &&& code == 0x20 ==> charset_map(cs, code) == Some(' ')
            &&& code == 0x7F ==> charset_map(cs, code) is None
        },
        cs == Charset::Ascii && code < 0x7F ==> charset_map(cs, code) == Some(code as char),
        cs == Charset::DecSpecialGraphics && code < 0x5F ==> charset_map(cs, code) == Some(code as char),
        cs == Charset::IsoLatin1 ==> charset_map(cs, code) == Some((code + 0x80) as char),
        cs == Charset::DecSpecialGraphics ==> {
            &&& code == 0x60 ==> charset_map(cs, code) == Some('◆')
            &&& code == 0x61 ==> charset_map(cs, code) == Some('▒')
            &&& code == 0x6A ==> charset_map(cs, code) == Some('┘')
            &&& code == 0x6B ==> charset_map(cs, code) == Some('┐')
            &&& code == 0x6C ==> charset_map(cs, code) == Some('┌')
            &&& code == 0x6D ==> charset_map(cs, code) == Some('└')
            &&& code == 0x6E ==> charset_map(cs, code) == Some('┼')
            &&& code == 0x71 ==> charset_map(cs, code) == Some('─')
            &&& code == 0x74 ==> charset_map(cs, code) == Some('├')
            &&& code == 0x75 ==> charset_map(cs, code) == Some('┤')
            &&& code == 0x76 ==> charset_map(cs, code) == Some('┴')
            &&& code == 0x77 ==> charset_map(cs, code) == Some('┬')
            &&& code == 0x78 ==> charset_map(cs, code) == Some('│')
        },
{
}

} // verus!
