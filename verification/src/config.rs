//! The emulated model and the power-up configuration.

use vstd::prelude::*;
use crate::charset::{Charset, Nrc};
use crate::setup::Features;
use crate::text::{str_chars};

verus! {

/// The DEC terminal being emulated. Ordering follows capability.
#[derive(Debug, Clone, Copy, PartialEq, Eq, PartialOrd, Ord, Hash, Structural)]
pub enum Model {
    Vt100,
    Vt102,
    Vt220,
    Vt320,
    Vt420,
    Vt510,
    Vt520,
    Vt525,
}

/// Highest conformance level (DECSCL): 1 = VT100, 2 = VT200, 3 = VT300, 4 = VT400, 5 = VT500.
pub open spec fn max_level(m: Model) -> u8 {
    match m {
        Model::Vt100 | Model::Vt102 => 1,
        Model::Vt220 => 2,
        Model::Vt320 => 3,
        Model::Vt420 => 4,
        Model::Vt510 | Model::Vt520 | Model::Vt525 => 5,
    }
}

/// The model's own name in lower case.
pub open spec fn exact_name(m: Model) -> Seq<char> {
    match m {
        Model::Vt100 => seq!['v', 't', '1', '0', '0'],
        Model::Vt102 => seq!['v', 't', '1', '0', '2'],
        Model::Vt220 => seq!['v', 't', '2', '2', '0'],
        Model::Vt320 => seq!['v', 't', '3', '2', '0'],
        Model::Vt420 => seq!['v', 't', '4', '2', '0'],
        Model::Vt510 => seq!['v', 't', '5', '1', '0'],
        Model::Vt520 => seq!['v', 't', '5', '2', '0'],
        Model::Vt525 => seq!['v', 't', '5', '2', '5'],
    }
}

/// The conventional `TERM` name: the VT500s are all `vt520`.
pub open spec fn term_name(m: Model) -> Seq<char> {
    match m {
        Model::Vt510 | Model::Vt525 => exact_name(Model::Vt520),
        _ => exact_name(m),
    }
}

/// ASCII letters folded to lower case; every other character kept.
pub open spec fn ascii_lower(s: Seq<char>) -> Seq<char> {
    s.map_values(|c: char| if 'A' <= c <= 'Z' { ((c as u32) + 32) as char } else { c })
}

/// ASCII letters in upper case.
pub open spec fn ascii_upper(s: Seq<char>) -> Seq<char> {
    s.map_values(|c: char| if 'a' <= c <= 'z' { ((c as u32) - 32) as char } else { c })
}

/// The model a name stands for, ignoring ASCII case.
pub open spec fn model_named(s: Seq<char>) -> Option<Model> {
    if exists|m: Model| ascii_lower(s) == #[trigger] exact_name(m) {
        Some(choose|m: Model| ascii_lower(s) == #[trigger] exact_name(m))
    } else {
        None
    }
}

/// No two models share an exact name.
proof fn lemma_exact_name_injective(a: Model, b: Model)
    ensures
        exact_name(a) == exact_name(b) ==> a == b,
{
    if exact_name(a) == exact_name(b) {
        assert(exact_name(a)[2] == exact_name(b)[2]);
        assert(exact_name(a)[3] == exact_name(b)[3]);
        assert(exact_name(a)[4] == exact_name(b)[4]);
    }
}

/// A model's exact name, in lower or in upper case, names that model.
pub proof fn lemma_from_name_exact(m: Model)
    ensures
        model_named(exact_name(m)) == Some(m),
        model_named(ascii_upper(exact_name(m))) == Some(m),
{
    let e = exact_name(m);
    assert(ascii_lower(e) =~= e);
    assert(ascii_lower(ascii_upper(e)) =~= e);
    assert forall|k: Model| #[trigger] exact_name(k) == e implies k == m by {
        lemma_exact_name_injective(k, m);
    }
}

/// Parameters of the Primary DA response.
pub open spec fn primary_da(m: Model) -> Seq<char> {
    match m {
        Model::Vt100 => seq!['1', ';', '2'],
        Model::Vt102 => seq!['6'],
        Model::Vt220 => seq!['6', '2', ';', '1', ';', '2', ';', '6', ';', '7', ';', '8', ';', '9'],
        Model::Vt320 => seq!['6', '3', ';', '1', ';', '2', ';', '6', ';', '7', ';', '8', ';', '9'],
        Model::Vt420 => seq!['6', '4', ';', '1', ';', '2', ';', '6', ';', '7', ';', '8', ';', '9', ';', '1', '5', ';', '1', '8', ';', '2', '1'],
        Model::Vt510 => seq!['6', '4', ';', '1', ';', '2', ';', '7', ';', '8', ';', '9', ';', '1', '2', ';', '1', '5', ';', '1', '8', ';', '2', '1', ';', '2', '3', ';', '2', '4', ';', '4', '2'],
        Model::Vt520 => seq!['6', '5', ';', '1', ';', '2', ';', '7', ';', '9', ';', '1', '2', ';', '1', '8', ';', '2', '1', ';', '2', '3', ';', '2', '4', ';', '4', '2'],
        Model::Vt525 => seq!['6', '5', ';', '1', ';', '2', ';', '7', ';', '9', ';', '1', '2', ';', '1', '8', ';', '2', '1', ';', '2', '2', ';', '2', '3', ';', '2', '4', ';', '4', '2'],
    }
}

/// Parameters of the Secondary DA response; VT100-class terminals have none.
pub open spec fn secondary_da(m: Model) -> Option<Seq<char>> {
    match m {
        Model::Vt100 | Model::Vt102 => None,
        Model::Vt220 => Some(seq!['1', ';', '1', '0', ';', '0']),
        Model::Vt320 => Some(seq!['2', '4', ';', '1', '0', ';', '0']),
        Model::Vt420 => Some(seq!['4', '1', ';', '1', '0', ';', '0']),
        Model::Vt510 => Some(seq!['6', '1', ';', '1', '0', ';', '0']),
        Model::Vt520 => Some(seq!['6', '4', ';', '1', '0', ';', '0']),
        Model::Vt525 => Some(seq!['6', '5', ';', '1', '0', ';', '0']),
    }
}

/// Every model, in order of capability.
pub open spec fn all_models() -> Seq<Model> {
    seq![Model::Vt100, Model::Vt102, Model::Vt220, Model::Vt320, Model::Vt420, Model::Vt510, Model::Vt520, Model::Vt525]
}

impl Model {
    /// Highest conformance level (DECSCL).
    pub fn max_level(self) -> (r: u8)
        ensures
            r == max_level(self),
    {
        match self {
            Model::Vt100 | Model::Vt102 => 1,
            Model::Vt220 => 2,
            Model::Vt320 => 3,
            Model::Vt420 => 4,
            Model::Vt510 | Model::Vt520 | Model::Vt525 => 5,
        }
    }

    /// Parameters of the Primary DA response (`CSI ? … c`).
    ///
    /// Extension codes: 1 132 columns, 2 printer port, 6 selective erase,
    /// 7 DRCS, 8 UDK, 9 NRCS, 15 technical set, 18 windowing,
    /// 21 horizontal scrolling, 22 colour.
    pub fn primary_da(self) -> (r: &'static str)
        ensures
            r@ == primary_da(self),
    {
        proof {
            reveal_strlit("1;2");
            reveal_strlit("6");
            reveal_strlit("62;1;2;6;7;8;9");
            reveal_strlit("63;1;2;6;7;8;9");
            reveal_strlit("64;1;2;6;7;8;9;15;18;21");
            reveal_strlit("64;1;2;7;8;9;12;15;18;21;23;24;42");
            reveal_strlit("65;1;2;7;9;12;18;21;23;24;42");
            reveal_strlit("65;1;2;7;9;12;18;21;22;23;24;42");
        }
        let r = match self {
            Model::Vt100 => "1;2",
            Model::Vt102 => "6",
            Model::Vt220 => "62;1;2;6;7;8;9",
            Model::Vt320 => "63;1;2;6;7;8;9",
            Model::Vt420 => "64;1;2;6;7;8;9;15;18;21",
            // The VT510 reports class 64 (EK-VT510-RM DA1); 6, 8 and 15 are
            // implied at level 5 (EK-VT520-RM DA1).
            Model::Vt510 => "64;1;2;7;8;9;12;15;18;21;23;24;42",
            Model::Vt520 => "65;1;2;7;9;12;18;21;23;24;42",
            Model::Vt525 => "65;1;2;7;9;12;18;21;22;23;24;42",
        };
        assert(r@ =~= primary_da(self));
        r
    }

    /// Parameters of the Secondary DA response (`CSI > … c`); VT100-class terminals have none.
    pub fn secondary_da(self) -> (r: Option<&'static str>)
        ensures
            match secondary_da(self) {
                Some(s) => r matches Some(t) && t@ == s,
                None => r is None,
            },
    {
        proof {
            reveal_strlit("1;10;0");
            reveal_strlit("24;10;0");
            reveal_strlit("41;10;0");
            reveal_strlit("61;10;0");
            reveal_strlit("64;10;0");
            reveal_strlit("65;10;0");
        }
        let r = match self {
            Model::Vt100 | Model::Vt102 => None,
            Model::Vt220 => Some("1;10;0"),
            Model::Vt320 => Some("24;10;0"),
            Model::Vt420 => Some("41;10;0"),
            Model::Vt510 => Some("61;10;0"),
            Model::Vt520 => Some("64;10;0"),
            Model::Vt525 => Some("65;10;0"),
        };
        proof {
            if let Some(t) = r {
                assert(t@ =~= secondary_da(self)->0);
            }
        }
        r
    }

    /// The conventional `TERM` name for hosts that use terminfo.
    pub fn term_name(self) -> (r: &'static str)
        ensures
            r@ == term_name(self),
    {
        match self {
            Model::Vt510 | Model::Vt520 | Model::Vt525 => Model::Vt520.term_name_exact(),
            _ => self.term_name_exact(),
        }
    }

    /// The model's own name in lower case (`vt510`), unlike [`Model::term_name`].
    pub fn term_name_exact(self) -> (r: &'static str)
        ensures
            r@ == exact_name(self),
    {
        proof {
            reveal_strlit("vt100");
            reveal_strlit("vt102");
            reveal_strlit("vt220");
            reveal_strlit("vt320");
            reveal_strlit("vt420");
            reveal_strlit("vt510");
            reveal_strlit("vt520");
            reveal_strlit("vt525");
        }
        let r = match self {
            Model::Vt100 => "vt100",
            Model::Vt102 => "vt102",
            Model::Vt220 => "vt220",
            Model::Vt320 => "vt320",
            Model::Vt420 => "vt420",
            Model::Vt510 => "vt510",
            Model::Vt520 => "vt520",
            Model::Vt525 => "vt525",
        };
        assert(r@ =~= exact_name(self));
        r
    }

    /// Parses a model name such as `vt420` (any case).
    pub fn from_name(name: &str) -> (r: Option<Model>)
        ensures
            r matches Some(m) ==> ascii_lower(name@) == exact_name(m),
            r is None ==> forall|m: Model| ascii_lower(name@) != exact_name(m),
            r == model_named(name@),
    {
        let chars = str_chars(name);
        let models = [
            Model::Vt100,
            Model::Vt102,
            Model::Vt220,
            Model::Vt320,
            Model::Vt420,
            Model::Vt510,
            Model::Vt520,
            Model::Vt525,
        ];
        let mut i: usize = 0;
        while i < 8
            invariant
                i <= 8,
                chars@ == name@,
                models@ == all_models(),
                forall|j: int| 0 <= j < i ==> ascii_lower(name@) != exact_name(#[trigger] all_models()[j]),
            decreases 8 - i,
        {
            let m = models[i];
            let exact = str_chars(m.term_name_exact());
            if eq_ignore_ascii_case(&chars, &exact) {
                proof {
                    assert(ascii_lower(name@) == exact_name(m));
                    let k = choose|k: Model| ascii_lower(name@) == #[trigger] exact_name(k);
                    lemma_exact_name_injective(k, m);
                }
                return Some(m);
            }
            i = i + 1;
        }
        proof {
            assert forall|m: Model| ascii_lower(name@) != exact_name(m) by {
                let j: int = match m {
                    Model::Vt100 => 0,
                    Model::Vt102 => 1,
                    Model::Vt220 => 2,
                    Model::Vt320 => 3,
                    Model::Vt420 => 4,
                    Model::Vt510 => 5,
                    Model::Vt520 => 6,
                    Model::Vt525 => 7,
                };
                assert(all_models()[j] == m);
            }
        }
        None
    }

    /// VT320 and later have a status line.
    pub fn has_status_line(self) -> (r: bool)
        ensures
            r == (max_level(self) >= 3),
    {
        self.max_level() >= 3
    }

    /// DECSCLM at power-up: smooth scroll on the VT420 and VT510 (their
    /// programmer references), jump on the VT520 and VT525 (EK-VT520-RM
    /// table 2-10).
    pub fn smooth_scroll_default(self) -> (r: bool)
        ensures
            r == (self == Model::Vt420 || self == Model::Vt510),
    {
        match self {
            Model::Vt420 | Model::Vt510 => true,
            _ => false,
        }
    }

    pub fn has_color(self) -> (r: bool)
        ensures
            r == (self == Model::Vt525),
    {
        match self {
            Model::Vt525 => true,
            _ => false,
        }
    }
}

/// `a` equals `b` once ASCII letters of `a` are folded to lower case; `b`
/// is in lower case.
fn eq_ignore_ascii_case(a: &Vec<char>, b: &Vec<char>) -> (r: bool)
    requires
        forall|i: int| 0 <= i < b@.len() ==> !('A' <= #[trigger] b@[i] <= 'Z'),
    ensures
        r == (ascii_lower(a@) == b@),
{
    if a.len() != b.len() {
        proof {
            assert(ascii_lower(a@).len() == a@.len());
        }
        return false;
    }
    let mut i: usize = 0;
    while i < a.len()
        invariant
            i <= a.len(),
            a.len() == b.len(),
            forall|j: int| 0 <= j < i ==> ascii_lower(a@)[j] == b@[j],
        decreases a.len() - i,
    {
        let c = a[i];
        let lower = if 'A' <= c && c <= 'Z' {
            lower_letter(c)
        } else {
            c
        };
        if lower != b[i] {
            proof {
                assert(ascii_lower(a@)[i as int] != b@[i as int]);
            }
            return false;
        }
        i = i + 1;
    }
    proof {
        assert(ascii_lower(a@) =~= b@);
    }
    true
}

fn lower_letter(c: char) -> (r: char)
    requires
        'A' <= c <= 'Z',
    ensures
        r == ((c as u32) + 32) as char,
{
    let v = c as u8 + 32;
    v as char
}

/// Set-Up "Status Display".
#[derive(Debug, Clone, Copy, PartialEq, Eq, Structural)]
pub enum StatusDisplay {
    /// No status line ("None" in Set-Up).
    NoDisplay,
    /// Terminal indicators (the factory setting).
    Indicator,
    HostWritable,
}

impl StatusDisplay {
    /// The factory setting: the indicator line.
    pub fn factory() -> (r: StatusDisplay)
        ensures
            r == StatusDisplay::Indicator,
    {
        StatusDisplay::Indicator
    }
}

/// Set-Up "User-Preferred Supplemental Set".
#[derive(Debug, Clone, Copy, PartialEq, Eq, Structural)]
pub enum Supplemental {
    DecSupplemental,
    IsoLatin1,
}

impl Supplemental {
    pub fn charset(self) -> (r: Charset)
        ensures
            r == (match self {
                Supplemental::DecSupplemental => Charset::DecSupplemental,
                Supplemental::IsoLatin1 => Charset::IsoLatin1,
            }),
    {
        match self {
            Supplemental::DecSupplemental => Charset::DecSupplemental,
            Supplemental::IsoLatin1 => Charset::IsoLatin1,
        }
    }
}

/// Non-DEC behaviour. Everything here is off by default: veetee emulates
/// DEC terminals first and only adopts xterm conventions when a profile asks.
#[derive(Debug, Clone, Copy, PartialEq, Eq, Structural)]
pub struct Extensions {
    /// Decode UTF-8 from the host instead of DEC 8-bit graphic sets.
    pub utf8: bool,
    /// Accept ECMA-48 colon sub-parameters and xterm SGR 38/48/90–107.
    pub xterm_sgr: bool,
    /// Use xterm's reading where DEC documentation says otherwise.
    pub xterm_compat: bool,
}

impl Extensions {
    /// All extensions off.
    pub fn none() -> (r: Extensions)
        ensures
            !r.utf8 && !r.xterm_sgr && !r.xterm_compat,
    {
        Extensions { utf8: false, xterm_sgr: false, xterm_compat: false }
    }
}

/// Power-up / Set-Up configuration. Defaults are DEC factory Set-Up values.
#[derive(Debug, Clone, PartialEq, Eq)]
pub struct Config {
    pub model: Model,
    pub rows: usize,
    pub cols: usize,
    /// Set-Up "Auto Wrap". DEC factory default: off.
    pub autowrap: bool,
    /// Set-Up "New Line" (LNM). DEC factory default: off.
    pub new_line: bool,
    /// Set-Up "Answerback" message, sent in reply to ENQ.
    pub answerback: Vec<u8>,
    /// Lines kept after scrolling off the top of the page.
    pub scrollback_lines: usize,
    /// Set-Up "Status Display" (VT320 and later).
    pub status_display: StatusDisplay,
    /// Set-Up "Keyboard Language"; `None` is North American.
    pub keyboard_language: Option<Nrc>,
    /// Set-Up "Character Mode": 7-bit national (DECNRCM set) rather than 8-bit multinational.
    pub national_mode: bool,
    pub supplemental: Supplemental,
    /// Set-Up "User Defined Keys: Locked".
    pub udk_locked: bool,
    pub extensions: Extensions,
    /// Saved Set-Up features applied at power-up and by RIS; `None` for the
    /// factory settings.
    pub setup: Option<Features>,
}

impl Config {
    /// The DEC factory configuration of a VT420 with a 24×80 page.
    pub open spec fn is_factory(&self) -> bool {
        &&& self.model == Model::Vt420
        &&& self.rows == 24
        &&& self.cols == 80
        &&& !self.autowrap
        &&& !self.new_line
        &&& self.answerback@.len() == 0
        &&& self.scrollback_lines == 10_000
        &&& self.status_display == StatusDisplay::Indicator
        &&& self.keyboard_language is None
        &&& !self.national_mode
        &&& self.supplemental == Supplemental::DecSupplemental
        &&& !self.udk_locked
        &&& !self.extensions.utf8 && !self.extensions.xterm_sgr && !self.extensions.xterm_compat
        &&& self.setup is None
    }
}

impl Default for Config {
    fn default() -> (r: Config)
        ensures
            r.is_factory(),
    {
        Config {
            model: Model::Vt420,
            rows: 24,
            cols: 80,
            autowrap: false,
            new_line: false,
            answerback: Vec::new(),
            scrollback_lines: 10_000,
            status_display: StatusDisplay::Indicator,
            keyboard_language: None,
            national_mode: false,
            supplemental: Supplemental::DecSupplemental,
            udk_locked: false,
            extensions: Extensions::none(),
            setup: None,
        }
    }
}

} // verus!
