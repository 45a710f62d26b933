//! The parts of the terminal that stand apart from the control-function
//! parser: cursor styles, local function key actions, sound volumes, the
//! VT500 communication codes Set-Up shares with the host, and keeping the
//! saved Set-Up features and the power-up configuration in step.

use vstd::prelude::*;
use crate::config::{exact_name, Config, Model};
use crate::setup::{Features, Parity, Volume};
use crate::text::{parse_uint, parse_uint_chars, str_chars, string_from};

verus! {

/// Cursor appearance selected with DECSCUSR.
#[derive(Debug, Clone, Copy, PartialEq, Eq, Structural)]
pub enum CursorStyle {
    /// The DEC factory default.
    BlinkingBlock,
    SteadyBlock,
    BlinkingUnderline,
    SteadyUnderline,
}

impl CursorStyle {
    /// The factory style: a blinking block.
    pub fn factory() -> (r: CursorStyle)
        ensures
            r == CursorStyle::BlinkingBlock,
    {
        CursorStyle::BlinkingBlock
    }

    pub fn is_block(self) -> (r: bool)
        ensures
            r == (self == CursorStyle::BlinkingBlock || self == CursorStyle::SteadyBlock),
    {
        match self {
            CursorStyle::BlinkingBlock | CursorStyle::SteadyBlock => true,
            _ => false,
        }
    }

    pub fn blinks(self) -> (r: bool)
        ensures
            r == (self == CursorStyle::BlinkingBlock || self == CursorStyle::BlinkingUnderline),
    {
        match self {
            CursorStyle::BlinkingBlock | CursorStyle::BlinkingUnderline => true,
            _ => false,
        }
    }

    /// The DECSCUSR code of the style.
    pub fn code(self) -> (r: u16)
        ensures
            1 <= r <= 4,
            r == match self {
                CursorStyle::BlinkingBlock => 1u16,
                CursorStyle::SteadyBlock => 2,
                CursorStyle::BlinkingUnderline => 3,
                CursorStyle::SteadyUnderline => 4,
            },
    {
        match self {
            CursorStyle::BlinkingBlock => 1,
            CursorStyle::SteadyBlock => 2,
            CursorStyle::BlinkingUnderline => 3,
            CursorStyle::SteadyUnderline => 4,
        }
    }
}

impl Default for CursorStyle {
    fn default() -> (r: CursorStyle)
        ensures
            r == CursorStyle::BlinkingBlock,
    {
        CursorStyle::BlinkingBlock
    }
}

/// DECLFKC: what a local function key (F1 Hold, F2 Print, F3 Set-Up,
/// F4 Session) does.
#[derive(Debug, Clone, Copy, PartialEq, Eq, Structural)]
pub enum LocalKeyAction {
    /// Performs its local function (factory setting).
    Local,
    /// Sends its function key sequence to the host.
    SendToHost,
    /// Does nothing.
    Disabled,
}

impl Default for LocalKeyAction {
    fn default() -> (r: LocalKeyAction)
        ensures
            r == LocalKeyAction::Local,
    {
        LocalKeyAction::Local
    }
}

/// The volumes of the terminal's sounds.
#[derive(Debug, Clone, Copy, PartialEq, Eq, Structural)]
pub struct SoundVolumes {
    pub keyclick: Volume,
    pub warning_bell: Volume,
    pub margin_bell: Volume,
}

/// The volume a VT520 volume selection stands for: 1 off, 2–4 low, 0 and
/// 5–8 high; a value that is not a number is high.
pub open spec fn volume_spec(value: Seq<char>) -> Volume {
    match parse_uint(value, 255) {
        Some(n) => if n == 1 {
            Volume::Off
        } else if 2 <= n <= 4 {
            Volume::Low
        } else {
            Volume::High
        },
        None => Volume::High,
    }
}

/// Reads a volume selection.
pub fn volume_of(value: &str) -> (r: Volume)
    ensures
        r == volume_spec(value@),
{
    let cs = str_chars(value);
    match parse_uint_chars(cs.as_slice(), 255) {
        Some(n) => if n == 1 {
            Volume::Off
        } else if 2 <= n && n <= 4 {
            Volume::Low
        } else {
            Volume::High
        },
        None => Volume::High,
    }
}

/// The selection code of a volume: 1 off, 3 low, 5 high.
pub fn volume_code(v: Volume) -> (r: u8)
    ensures
        r == match v {
            Volume::Off => 1u8,
            Volume::Low => 3,
            Volume::High => 5,
        },
        volume_spec(crate::text::dec(r as nat)) == v,
{
    proof {
        crate::text::lemma_parse_dec(1, 255);
        crate::text::lemma_parse_dec(3, 255);
        crate::text::lemma_parse_dec(5, 255);
    }
    match v {
        Volume::Off => 1,
        Volume::Low => 3,
        Volume::High => 5,
    }
}

/// DECSCS line speeds by code 1–11 (EK-VT520-RM).
pub open spec fn speed_table(code: int) -> Option<u32> {
    if code == 1 {
        Some(300)
    } else if code == 2 {
        Some(600)
    } else if code == 3 {
        Some(1200)
    } else if code == 4 {
        Some(2400)
    } else if code == 5 {
        Some(4800)
    } else if code == 6 {
        Some(9600)
    } else if code == 7 {
        Some(19200)
    } else if code == 8 {
        Some(38400)
    } else if code == 9 {
        Some(57600)
    } else if code == 10 {
        Some(76800)
    } else if code == 11 {
        Some(115200)
    } else {
        None
    }
}

/// The DECSCS code of a line speed; 6 (9600) for a speed not in the table.
pub fn speed_code(speed: u32) -> (r: u16)
    ensures
        1 <= r <= 11,
        speed_table(r as int) == Some(speed) || (r == 6 && forall|c: int| 1 <= c <= 11 ==> speed_table(c) != Some(speed)),
{
    if speed == 300 {
        1
    } else if speed == 600 {
        2
    } else if speed == 1200 {
        3
    } else if speed == 2400 {
        4
    } else if speed == 4800 {
        5
    } else if speed == 9600 {
        6
    } else if speed == 19200 {
        7
    } else if speed == 38400 {
        8
    } else if speed == 57600 {
        9
    } else if speed == 76800 {
        10
    } else if speed == 115200 {
        11
    } else {
        6
    }
}

/// The line speed of a DECSCS code; 9600 for a code out of range.
pub fn speed_of(code: u16) -> (r: u32)
    ensures
        r == match speed_table(code as int) {
            Some(s) => s,
            None => 9600,
        },
{
    if code == 1 {
        300
    } else if code == 2 {
        600
    } else if code == 3 {
        1200
    } else if code == 4 {
        2400
    } else if code == 5 {
        4800
    } else if code == 6 {
        9600
    } else if code == 7 {
        19200
    } else if code == 8 {
        38400
    } else if code == 9 {
        57600
    } else if code == 10 {
        76800
    } else if code == 11 {
        115200
    } else {
        9600
    }
}

/// The modem speed of a DECSCS code: 0 ignores the speed indicator.
pub fn modem_speed_of(code: u16) -> (r: Option<u32>)
    ensures
        code == 0 ==> r is None,
        code > 0 ==> r == Some(match speed_table(code as int) {
            Some(s) => s,
            None => 9600u32,
        }),
{
    if code > 0 {
        Some(speed_of(code))
    } else {
        None
    }
}

/// The DECSPP parity code, 1–7 in the order none, even, odd, even
/// unchecked, odd unchecked, mark, space.
pub fn parity_code(parity: Parity) -> (r: u16)
    ensures
        r == match parity {
            Parity::NoParity => 1u16,
            Parity::Even => 2,
            Parity::Odd => 3,
            Parity::EvenUnchecked => 4,
            Parity::OddUnchecked => 5,
            Parity::Mark => 6,
            Parity::Space => 7,
        },
{
    match parity {
        Parity::NoParity => 1,
        Parity::Even => 2,
        Parity::Odd => 3,
        Parity::EvenUnchecked => 4,
        Parity::OddUnchecked => 5,
        Parity::Mark => 6,
        Parity::Space => 7,
    }
}

/// The DECSFC flow control type for Set-Up's 0 none, 1 XON/XOFF, 2 DSR/DTR,
/// 3 both: none is code 4.
pub fn flow_code(flow: u8) -> (r: u16)
    ensures
        r == (if flow == 0 { 4 } else { flow as u16 }),
{
    if flow == 0 {
        4
    } else {
        flow as u16
    }
}

/// Set-Up's flow control for a DECSFC type: code 4 is none, larger codes
/// read as 3.
pub fn flow_of(code: u16) -> (r: u8)
    ensures
        r == (if code == 4 { 0 } else if code > 3 { 3 } else { code as u8 }),
{
    if code == 4 {
        0
    } else if code > 3 {
        3
    } else {
        code as u8
    }
}

/// The Set-Up flow type reads back from its code.
pub proof fn lemma_flow_round_trip(flow: u8)
    requires
        flow <= 3,
    ensures
        ({
            let code: u16 = if flow == 0 { 4 } else { flow as u16 };
            (if code == 4 { 0 } else if code > 3 { 3 } else { code as u8 }) == flow
        }),
{
}

/// ASCII letters in upper case; every other character kept.
pub open spec fn ascii_upper(s: Seq<char>) -> Seq<char> {
    s.map_values(|c: char| if 'a' <= c <= 'z' { ((c as u32) - 32) as char } else { c })
}

impl Model {
    /// Set-Up's name for the model, e.g. `VT420`.
    pub fn setup_name(self) -> (r: String)
        ensures
            r@ == ascii_upper(exact_name(self)),
    {
        let cs = str_chars(self.term_name_exact());
        let mut out: Vec<char> = Vec::new();
        let mut i: usize = 0;
        while i < cs.len()
            invariant
                i <= cs@.len(),
                out@ == ascii_upper(cs@.subrange(0, i as int)),
            decreases cs@.len() - i,
        {
            let c = cs[i];
            let u = if 'a' <= c && c <= 'z' {
                let v = (c as u8) - 32;
                v as char
            } else {
                c
            };
            out.push(u);
            i = i + 1;
            assert(out@ =~= ascii_upper(cs@.subrange(0, i as int)));
        }
        assert(cs@.subrange(0, i as int) =~= cs@);
        string_from(&out)
    }
}

impl Config {
    /// Records `features` as the saved (power-up) settings, keeping the
    /// individual configuration fields in step.
    pub fn set_saved_features(&mut self, features: Features)
        ensures
            final(self).model == old(self).model,
            final(self).rows == old(self).rows,
            final(self).cols == old(self).cols,
            final(self).scrollback_lines == old(self).scrollback_lines,
            final(self).extensions == old(self).extensions,
            final(self).autowrap == features.autowrap,
            final(self).new_line == features.new_line,
            final(self).answerback@ == features.answerback@,
            final(self).status_display == features.status,
            final(self).keyboard_language == features.keyboard_language,
            final(self).national_mode == features.national,
            final(self).supplemental == features.upss,
            final(self).udk_locked == features.udk_locked,
            final(self).setup == Some(features),
    {
        self.autowrap = features.autowrap;
        self.new_line = features.new_line;
        self.answerback = crate::keyprog::copy_bytes(&features.answerback);
        self.status_display = features.status;
        self.keyboard_language = features.keyboard_language;
        self.national_mode = features.national;
        self.supplemental = features.upss;
        self.udk_locked = features.udk_locked;
        self.setup = Some(features);
    }
}

} // verus!
