//! Codes sent by DEC keyboard keys, per the VT100, VT220 and VT420
//! programmer references. Physical keyboard mapping (PC → LK401) lives in
//! the frontend; this module only knows DEC logical keys.

use vstd::prelude::*;
use crate::text::{dec_bytes, push_dec_bytes};

verus! {

/// A DEC logical key (LK201/LK401 layout).
#[derive(Debug, Clone, Copy, PartialEq, Eq, Hash, Structural)]
pub enum Key {
    Return,
    /// The `<X]` key. Sends DEL unless DECBKM selects BS.
    Delete,
    Tab,
    /// VT100 Line Feed key (F13 in VT100 mode on later keyboards).
    LineFeed,
    /// VT100 Escape key (F11 in VT100 mode on later keyboards).
    Escape,
    /// VT100 Back Space key (F12 in VT100 mode on later keyboards).
    Backspace,
    Up,
    Down,
    Right,
    Left,
    // LK201 editing keypad (VT220 and later).
    Find,
    InsertHere,
    Remove,
    Select,
    PrevScreen,
    NextScreen,
    // Numeric keypad.
    Pf1,
    Pf2,
    Pf3,
    Pf4,
    /// Keypad digit 0–9.
    Keypad(u8),
    KeypadMinus,
    KeypadComma,
    KeypadPeriod,
    KeypadEnter,
    /// Top-row function key F6–F20 (F15 is Help, F16 is Do). F1–F5 are local
    /// functions (Hold Screen, Print Screen, Set-Up, Data/Talk, Break) and
    /// are handled by the frontend.
    Function(u8),
    /// A shifted F6–F20, which sends the host's user-defined key string
    /// (DECUDK); the terminal looks the string up, so the key itself sends
    /// no fixed code.
    UserDefined(u8),
}

/// Modifier keys held with a key.
#[derive(Debug, Clone, Copy, PartialEq, Eq, Hash, Structural)]
pub struct KeyMods {
    pub shift: bool,
    pub alt: bool,
    pub ctrl: bool,
}

impl KeyMods {
    /// No modifier held.
    pub fn none() -> (r: KeyMods)
        ensures
            !r.shift && !r.alt && !r.ctrl,
    {
        KeyMods { shift: false, alt: false, ctrl: false }
    }

    /// The DEC modifier number: 1 none, 2 Shift, 3 Alt, 4 Alt+Shift,
    /// 5 Ctrl, 6 Ctrl+Shift, 7 Alt+Ctrl, 8 all.
    pub fn decfnk(self) -> (r: u8)
        ensures
            r == 1 + (if self.shift { 1int } else { 0 }) + (if self.alt { 2int } else { 0 }) + (if self.ctrl { 4int } else { 0 }),
    {
        let mut n: u8 = 1;
        if self.shift {
            n = n + 1;
        }
        if self.alt {
            n = n + 2;
        }
        if self.ctrl {
            n = n + 4;
        }
        n
    }
}

/// Terminal state that affects the codes a key sends.
#[derive(Debug, Clone, Copy, PartialEq, Eq, Structural)]
pub struct KeyContext {
    pub ansi: bool,
    pub level: u8,
    pub eight_bit: bool,
    pub cursor_app: bool,
    pub keypad_app: bool,
    pub new_line: bool,
    pub backarrow_bs: bool,
}

/// CSI: 0x9B with 8-bit controls, else ESC `[`.
pub open spec fn csi(cx: KeyContext) -> Seq<u8> {
    if cx.eight_bit { seq![0x9Bu8] } else { seq![0x1Bu8, 0x5B] }
}

/// SS3: 0x8F with 8-bit controls, else ESC `O`.
pub open spec fn ss3(cx: KeyContext) -> Seq<u8> {
    if cx.eight_bit { seq![0x8Fu8] } else { seq![0x1Bu8, 0x4F] }
}

/// The smaller of a digit and 9.
pub open spec fn digit(d: u8) -> u8 {
    if d < 9 { d } else { 9 }
}

/// What Return sends: CR, and LF too in new-line mode.
pub open spec fn return_code(cx: KeyContext) -> Seq<u8> {
    if cx.new_line { seq![0x0Du8, 0x0A] } else { seq![0x0Du8] }
}

/// The VT220+ `CSI n ~` code of an editing or function key.
pub open spec fn tilde_code(cx: KeyContext, n: nat) -> Seq<u8> {
    csi(cx) + dec_bytes(n) + seq![0x7Eu8]
}

/// The codes `key` sends in context `cx`; empty for keys that send nothing.
pub open spec fn key_code(key: Key, cx: KeyContext) -> Seq<u8> {
    match key {
        Key::Return => return_code(cx),
        Key::Delete => seq![if cx.backarrow_bs { 0x08u8 } else { 0x7Fu8 }],
        Key::Tab => seq![0x09u8],
        Key::LineFeed => seq![0x0Au8],
        Key::Escape => seq![0x1Bu8],
        Key::Backspace => seq![0x08u8],
        Key::Up | Key::Down | Key::Right | Key::Left => {
            let code: u8 = match key {
                Key::Up => 0x41,
                Key::Down => 0x42,
                Key::Right => 0x43,
                _ => 0x44,
            };
            if !cx.ansi {
                seq![0x1Bu8, code]
            } else if cx.cursor_app {
                ss3(cx).push(code)
            } else {
                csi(cx).push(code)
            }
        },
        Key::Pf1 | Key::Pf2 | Key::Pf3 | Key::Pf4 => {
            let code: u8 = match key {
                Key::Pf1 => 0x50,
                Key::Pf2 => 0x51,
                Key::Pf3 => 0x52,
                _ => 0x53,
            };
            if cx.ansi { ss3(cx).push(code) } else { seq![0x1Bu8, code] }
        },
        Key::Keypad(_) | Key::KeypadMinus | Key::KeypadComma | Key::KeypadPeriod | Key::KeypadEnter => {
            if !cx.keypad_app {
                match key {
                    Key::Keypad(d) => seq![(0x30 + digit(d)) as u8],
                    Key::KeypadMinus => seq![0x2Du8],
                    Key::KeypadComma => seq![0x2Cu8],
                    Key::KeypadPeriod => seq![0x2Eu8],
                    _ => return_code(cx),
                }
            } else {
                let code: u8 = match key {
                    Key::Keypad(d) => (0x70 + digit(d)) as u8,
                    Key::KeypadMinus => 0x6D,
                    Key::KeypadComma => 0x6C,
                    Key::KeypadPeriod => 0x6E,
                    _ => 0x4D,
                };
                if cx.ansi { ss3(cx).push(code) } else { seq![0x1Bu8, 0x3F, code] }
            }
        },
        Key::Find | Key::InsertHere | Key::Remove | Key::Select | Key::PrevScreen | Key::NextScreen => {
            if cx.level < 2 || !cx.ansi {
                seq![]
            } else {
                let n: nat = match key {
                    Key::Find => 1,
                    Key::InsertHere => 2,
                    Key::Remove => 3,
                    Key::Select => 4,
                    Key::PrevScreen => 5,
                    _ => 6,
                };
                tilde_code(cx, n)
            }
        },
        Key::Function(f) => {
            if cx.level < 2 || !cx.ansi {
                if f == 11 {
                    seq![0x1Bu8]
                } else if f == 12 {
                    seq![0x08u8]
                } else if f == 13 {
                    seq![0x0Au8]
                } else {
                    seq![]
                }
            } else if 6 <= f <= 10 {
                tilde_code(cx, (f + 11) as nat)
            } else if 11 <= f <= 14 {
                tilde_code(cx, (f + 12) as nat)
            } else if f == 15 || f == 16 {
                tilde_code(cx, (f + 13) as nat)
            } else if 17 <= f <= 20 {
                tilde_code(cx, (f + 14) as nat)
            } else {
                seq![]
            }
        },
        Key::UserDefined(_) => seq![],
    }
}

impl KeyContext {
    fn csi(&self, out: &mut Vec<u8>)
        ensures
            final(out)@ == old(out)@ + csi(*self),
    {
        if self.eight_bit {
            out.push(0x9B);
        } else {
            out.push(0x1B);
            out.push(0x5B);
        }
        assert(final(out)@ =~= old(out)@ + csi(*self));
    }

    fn ss3(&self, out: &mut Vec<u8>)
        ensures
            final(out)@ == old(out)@ + ss3(*self),
    {
        if self.eight_bit {
            out.push(0x8F);
        } else {
            out.push(0x1B);
            out.push(0x4F);
        }
        assert(final(out)@ =~= old(out)@ + ss3(*self));
    }

    fn tilde(&self, n: u8, out: &mut Vec<u8>)
        ensures
            final(out)@ == old(out)@ + tilde_code(*self, n as nat),
    {
        self.csi(out);
        push_dec_bytes(out, n as u64);
        out.push(0x7E);
        assert(final(out)@ =~= old(out)@ + tilde_code(*self, n as nat));
    }
}

fn push_return(cx: KeyContext, out: &mut Vec<u8>)
    ensures
        final(out)@ == old(out)@ + return_code(cx),
{
    out.push(0x0D);
    if cx.new_line {
        out.push(0x0A);
    }
    assert(final(out)@ =~= old(out)@ + return_code(cx));
}

/// Appends the codes for `key` to `out`. Keys that send nothing in the
/// current mode leave `out` unchanged.
pub fn encode(key: Key, cx: KeyContext, out: &mut Vec<u8>)
    ensures
        final(out)@ == old(out)@ + key_code(key, cx),
{
    let ghost start = out@;
    match key {
        Key::Return => push_return(cx, out),
        Key::Delete => out.push(if cx.backarrow_bs { 0x08 } else { 0x7F }),
        Key::Tab => out.push(0x09),
        Key::LineFeed => out.push(0x0A),
        Key::Escape => out.push(0x1B),
        Key::Backspace => out.push(0x08),
        Key::Up | Key::Down | Key::Right | Key::Left => {
            let code: u8 = match key {
                Key::Up => 0x41,
                Key::Down => 0x42,
                Key::Right => 0x43,
                _ => 0x44,
            };
            if !cx.ansi {
                out.push(0x1B);
                out.push(code);
            } else if cx.cursor_app {
                cx.ss3(out);
                out.push(code);
            } else {
                cx.csi(out);
                out.push(code);
            }
        },
        Key::Pf1 | Key::Pf2 | Key::Pf3 | Key::Pf4 => {
            let code: u8 = match key {
                Key::Pf1 => 0x50,
                Key::Pf2 => 0x51,
                Key::Pf3 => 0x52,
                _ => 0x53,
            };
            if cx.ansi {
                cx.ss3(out);
            } else {
                out.push(0x1B);
            }
            out.push(code);
        },
        Key::Keypad(_) | Key::KeypadMinus | Key::KeypadComma | Key::KeypadPeriod | Key::KeypadEnter => {
            if !cx.keypad_app {
                match key {
                    Key::Keypad(d) => out.push(0x30 + if d < 9 { d } else { 9 }),
                    Key::KeypadMinus => out.push(0x2D),
                    Key::KeypadComma => out.push(0x2C),
                    Key::KeypadPeriod => out.push(0x2E),
                    _ => push_return(cx, out),
                }
            } else {
                let code: u8 = match key {
                    Key::Keypad(d) => 0x70 + if d < 9 { d } else { 9 },
                    Key::KeypadMinus => 0x6D,
                    Key::KeypadComma => 0x6C,
                    Key::KeypadPeriod => 0x6E,
                    _ => 0x4D,
                };
                if cx.ansi {
                    cx.ss3(out);
                } else {
                    out.push(0x1B);
                    out.push(0x3F);
                }
                out.push(code);
            }
        },
        Key::Find | Key::InsertHere | Key::Remove | Key::Select | Key::PrevScreen | Key::NextScreen => {
            if cx.level >= 2 && cx.ansi {
                let n: u8 = match key {
                    Key::Find => 1,
                    Key::InsertHere => 2,
                    Key::Remove => 3,
                    Key::Select => 4,
                    Key::PrevScreen => 5,
                    _ => 6,
                };
                cx.tilde(n, out);
            }
        },
        Key::Function(f) => {
            if cx.level < 2 || !cx.ansi {
                // VT100 mode: only F11–F13 send codes (ESC, BS, LF).
                if f == 11 {
                    out.push(0x1B);
                } else if f == 12 {
                    out.push(0x08);
                } else if f == 13 {
                    out.push(0x0A);
                }
            } else if 6 <= f && f <= 10 {
                cx.tilde(f + 11, out);
            } else if 11 <= f && f <= 14 {
                cx.tilde(f + 12, out);
            } else if f == 15 || f == 16 {
                cx.tilde(f + 13, out);
            } else if 17 <= f && f <= 20 {
                cx.tilde(f + 14, out);
            }
        },
        Key::UserDefined(_) => {},
    }
    assert(out@ =~= start + key_code(key, cx));
}

/// The arrow keys send their final byte A, B, C, D (Up, Down, Right,
/// Left): ESC and the byte in VT52 mode; in ANSI mode after SS3 with
/// application cursor keys, else after CSI (ESC [ with 7-bit controls, the
/// single byte 0x9B with 8-bit controls). No two arrow keys send the same
/// code.
pub proof fn lemma_arrow_key_codes(cx: KeyContext)
    ensures
        ({
            let lead: Seq<u8> = if !cx.ansi {
                seq![0x1Bu8]
            } else if cx.cursor_app {
                if cx.eight_bit { seq![0x8Fu8] } else { seq![0x1Bu8, 0x4Fu8] }
            } else if cx.eight_bit {
                seq![0x9Bu8]
            } else {
                seq![0x1Bu8, 0x5Bu8]
            };
            &&& key_code(Key::Up, cx) == lead.push(0x41u8)
            &&& key_code(Key::Down, cx) == lead.push(0x42u8)
            &&& key_code(Key::Right, cx) == lead.push(0x43u8)
            &&& key_code(Key::Left, cx) == lead.push(0x44u8)
        }),
        key_code(Key::Up, cx) != key_code(Key::Down, cx),
        key_code(Key::Up, cx) != key_code(Key::Right, cx),
        key_code(Key::Up, cx) != key_code(Key::Left, cx),
        key_code(Key::Down, cx) != key_code(Key::Right, cx),
        key_code(Key::Down, cx) != key_code(Key::Left, cx),
        key_code(Key::Right, cx) != key_code(Key::Left, cx),
{
    let u = key_code(Key::Up, cx);
    let d = key_code(Key::Down, cx);
    let r = key_code(Key::Right, cx);
    let l = key_code(Key::Left, cx);
    assert(u.last() == 0x41u8 && d.last() == 0x42u8 && r.last() == 0x43u8 && l.last() == 0x44u8);
}

proof fn lemma_dec_bytes_small(n: nat)
    ensures
        n < 10 ==> dec_bytes(n) == seq![(0x30 + n) as u8],
        10 <= n < 100 ==> dec_bytes(n) == seq![(0x30 + n / 10) as u8, (0x30 + n % 10) as u8],
{
    reveal_with_fuel(crate::text::dec, 3);
    if n < 10 {
        assert(dec_bytes(n) =~= seq![(0x30 + n) as u8]);
    } else if n < 100 {
        assert(n / 10 < 10);
        assert(dec_bytes(n) =~= seq![(0x30 + n / 10) as u8, (0x30 + n % 10) as u8]);
    }
}

/// The codes of the keys that send fixed codes (DEC STD 070 and the VT
/// terminal reference manuals): Return sends CR (and LF in new-line mode),
/// `<X]` DEL (BS under DECBKM), the PF keys SS3 P to S (ESC P to S in VT52
/// mode); the numeric keypad its characters, or in application mode SS3
/// (ESC ?) and p to y, m, l, n and M; from the VT220 on in ANSI mode the
/// editing keys CSI 1 ~ to CSI 6 ~ and F6 to F20 CSI 17 ~ to CSI 34 ~,
/// skipping 22, 27 and 30; in VT100 or VT52 mode only F11, F12 and F13
/// send, as ESC, BS and LF. Shifted function keys send no fixed code.
pub proof fn lemma_key_code_table(cx: KeyContext)
    ensures
        ({
            let csi: Seq<u8> = if cx.eight_bit { seq![0x9Bu8] } else { seq![0x1Bu8, 0x5Bu8] };
            let ss3: Seq<u8> = if cx.eight_bit { seq![0x8Fu8] } else { seq![0x1Bu8, 0x4Fu8] };
            let cr: Seq<u8> = if cx.new_line { seq![0x0Du8, 0x0Au8] } else { seq![0x0Du8] };
            &&& key_code(Key::Return, cx) == cr
            &&& key_code(Key::Delete, cx) == (if cx.backarrow_bs { seq![0x08u8] } else { seq![0x7Fu8] })
            &&& key_code(Key::Tab, cx) == seq![0x09u8]
            &&& key_code(Key::LineFeed, cx) == seq![0x0Au8]
            &&& key_code(Key::Escape, cx) == seq![0x1Bu8]
            &&& key_code(Key::Backspace, cx) == seq![0x08u8]
            &&& key_code(Key::Pf1, cx) == (if cx.ansi { ss3 } else { seq![0x1Bu8] }).push(0x50u8)
            &&& key_code(Key::Pf2, cx) == (if cx.ansi { ss3 } else { seq![0x1Bu8] }).push(0x51u8)
            &&& key_code(Key::Pf3, cx) == (if cx.ansi { ss3 } else { seq![0x1Bu8] }).push(0x52u8)
            &&& key_code(Key::Pf4, cx) == (if cx.ansi { ss3 } else { seq![0x1Bu8] }).push(0x53u8)
            &&& !cx.keypad_app ==> {
                &&& forall|d: u8| d <= 9 ==> #[trigger] key_code(Key::Keypad(d), cx) == seq![(0x30 + d) as u8]
                &&& key_code(Key::KeypadMinus, cx) == seq![0x2Du8]
                &&& key_code(Key::KeypadComma, cx) == seq![0x2Cu8]
                &&& key_code(Key::KeypadPeriod, cx) == seq![0x2Eu8]
                &&& key_code(Key::KeypadEnter, cx) == cr
            }
            &&& cx.keypad_app ==> {
                let lead: Seq<u8> = if cx.ansi { ss3 } else { seq![0x1Bu8, 0x3Fu8] };
                &&& forall|d: u8| d <= 9 ==> #[trigger] key_code(Key::Keypad(d), cx) == lead.push((0x70 + d) as u8)
                &&& key_code(Key::KeypadMinus, cx) == lead.push(0x6Du8)
                &&& key_code(Key::KeypadComma, cx) == lead.push(0x6Cu8)
                &&& key_code(Key::KeypadPeriod, cx) == lead.push(0x6Eu8)
                &&& key_code(Key::KeypadEnter, cx) == lead.push(0x4Du8)
            }
            &&& (cx.ansi && cx.level >= 2) ==> {
            &&& key_code(Key::Find, cx) == csi + seq![0x31u8, 0x7Eu8]
            &&& key_code(Key::InsertHere, cx) == csi + seq![0x32u8, 0x7Eu8]
            &&& key_code(Key::Remove, cx) == csi + seq![0x33u8, 0x7Eu8]
            &&& key_code(Key::Select, cx) == csi + seq![0x34u8, 0x7Eu8]
            &&& key_code(Key::PrevScreen, cx) == csi + seq![0x35u8, 0x7Eu8]
            &&& key_code(Key::NextScreen, cx) == csi + seq![0x36u8, 0x7Eu8]
            &&& key_code(Key::Function(6), cx) == csi + seq![0x31u8, 0x37u8, 0x7Eu8]
            &&& key_code(Key::Function(7), cx) == csi + seq![0x31u8, 0x38u8, 0x7Eu8]
            &&& key_code(Key::Function(8), cx) == csi + seq![0x31u8, 0x39u8, 0x7Eu8]
            &&& key_code(Key::Function(9), cx) == csi + seq![0x32u8, 0x30u8, 0x7Eu8]
            &&& key_code(Key::Function(10), cx) == csi + seq![0x32u8, 0x31u8, 0x7Eu8]
            &&& key_code(Key::Function(11), cx) == csi + seq![0x32u8, 0x33u8, 0x7Eu8]
            &&& key_code(Key::Function(12), cx) == csi + seq![0x32u8, 0x34u8, 0x7Eu8]
            &&& key_code(Key::Function(13), cx) == csi + seq![0x32u8, 0x35u8, 0x7Eu8]
            &&& key_code(Key::Function(14), cx) == csi + seq![0x32u8, 0x36u8, 0x7Eu8]
            &&& key_code(Key::Function(15), cx) == csi + seq![0x32u8, 0x38u8, 0x7Eu8]
            &&& key_code(Key::Function(16), cx) == csi + seq![0x32u8, 0x39u8, 0x7Eu8]
            &&& key_code(Key::Function(17), cx) == csi + seq![0x33u8, 0x31u8, 0x7Eu8]
            &&& key_code(Key::Function(18), cx) == csi + seq![0x33u8, 0x32u8, 0x7Eu8]
            &&& key_code(Key::Function(19), cx) == csi + seq![0x33u8, 0x33u8, 0x7Eu8]
            &&& key_code(Key::Function(20), cx) == csi + seq![0x33u8, 0x34u8, 0x7Eu8]
            }
            &&& !(cx.ansi && cx.level >= 2) ==> {
            &&& key_code(Key::Find, cx) == Seq::<u8>::empty()
            &&& key_code(Key::InsertHere, cx) == Seq::<u8>::empty()
            &&& key_code(Key::Remove, cx) == Seq::<u8>::empty()
            &&& key_code(Key::Select, cx) == Seq::<u8>::empty()
            &&& key_code(Key::PrevScreen, cx) == Seq::<u8>::empty()
            &&& key_code(Key::NextScreen, cx) == Seq::<u8>::empty()
            &&& key_code(Key::Function(11), cx) == seq![0x1Bu8]
            &&& key_code(Key::Function(12), cx) == seq![0x08u8]
            &&& key_code(Key::Function(13), cx) == seq![0x0Au8]
            &&& forall|f: u8| f != 11 && f != 12 && f != 13 ==> #[trigger] key_code(Key::Function(f), cx) == Seq::<u8>::empty()
            }
            &&& forall|f: u8| #[trigger] key_code(Key::UserDefined(f), cx) == Seq::<u8>::empty()
        }),
{
    lemma_dec_bytes_small(1);
    lemma_dec_bytes_small(2);
    lemma_dec_bytes_small(3);
    lemma_dec_bytes_small(4);
    lemma_dec_bytes_small(5);
    lemma_dec_bytes_small(6);
    lemma_dec_bytes_small(17);
    lemma_dec_bytes_small(18);
    lemma_dec_bytes_small(19);
    lemma_dec_bytes_small(20);
    lemma_dec_bytes_small(21);
    lemma_dec_bytes_small(23);
    lemma_dec_bytes_small(24);
    lemma_dec_bytes_small(25);
    lemma_dec_bytes_small(26);
    lemma_dec_bytes_small(28);
    lemma_dec_bytes_small(29);
    lemma_dec_bytes_small(31);
    lemma_dec_bytes_small(32);
    lemma_dec_bytes_small(33);
    lemma_dec_bytes_small(34);
    assert forall|d: u8| d <= 9 implies #[trigger] key_code(Key::Keypad(d), cx) == (if !cx.keypad_app {
        seq![(0x30 + d) as u8]
    } else {
        (if cx.ansi { if cx.eight_bit { seq![0x8Fu8] } else { seq![0x1Bu8, 0x4Fu8] } } else { seq![0x1Bu8, 0x3Fu8] }).push((0x70 + d) as u8)
    }) by {
        assert(digit(d) == d);
    }
}

} // verus!
