//! The saved form of the Set-Up features: `name=value` lines.

use vstd::prelude::*;
use crate::config::StatusDisplay;
use crate::config::Supplemental;
use crate::setup::{
    dialect_index, dialect_position, parity_name, BreakKey, ComposeKey, Features, FeaturesView,
    Scroll, TerminalMode, Volume,
};
use crate::terminal::{CursorStyle, LocalKeyAction};
use crate::text::{dec, hex_text, push_dec, push_hex, push_str, string_from};

verus! {

/// One saved line: `name=value` and a line feed.
#[verifier::opaque]
pub open spec fn line(k: Seq<char>, v: Seq<char>) -> Seq<char> {
    k + seq!['='] + v + seq!['\n']
}

/// A switch: `1` on, `0` off.
#[verifier::opaque]
pub open spec fn flag_text(b: bool) -> Seq<char> {
    if b { "1"@ } else { "0"@ }
}

pub open spec fn scroll_name(s: Scroll) -> Seq<char> {
    match s {
        Scroll::Jump => "jump"@,
        Scroll::Smooth2 => "smooth-2"@,
        Scroll::Smooth4 => "smooth-4"@,
    }
}

pub open spec fn cursor_style_name(c: CursorStyle) -> Seq<char> {
    match c {
        CursorStyle::BlinkingBlock => "blinking-block"@,
        CursorStyle::SteadyBlock => "steady-block"@,
        CursorStyle::BlinkingUnderline => "blinking-underline"@,
        CursorStyle::SteadyUnderline => "steady-underline"@,
    }
}

pub open spec fn status_name(s: StatusDisplay) -> Seq<char> {
    match s {
        StatusDisplay::NoDisplay => "none"@,
        StatusDisplay::Indicator => "indicator"@,
        StatusDisplay::HostWritable => "host"@,
    }
}

/// The saved name of an operating level: `vt52`, `vt100`, or `levelN-7bit`
/// and `levelN-8bit`.
pub open spec fn mode_name(m: TerminalMode) -> Seq<char> {
    match m {
        TerminalMode::Vt52 => "vt52"@,
        TerminalMode::Vt100 => "vt100"@,
        TerminalMode::Level { level, eight_bit } => "level"@ + dec(level as nat) + "-"@ + (if eight_bit {
            "8"@
        } else {
            "7"@
        }) + "bit"@,
    }
}

pub open spec fn upss_name(u: Supplemental) -> Seq<char> {
    match u {
        Supplemental::DecSupplemental => "dec"@,
        Supplemental::IsoLatin1 => "latin1"@,
    }
}

pub open spec fn volume_name(v: Volume) -> Seq<char> {
    match v {
        Volume::Off => "off"@,
        Volume::Low => "low"@,
        Volume::High => "high"@,
    }
}

pub open spec fn compose_name(c: ComposeKey) -> Seq<char> {
    match c {
        ComposeKey::Local => "local"@,
        ComposeKey::Report => "report"@,
        ComposeKey::Ignore => "ignore"@,
    }
}

pub open spec fn break_name(b: BreakKey) -> Seq<char> {
    match b {
        BreakKey::Break => "break"@,
        BreakKey::NoBreak => "no-break"@,
        BreakKey::FunctionKey => "fkey"@,
        BreakKey::Ignore => "ignore"@,
    }
}

/// The letter saved for a local function key action.
pub open spec fn key_letter(a: LocalKeyAction) -> char {
    match a {
        LocalKeyAction::Local => 'l',
        LocalKeyAction::SendToHost => 'h',
        LocalKeyAction::Disabled => 'x',
    }
}

/// One letter per local function key.
pub open spec fn keys_text(k: Seq<LocalKeyAction>) -> Seq<char> {
    k.map_values(|a: LocalKeyAction| key_letter(a))
}

/// The tab stops as 1-based columns separated by commas.
pub open spec fn tabs_text(t: Seq<bool>) -> Seq<char>
    decreases t.len(),
{
    if t.len() == 0 {
        Seq::empty()
    } else {
        let r = tabs_text(t.drop_last());
        if t.last() {
            if r.len() == 0 { dec(t.len()) } else { r + seq![','] + dec(t.len()) }
        } else {
            r
        }
    }
}

/// Lines 1 of the saved features, after `prefix`.
pub open spec fn saved_part1(prefix: Seq<char>, f: FeaturesView) -> Seq<char> {
    prefix
        + line("on-line"@, flag_text(f.global.on_line))
        + line("crt-saver"@, flag_text(f.global.crt_saver))
        + line("comm1-dec423"@, flag_text(f.global.comm1_dec423))
        + line("refresh-60hz"@, flag_text(f.global.refresh_60hz))
        + line("printer-session"@, dec(f.global.printer_session as nat))
        + line("columns"@, (if f.display.columns_132 { "132"@ } else { "80"@ }))
        + line("display-controls"@, flag_text(f.display.display_controls))
        + line("autowrap"@, flag_text(f.display.autowrap))
}

/// Lines 2 of the saved features, after `prefix`.
pub open spec fn saved_part2(prefix: Seq<char>, f: FeaturesView) -> Seq<char> {
    prefix
        + line("scroll"@, scroll_name(f.display.scroll))
        + line("light-screen"@, flag_text(f.display.light_screen))
        + line("cursor"@, flag_text(f.display.cursor))
        + line("cursor-style"@, cursor_style_name(f.display.cursor_style))
        + line("status"@, status_name(f.display.status))
        + line("page-length"@, dec(f.display.page_length as nat))
        + line("screen-lines"@, dec(f.screen.screen_lines as nat))
        + line("vertical-coupling"@, flag_text(f.screen.vertical_coupling))
}

/// Lines 3 of the saved features, after `prefix`.
pub open spec fn saved_part3(prefix: Seq<char>, f: FeaturesView) -> Seq<char> {
    prefix
        + line("page-coupling"@, flag_text(f.screen.page_coupling))
        + line("auto-resize"@, flag_text(f.screen.auto_resize))
        + line("clear-on-column-change"@, flag_text(f.screen.clear_on_column_change))
        + line("zero-style"@, dec(f.screen.zero_style as nat))
        + line("crt-saver-minutes"@, dec(f.screen.crt_saver_minutes as nat))
        + line("energy-saver-minutes"@, dec(f.screen.energy_saver_minutes as nat))
        + line("host-wake-up"@, flag_text(f.screen.host_wake_up))
        + line("overscan"@, flag_text(f.screen.overscan))
}

/// Lines 4 of the saved features, after `prefix`.
pub open spec fn saved_part4(prefix: Seq<char>, f: FeaturesView) -> Seq<char> {
    prefix
        + line("terminal-mode"@, mode_name(f.general.terminal_mode))
        + line("udk-locked"@, flag_text(f.general.udk_locked))
        + line("user-features-locked"@, flag_text(f.general.user_features_locked))
        + line("national"@, flag_text(f.general.national))
        + line("new-line"@, flag_text(f.general.new_line))
        + line("upss"@, upss_name(f.general.upss))
        + line("terminal-id"@, dec(f.general.terminal_id as nat))
        + line("update"@, dec(f.general.update as nat))
}

/// Lines 5 of the saved features, after `prefix`.
pub open spec fn saved_part5(prefix: Seq<char>, f: FeaturesView) -> Seq<char> {
    prefix
        + line("transmit-speed"@, dec(f.line.transmit_speed as nat))
        + line("receive-speed"@, (match f.line.receive_speed { Some(n) => dec(n as nat), None => "transmit"@ }))
        + line("xoff"@, (match f.line.xoff { Some(n) => dec(n as nat), None => "none"@ }))
        + line("word-size"@, (if f.line.seven_bit_data { "7"@ } else { "8"@ }))
        + line("parity"@, parity_name(f.line.parity))
        + line("stop-bits"@, (if f.line.two_stop_bits { "2"@ } else { "1"@ }))
        + line("transmit-flow"@, dec(f.line.transmit_flow as nat))
        + line("receive-flow"@, dec(f.line.receive_flow as nat))
}

/// Lines 6 of the saved features, after `prefix`.
pub open spec fn saved_part6(prefix: Seq<char>, f: FeaturesView) -> Seq<char> {
    prefix
        + line("flow-threshold-high"@, flag_text(f.line.flow_threshold_high))
        + line("transmit-rate"@, dec(f.line.transmit_rate as nat))
        + line("fkey-rate"@, dec(f.line.fkey_rate as nat))
        + line("ignore-null"@, flag_text(f.modem.ignore_null))
        + line("half-duplex"@, flag_text(f.modem.half_duplex))
        + line("modem-high-speed"@, (match f.modem.modem_high_speed { Some(n) => dec(n as nat), None => "ignore"@ }))
        + line("modem-low-speed"@, (match f.modem.modem_low_speed { Some(n) => dec(n as nat), None => "ignore"@ }))
        + line("local-echo"@, flag_text(f.modem.local_echo))
}

/// Lines 7 of the saved features, after `prefix`.
pub open spec fn saved_part7(prefix: Seq<char>, f: FeaturesView) -> Seq<char> {
    prefix
        + line("modem-control"@, flag_text(f.modem.modem_control))
        + line("disconnect"@, dec(f.modem.disconnect as nat))
        + line("limited-transmit"@, flag_text(f.modem.limited_transmit))
        + line("auto-answerback"@, flag_text(f.modem.auto_answerback))
        + line("answerback"@, hex_text(f.modem.answerback, false))
        + line("conceal-answerback"@, flag_text(f.modem.conceal_answerback))
        + line("data-processing-keys"@, flag_text(f.keys.data_processing_keys))
        + line("shift-lock"@, flag_text(f.keys.shift_lock))
}

/// Lines 8 of the saved features, after `prefix`.
pub open spec fn saved_part8(prefix: Seq<char>, f: FeaturesView) -> Seq<char> {
    prefix
        + line("auto-repeat"@, flag_text(f.keys.auto_repeat))
        + line("auto-repeat-rate"@, dec(f.keys.auto_repeat_rate as nat))
        + line("keyclick"@, volume_name(f.keys.keyclick))
        + line("margin-bell"@, volume_name(f.keys.margin_bell))
        + line("warning-bell"@, volume_name(f.keys.warning_bell))
        + line("position-mode"@, flag_text(f.keys.position_mode))
        + line("backarrow-bs"@, flag_text(f.keys.backarrow_bs))
        + line("compose"@, compose_name(f.keys.compose))
}

/// Lines 9 of the saved features, after `prefix`.
pub open spec fn saved_part9(prefix: Seq<char>, f: FeaturesView) -> Seq<char> {
    prefix
        + line("report-alt"@, flag_text(f.keys.report_alt))
        + line("local-keys"@, keys_text(f.layout.local_keys))
        + line("break-key"@, break_name(f.layout.break_key))
        + line("comma-period-same"@, flag_text(f.layout.comma_period_same))
        + line("angle-sends-tilde"@, flag_text(f.layout.angle_sends_tilde))
        + line("tilde-sends-escape"@, flag_text(f.layout.tilde_sends_escape))
        + line("keyboard"@, dec(dialect_index(f.layout.keyboard_language)))
        + line("tabs"@, tabs_text(f.layout.tabs))
}

/// The features as `name=value` lines, in the order they are saved. The
/// keypad and cursor key modes and the second session are not saved.
pub open spec fn features_text(f: FeaturesView) -> Seq<char> {
    saved_part9(saved_part8(saved_part7(saved_part6(saved_part5(saved_part4(saved_part3(saved_part2(saved_part1(Seq::empty(), f), f), f), f), f), f), f), f), f)
}

fn line_str(out: &mut Vec<char>, k: &str, v: &str)
    ensures
        final(out)@ == old(out)@ + line(k@, v@),
{
    push_str(out, k);
    out.push('=');
    push_str(out, v);
    out.push('\n');
    proof {
        reveal(line);
    }
    assert(out@ =~= old(out)@ + line(k@, v@));
}

fn line_chars(out: &mut Vec<char>, k: &str, v: &Vec<char>)
    ensures
        final(out)@ == old(out)@ + line(k@, v@),
{
    push_str(out, k);
    out.push('=');
    crate::text::push_all(out, v.as_slice());
    out.push('\n');
    proof {
        reveal(line);
    }
    assert(out@ =~= old(out)@ + line(k@, v@));
}

fn line_flag(out: &mut Vec<char>, k: &str, b: bool)
    ensures
        final(out)@ == old(out)@ + line(k@, flag_text(b)),
{
    proof {
        reveal(flag_text);
    }
    line_str(out, k, if b { "1" } else { "0" });
}

fn line_num(out: &mut Vec<char>, k: &str, n: u64)
    ensures
        final(out)@ == old(out)@ + line(k@, dec(n as nat)),
{
    let mut v: Vec<char> = Vec::new();
    push_dec(&mut v, n);
    assert(v@ =~= dec(n as nat));
    line_chars(out, k, &v);
}

fn scroll_name_of(s: Scroll) -> (r: &'static str)
    ensures
        r@ == scroll_name(s),
{
    match s {
        Scroll::Jump => "jump",
        Scroll::Smooth2 => "smooth-2",
        Scroll::Smooth4 => "smooth-4",
    }
}

fn cursor_style_name_of(c: CursorStyle) -> (r: &'static str)
    ensures
        r@ == cursor_style_name(c),
{
    match c {
        CursorStyle::BlinkingBlock => "blinking-block",
        CursorStyle::SteadyBlock => "steady-block",
        CursorStyle::BlinkingUnderline => "blinking-underline",
        CursorStyle::SteadyUnderline => "steady-underline",
    }
}

fn status_name_of(s: StatusDisplay) -> (r: &'static str)
    ensures
        r@ == status_name(s),
{
    match s {
        StatusDisplay::NoDisplay => "none",
        StatusDisplay::Indicator => "indicator",
        StatusDisplay::HostWritable => "host",
    }
}

/// The saved name of an operating level.
pub fn mode_name_of(m: TerminalMode) -> (r: Vec<char>)
    ensures
        r@ == mode_name(m),
{
    let mut v: Vec<char> = Vec::new();
    match m {
        TerminalMode::Vt52 => push_str(&mut v, "vt52"),
        TerminalMode::Vt100 => push_str(&mut v, "vt100"),
        TerminalMode::Level { level, eight_bit } => {
            push_str(&mut v, "level");
            push_dec(&mut v, level as u64);
            push_str(&mut v, "-");
            push_str(&mut v, if eight_bit { "8" } else { "7" });
            push_str(&mut v, "bit");
        },
    }
    assert(v@ =~= mode_name(m));
    v
}

fn upss_name_of(u: Supplemental) -> (r: &'static str)
    ensures
        r@ == upss_name(u),
{
    match u {
        Supplemental::DecSupplemental => "dec",
        Supplemental::IsoLatin1 => "latin1",
    }
}

fn volume_name_of(v: Volume) -> (r: &'static str)
    ensures
        r@ == volume_name(v),
{
    match v {
        Volume::Off => "off",
        Volume::Low => "low",
        Volume::High => "high",
    }
}

fn compose_name_of(c: ComposeKey) -> (r: &'static str)
    ensures
        r@ == compose_name(c),
{
    match c {
        ComposeKey::Local => "local",
        ComposeKey::Report => "report",
        ComposeKey::Ignore => "ignore",
    }
}

fn break_name_of(b: BreakKey) -> (r: &'static str)
    ensures
        r@ == break_name(b),
{
    match b {
        BreakKey::Break => "break",
        BreakKey::NoBreak => "no-break",
        BreakKey::FunctionKey => "fkey",
        BreakKey::Ignore => "ignore",
    }
}

fn keys_text_of(k: &[LocalKeyAction; 4]) -> (r: Vec<char>)
    ensures
        r@ == keys_text(k@),
{
    let mut v: Vec<char> = Vec::new();
    let mut i: usize = 0;
    while i < 4
        invariant
            i <= 4,
            k@.len() == 4,
            v@ == keys_text(k@.subrange(0, i as int)),
        decreases 4 - i,
    {
        let c = match k[i] {
            LocalKeyAction::Local => 'l',
            LocalKeyAction::SendToHost => 'h',
            LocalKeyAction::Disabled => 'x',
        };
        v.push(c);
        i = i + 1;
        assert(v@ =~= keys_text(k@.subrange(0, i as int)));
    }
    assert(k@.subrange(0, 4) =~= k@);
    v
}

fn tabs_text_of(t: &Vec<bool>) -> (r: Vec<char>)
    ensures
        r@ == tabs_text(t@),
{
    let mut v: Vec<char> = Vec::new();
    let mut i: usize = 0;
    while i < t.len()
        invariant
            i <= t@.len(),
            v@ == tabs_text(t@.subrange(0, i as int)),
        decreases t@.len() - i,
    {
        let ghost p = t@.subrange(0, i + 1);
        proof {
            assert(p.drop_last() =~= t@.subrange(0, i as int));
            assert(p.last() == t@[i as int]);
        }
        if t[i] {
            if v.len() > 0 {
                v.push(',');
            }
            push_dec(&mut v, (i + 1) as u64);
        }
        i = i + 1;
        assert(v@ =~= tabs_text(p));
    }
    assert(t@.subrange(0, i as int) =~= t@);
    v
}

impl Features {
    fn save_part1(&self, out: &mut Vec<char>)
        ensures
            final(out)@ == saved_part1(old(out)@, self@),
    {
        line_flag(out, "on-line", self.on_line);
        line_flag(out, "crt-saver", self.crt_saver);
        line_flag(out, "comm1-dec423", self.comm1_dec423);
        line_flag(out, "refresh-60hz", self.refresh_60hz);
        line_num(out, "printer-session", self.printer_session as u64);
        line_str(out, "columns", if self.columns_132 { "132" } else { "80" });
        line_flag(out, "display-controls", self.display_controls);
        line_flag(out, "autowrap", self.autowrap);
    }

    fn save_part2(&self, out: &mut Vec<char>)
        ensures
            final(out)@ == saved_part2(old(out)@, self@),
    {
        line_str(out, "scroll", scroll_name_of(self.scroll));
        line_flag(out, "light-screen", self.light_screen);
        line_flag(out, "cursor", self.cursor);
        line_str(out, "cursor-style", cursor_style_name_of(self.cursor_style));
        line_str(out, "status", status_name_of(self.status));
        line_num(out, "page-length", self.page_length as u64);
        line_num(out, "screen-lines", self.screen_lines as u64);
        line_flag(out, "vertical-coupling", self.vertical_coupling);
    }

    fn save_part3(&self, out: &mut Vec<char>)
        ensures
            final(out)@ == saved_part3(old(out)@, self@),
    {
        line_flag(out, "page-coupling", self.page_coupling);
        line_flag(out, "auto-resize", self.auto_resize);
        line_flag(out, "clear-on-column-change", self.clear_on_column_change);
        line_num(out, "zero-style", self.zero_style as u64);
        line_num(out, "crt-saver-minutes", self.crt_saver_minutes as u64);
        line_num(out, "energy-saver-minutes", self.energy_saver_minutes as u64);
        line_flag(out, "host-wake-up", self.host_wake_up);
        line_flag(out, "overscan", self.overscan);
    }

    fn save_part4(&self, out: &mut Vec<char>)
        ensures
            final(out)@ == saved_part4(old(out)@, self@),
    {
        let v = mode_name_of(self.terminal_mode);
        line_chars(out, "terminal-mode", &v);
        line_flag(out, "udk-locked", self.udk_locked);
        line_flag(out, "user-features-locked", self.user_features_locked);
        line_flag(out, "national", self.national);
        line_flag(out, "new-line", self.new_line);
        line_str(out, "upss", upss_name_of(self.upss));
        line_num(out, "terminal-id", self.terminal_id as u64);
        line_num(out, "update", self.update as u64);
    }

    fn save_part5(&self, out: &mut Vec<char>)
        ensures
            final(out)@ == saved_part5(old(out)@, self@),
    {
        line_num(out, "transmit-speed", self.transmit_speed as u64);
        match self.receive_speed {
            Some(n) => line_num(out, "receive-speed", n as u64),
            None => line_str(out, "receive-speed", "transmit"),
        }
        match self.xoff {
            Some(n) => line_num(out, "xoff", n as u64),
            None => line_str(out, "xoff", "none"),
        }
        line_str(out, "word-size", if self.seven_bit_data { "7" } else { "8" });
        line_str(out, "parity", self.parity.name());
        line_str(out, "stop-bits", if self.two_stop_bits { "2" } else { "1" });
        line_num(out, "transmit-flow", self.transmit_flow as u64);
        line_num(out, "receive-flow", self.receive_flow as u64);
    }

    fn save_part6(&self, out: &mut Vec<char>)
        ensures
            final(out)@ == saved_part6(old(out)@, self@),
    {
        line_flag(out, "flow-threshold-high", self.flow_threshold_high);
        line_num(out, "transmit-rate", self.transmit_rate as u64);
        line_num(out, "fkey-rate", self.fkey_rate as u64);
        line_flag(out, "ignore-null", self.ignore_null);
        line_flag(out, "half-duplex", self.half_duplex);
        match self.modem_high_speed {
            Some(n) => line_num(out, "modem-high-speed", n as u64),
            None => line_str(out, "modem-high-speed", "ignore"),
        }
        match self.modem_low_speed {
            Some(n) => line_num(out, "modem-low-speed", n as u64),
            None => line_str(out, "modem-low-speed", "ignore"),
        }
        line_flag(out, "local-echo", self.local_echo);
    }

    fn save_part7(&self, out: &mut Vec<char>)
        ensures
            final(out)@ == saved_part7(old(out)@, self@),
    {
        line_flag(out, "modem-control", self.modem_control);
        line_num(out, "disconnect", self.disconnect as u64);
        line_flag(out, "limited-transmit", self.limited_transmit);
        line_flag(out, "auto-answerback", self.auto_answerback);
        let mut v: Vec<char> = Vec::new();
        push_hex(&mut v, self.answerback.as_slice(), false);
        assert(v@ =~= hex_text(self.answerback@, false));
        line_chars(out, "answerback", &v);
        line_flag(out, "conceal-answerback", self.conceal_answerback);
        line_flag(out, "data-processing-keys", self.data_processing_keys);
        line_flag(out, "shift-lock", self.shift_lock);
    }

    fn save_part8(&self, out: &mut Vec<char>)
        ensures
            final(out)@ == saved_part8(old(out)@, self@),
    {
        line_flag(out, "auto-repeat", self.auto_repeat);
        line_num(out, "auto-repeat-rate", self.auto_repeat_rate as u64);
        line_str(out, "keyclick", volume_name_of(self.keyclick));
        line_str(out, "margin-bell", volume_name_of(self.margin_bell));
        line_str(out, "warning-bell", volume_name_of(self.warning_bell));
        line_flag(out, "position-mode", self.position_mode);
        line_flag(out, "backarrow-bs", self.backarrow_bs);
        line_str(out, "compose", compose_name_of(self.compose));
    }

    fn save_part9(&self, out: &mut Vec<char>)
        ensures
            final(out)@ == saved_part9(old(out)@, self@),
    {
        line_flag(out, "report-alt", self.report_alt);
        let v = keys_text_of(&self.local_keys);
        line_chars(out, "local-keys", &v);
        line_str(out, "break-key", break_name_of(self.break_key));
        line_flag(out, "comma-period-same", self.comma_period_same);
        line_flag(out, "angle-sends-tilde", self.angle_sends_tilde);
        line_flag(out, "tilde-sends-escape", self.tilde_sends_escape);
        line_num(out, "keyboard", dialect_position(self.keyboard_language) as u64);
        let v = tabs_text_of(&self.tabs);
        line_chars(out, "tabs", &v);
    }

    /// The features as `name=value` lines, for saving.
    pub fn to_text(&self) -> (r: String)
        ensures
            r@ == features_text(self@),
    {
        let mut out: Vec<char> = Vec::new();
        self.save_part1(&mut out);
        self.save_part2(&mut out);
        self.save_part3(&mut out);
        self.save_part4(&mut out);
        self.save_part5(&mut out);
        self.save_part6(&mut out);
        self.save_part7(&mut out);
        self.save_part8(&mut out);
        self.save_part9(&mut out);
        string_from(&out)
    }
}

} // verus!
