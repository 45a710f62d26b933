//! Reading the saved Set-Up features back: `name=value` lines applied
//! over the factory settings.

use vstd::prelude::*;
use crate::charset::Nrc;
use crate::config::{max_level, Model, StatusDisplay, Supplemental};
use crate::setup::text::mode_name;
use crate::setup::{
    DisplayView, GeneralView, GlobalView, KeysView, LayoutView, LineView, ModemView, ScreenView,
    all_parities, dialect_at, dialects, factory_view, offers_page_length, offers_speed,
    offers_terminal_id, page_length_offered, parity_name, saver_minutes_offered, screen_lines_offered,
    speed_offered, terminal_id_offered, BreakKey, ComposeKey, Features, FeaturesView, Parity, Scroll,
    TerminalMode, Volume,
};
use crate::terminal::{CursorStyle, LocalKeyAction};
use crate::text::{
    char_views, chars_equal, chars_slice, find_c, find_char_from, lemma_find_c, parse_uint,
    parse_uint_chars, split_c, split_chars, str_chars, trim_c, trim_chars, unhex, unhex_spec,
};

verus! {


/// A number as `str::parse::<usize>` reads it.
pub open spec fn num_of(v: Seq<char>) -> Option<nat> {
    parse_uint(v, usize::MAX as nat)
}

/// `v` read as one of two words: `yes` gives true, `no` false, anything
/// else no value.
pub open spec fn two_named(v: Seq<char>, yes: Seq<char>, no: Seq<char>) -> Option<bool> {
    if v == yes {
        Some(true)
    } else if v == no {
        Some(false)
    } else {
        None
    }
}

/// `v` read as a number from `lo` to `hi`; no value otherwise.
pub open spec fn num_in(v: Seq<char>, lo: nat, hi: nat) -> Option<nat> {
    match num_of(v) {
        Some(n) => if lo <= n && n <= hi { Some(n) } else { None },
        None => None,
    }
}

/// A number, or `d` when `v` is none.
pub open spec fn num_or(v: Seq<char>, d: nat) -> nat {
    match num_of(v) {
        Some(n) => n,
        None => d,
    }
}

pub open spec fn min_nat(a: nat, b: nat) -> nat {
    if a < b { a } else { b }
}

pub open spec fn clamp_nat(n: nat, lo: nat, hi: nat) -> nat {
    if n < lo { lo } else if n > hi { hi } else { n }
}

/// The operating levels a model offers, from its own down to VT200, each
/// with 7-bit then 8-bit controls.
pub open spec fn level_modes(l: u8) -> Seq<TerminalMode>
    decreases l,
{
    if l < 2 {
        Seq::empty()
    } else {
        seq![TerminalMode::Level { level: l, eight_bit: false }, TerminalMode::Level { level: l, eight_bit: true }]
            + level_modes((l - 1) as u8)
    }
}

/// Every operating level a model offers, in Set-Up order.
pub open spec fn terminal_modes(model: Model) -> Seq<TerminalMode> {
    level_modes(max_level(model)) + seq![TerminalMode::Vt100, TerminalMode::Vt52]
}

/// The first of `ms` saved as `v`.
pub open spec fn first_named(ms: Seq<TerminalMode>, v: Seq<char>) -> Option<TerminalMode>
    decreases ms.len(),
{
    if ms.len() == 0 {
        None
    } else if mode_name(ms[0]) == v {
        Some(ms[0])
    } else {
        first_named(ms.drop_first(), v)
    }
}

/// The operating level of `model` saved as `v`.
pub open spec fn mode_named(model: Model, v: Seq<char>) -> Option<TerminalMode> {
    first_named(terminal_modes(model), v)
}

/// A receive or modem speed saved as `v`: `none_word` for no speed of its
/// own, or a speed the model offers; no choice for anything else.
pub open spec fn speed_choice(model: Model, v: Seq<char>, none_word: Seq<char>) -> Option<Option<u32>> {
    if v == none_word {
        Some(None)
    } else {
        match parse_uint(v, 0xFFFF_FFFF) {
            Some(s) => if speed_offered(model, s) { Some(Some(s as u32)) } else { None },
            None => None,
        }
    }
}

/// The first parity of `ps` saved as `v`.
pub open spec fn first_parity(ps: Seq<Parity>, v: Seq<char>) -> Option<Parity>
    decreases ps.len(),
{
    if ps.len() == 0 {
        None
    } else if parity_name(ps[0]) == v {
        Some(ps[0])
    } else {
        first_parity(ps.drop_first(), v)
    }
}

/// The parity saved as `v`.
pub open spec fn parity_named(v: Seq<char>) -> Option<Parity> {
    first_parity(all_parities(), v)
}

/// The XOFF point saved as `v`: `none`, 64 or 128 characters; no choice
/// for anything else.
pub open spec fn xoff_choice(v: Seq<char>) -> Option<Option<u16>> {
    if v == "none"@ {
        Some(None)
    } else {
        match parse_uint(v, 65535) {
            Some(x) => if x == 64 || x == 128 { Some(Some(x as u16)) } else { None },
            None => None,
        }
    }
}

/// The VT420 character formats by number: word size and parity.
pub open spec fn data_format(i: nat) -> (bool, Parity) {
    if i == 0 {
        (false, Parity::NoParity)
    } else if i == 1 {
        (false, Parity::Even)
    } else if i == 2 {
        (false, Parity::Odd)
    } else if i == 3 {
        (true, Parity::Even)
    } else if i == 4 {
        (true, Parity::Odd)
    } else if i == 5 {
        (true, Parity::Mark)
    } else {
        (true, Parity::Space)
    }
}

/// Whether every character is 7-bit.
pub open spec fn chars_ascii(v: Seq<char>) -> bool {
    forall|i: int| 0 <= i < v.len() ==> (v[i] as u32) < 128
}

/// The saved answerback: hex pairs; no message for anything else.
pub open spec fn answerback_of(v: Seq<char>) -> Option<Seq<u8>> {
    if chars_ascii(v) {
        unhex_spec(v.map_values(|c: char| c as u8))
    } else {
        None
    }
}

pub open spec fn volume_from(v: Seq<char>) -> Option<Volume> {
    if v == "off"@ {
        Some(Volume::Off)
    } else if v == "low"@ {
        Some(Volume::Low)
    } else if v == "high"@ {
        Some(Volume::High)
    } else {
        None
    }
}

/// The local function key action saved as a letter.
pub open spec fn key_action_of(c: char, old: LocalKeyAction) -> LocalKeyAction {
    if c == 'h' {
        LocalKeyAction::SendToHost
    } else if c == 'x' {
        LocalKeyAction::Disabled
    } else if c == 'l' {
        LocalKeyAction::Local
    } else {
        old
    }
}

/// The local function keys after their saved letters: one per key; keys
/// past the letters, or whose letter is none of `l`, `h` and `x`, unchanged.
pub open spec fn keys_from(old: Seq<LocalKeyAction>, v: Seq<char>) -> Seq<LocalKeyAction> {
    Seq::new(old.len(), |i: int| if i < v.len() { key_action_of(v[i], old[i]) } else { old[i] })
}

/// The keyboard language at a saved position; no choice for anything but
/// a position in the list of dialects.
pub open spec fn keyboard_choice(v: Seq<char>) -> Option<Option<Nrc>> {
    match num_of(v) {
        Some(i) => if i < 13 { Some(dialects()[i as int]) } else { None },
        None => None,
    }
}

/// Tab stops set by 1-based columns: a column from 2 to the width sets its
/// stop; pieces that are no number are skipped.
pub open spec fn tabs_fold(t: Seq<bool>, pieces: Seq<Seq<char>>) -> Seq<bool>
    decreases pieces.len(),
{
    if pieces.len() == 0 {
        t
    } else {
        let next = match parse_uint(pieces[0], usize::MAX as nat) {
            Some(n) => if 2 <= n <= t.len() { t.update(n - 1, true) } else { t },
            None => t,
        };
        tabs_fold(next, pieces.drop_first())
    }
}

/// The saved tab stops over a line `cols` wide with no stops.
pub open spec fn tabs_from(cols: nat, v: Seq<char>) -> Seq<bool> {
    tabs_fold(Seq::new(cols, |i: int| false), split_c(v, ','))
}

/// `on-line=v`.
#[verifier::opaque]
pub open spec fn set_on_line(model: Model, f: FeaturesView, v: Seq<char>) -> FeaturesView {
    match two_named(v, "1"@, "0"@) { Some(b) => FeaturesView { global: GlobalView { on_line: b, ..f.global }, ..f }, None => f }
}

/// `crt-saver=v`.
#[verifier::opaque]
pub open spec fn set_crt_saver(model: Model, f: FeaturesView, v: Seq<char>) -> FeaturesView {
    match two_named(v, "1"@, "0"@) { Some(b) => FeaturesView { global: GlobalView { crt_saver: b, ..f.global }, ..f }, None => f }
}

/// `comm1-dec423=v`.
#[verifier::opaque]
pub open spec fn set_comm1_dec423(model: Model, f: FeaturesView, v: Seq<char>) -> FeaturesView {
    match two_named(v, "1"@, "0"@) { Some(b) => FeaturesView { global: GlobalView { comm1_dec423: b, ..f.global }, ..f }, None => f }
}

/// `refresh-60hz=v`.
#[verifier::opaque]
pub open spec fn set_refresh_60hz(model: Model, f: FeaturesView, v: Seq<char>) -> FeaturesView {
    match two_named(v, "1"@, "0"@) { Some(b) => FeaturesView { global: GlobalView { refresh_60hz: b, ..f.global }, ..f }, None => f }
}

/// `printer-session=v`.
#[verifier::opaque]
pub open spec fn set_printer_session(model: Model, f: FeaturesView, v: Seq<char>) -> FeaturesView {
    match num_in(v, 0, 2) { Some(n) => FeaturesView { global: GlobalView { printer_session: n as u8, ..f.global }, ..f }, None => f }
}

/// `columns=v`.
#[verifier::opaque]
pub open spec fn set_columns(model: Model, f: FeaturesView, v: Seq<char>) -> FeaturesView {
    match two_named(v, "132"@, "80"@) { Some(b) => FeaturesView { display: DisplayView { columns_132: b, ..f.display }, ..f }, None => f }
}

/// `display-controls=v`.
#[verifier::opaque]
pub open spec fn set_display_controls(model: Model, f: FeaturesView, v: Seq<char>) -> FeaturesView {
    match two_named(v, "1"@, "0"@) { Some(b) => FeaturesView { display: DisplayView { display_controls: b, ..f.display }, ..f }, None => f }
}

/// `autowrap=v`.
#[verifier::opaque]
pub open spec fn set_autowrap(model: Model, f: FeaturesView, v: Seq<char>) -> FeaturesView {
    match two_named(v, "1"@, "0"@) { Some(b) => FeaturesView { display: DisplayView { autowrap: b, ..f.display }, ..f }, None => f }
}

/// `scroll=v`.
#[verifier::opaque]
pub open spec fn set_scroll(model: Model, f: FeaturesView, v: Seq<char>) -> FeaturesView {
    match (if v == "smooth-2"@ { Some(Scroll::Smooth2) } else if v == "smooth-4"@ { Some(Scroll::Smooth4) } else if v == "jump"@ { Some(Scroll::Jump) } else { None }) { Some(x) => FeaturesView { display: DisplayView { scroll: x, ..f.display }, ..f }, None => f }
}

/// `light-screen=v`.
#[verifier::opaque]
pub open spec fn set_light_screen(model: Model, f: FeaturesView, v: Seq<char>) -> FeaturesView {
    match two_named(v, "1"@, "0"@) { Some(b) => FeaturesView { display: DisplayView { light_screen: b, ..f.display }, ..f }, None => f }
}

/// `cursor=v`.
#[verifier::opaque]
pub open spec fn set_cursor(model: Model, f: FeaturesView, v: Seq<char>) -> FeaturesView {
    match two_named(v, "1"@, "0"@) { Some(b) => FeaturesView { display: DisplayView { cursor: b, ..f.display }, ..f }, None => f }
}

/// `cursor-style=v`.
#[verifier::opaque]
pub open spec fn set_cursor_style(model: Model, f: FeaturesView, v: Seq<char>) -> FeaturesView {
    match (if v == "steady-block"@ { Some(CursorStyle::SteadyBlock) } else if v == "blinking-underline"@ { Some(CursorStyle::BlinkingUnderline) } else if v == "steady-underline"@ { Some(CursorStyle::SteadyUnderline) } else if v == "blinking-block"@ { Some(CursorStyle::BlinkingBlock) } else { None }) { Some(x) => FeaturesView { display: DisplayView { cursor_style: x, ..f.display }, ..f }, None => f }
}

/// `status=v`.
#[verifier::opaque]
pub open spec fn set_status(model: Model, f: FeaturesView, v: Seq<char>) -> FeaturesView {
    if max_level(model) >= 3 { match (if v == "none"@ { Some(StatusDisplay::NoDisplay) } else if v == "host"@ { Some(StatusDisplay::HostWritable) } else if v == "indicator"@ { Some(StatusDisplay::Indicator) } else { None }) { Some(x) => FeaturesView { display: DisplayView { status: x, ..f.display }, ..f }, None => f } } else { f }
}

/// `page-length=v`.
#[verifier::opaque]
pub open spec fn set_page_length(model: Model, f: FeaturesView, v: Seq<char>) -> FeaturesView {
    match num_of(v) { Some(n) => if page_length_offered(model, n) { FeaturesView { display: DisplayView { page_length: n as usize, ..f.display }, ..f } } else { f }, None => f }
}

/// `screen-lines=v`.
#[verifier::opaque]
pub open spec fn set_screen_lines(model: Model, f: FeaturesView, v: Seq<char>) -> FeaturesView {
    match num_of(v) { Some(n) => if screen_lines_offered(n) { FeaturesView { screen: ScreenView { screen_lines: n as usize, ..f.screen }, ..f } } else { f }, None => f }
}

/// `vertical-coupling=v`.
#[verifier::opaque]
pub open spec fn set_vertical_coupling(model: Model, f: FeaturesView, v: Seq<char>) -> FeaturesView {
    match two_named(v, "1"@, "0"@) { Some(b) => FeaturesView { screen: ScreenView { vertical_coupling: b, ..f.screen }, ..f }, None => f }
}

/// `page-coupling=v`.
#[verifier::opaque]
pub open spec fn set_page_coupling(model: Model, f: FeaturesView, v: Seq<char>) -> FeaturesView {
    match two_named(v, "1"@, "0"@) { Some(b) => FeaturesView { screen: ScreenView { page_coupling: b, ..f.screen }, ..f }, None => f }
}

/// `auto-resize=v`.
#[verifier::opaque]
pub open spec fn set_auto_resize(model: Model, f: FeaturesView, v: Seq<char>) -> FeaturesView {
    match two_named(v, "1"@, "0"@) { Some(b) => FeaturesView { screen: ScreenView { auto_resize: b, ..f.screen }, ..f }, None => f }
}

/// `clear-on-column-change=v`.
#[verifier::opaque]
pub open spec fn set_clear_on_column_change(model: Model, f: FeaturesView, v: Seq<char>) -> FeaturesView {
    match two_named(v, "1"@, "0"@) { Some(b) => FeaturesView { screen: ScreenView { clear_on_column_change: b, ..f.screen }, ..f }, None => f }
}

/// `zero-style=v`.
#[verifier::opaque]
pub open spec fn set_zero_style(model: Model, f: FeaturesView, v: Seq<char>) -> FeaturesView {
    match num_in(v, 1, 3) { Some(n) => FeaturesView { screen: ScreenView { zero_style: n as u8, ..f.screen }, ..f }, None => f }
}

/// `crt-saver-minutes=v`.
#[verifier::opaque]
pub open spec fn set_crt_saver_minutes(model: Model, f: FeaturesView, v: Seq<char>) -> FeaturesView {
    match num_of(v) { Some(n) => if saver_minutes_offered(n % 65536) { FeaturesView { screen: ScreenView { crt_saver_minutes: (n % 65536) as u16, ..f.screen }, ..f } } else { f }, None => f }
}

/// `energy-saver-minutes=v`.
#[verifier::opaque]
pub open spec fn set_energy_saver_minutes(model: Model, f: FeaturesView, v: Seq<char>) -> FeaturesView {
    match num_of(v) { Some(n) => if saver_minutes_offered(n % 65536) { FeaturesView { screen: ScreenView { energy_saver_minutes: (n % 65536) as u16, ..f.screen }, ..f } } else { f }, None => f }
}

/// `host-wake-up=v`.
#[verifier::opaque]
pub open spec fn set_host_wake_up(model: Model, f: FeaturesView, v: Seq<char>) -> FeaturesView {
    match two_named(v, "1"@, "0"@) { Some(b) => FeaturesView { screen: ScreenView { host_wake_up: b, ..f.screen }, ..f }, None => f }
}

/// `overscan=v`.
#[verifier::opaque]
pub open spec fn set_overscan(model: Model, f: FeaturesView, v: Seq<char>) -> FeaturesView {
    match two_named(v, "1"@, "0"@) { Some(b) => FeaturesView { screen: ScreenView { overscan: b, ..f.screen }, ..f }, None => f }
}

/// `terminal-mode=v`.
#[verifier::opaque]
pub open spec fn set_terminal_mode(model: Model, f: FeaturesView, v: Seq<char>) -> FeaturesView {
    match mode_named(model, v) { Some(m) => FeaturesView { general: GeneralView { terminal_mode: m, ..f.general }, ..f }, None => f }
}

/// `udk-locked=v`.
#[verifier::opaque]
pub open spec fn set_udk_locked(model: Model, f: FeaturesView, v: Seq<char>) -> FeaturesView {
    match two_named(v, "1"@, "0"@) { Some(b) => FeaturesView { general: GeneralView { udk_locked: b, ..f.general }, ..f }, None => f }
}

/// `user-features-locked=v`.
#[verifier::opaque]
pub open spec fn set_user_features_locked(model: Model, f: FeaturesView, v: Seq<char>) -> FeaturesView {
    match two_named(v, "1"@, "0"@) { Some(b) => FeaturesView { general: GeneralView { user_features_locked: b, ..f.general }, ..f }, None => f }
}

/// `national=v`.
#[verifier::opaque]
pub open spec fn set_national(model: Model, f: FeaturesView, v: Seq<char>) -> FeaturesView {
    match two_named(v, "1"@, "0"@) { Some(b) => FeaturesView { general: GeneralView { national: b, ..f.general }, ..f }, None => f }
}

/// `new-line=v`.
#[verifier::opaque]
pub open spec fn set_new_line(model: Model, f: FeaturesView, v: Seq<char>) -> FeaturesView {
    match two_named(v, "1"@, "0"@) { Some(b) => FeaturesView { general: GeneralView { new_line: b, ..f.general }, ..f }, None => f }
}

/// `upss=v`.
#[verifier::opaque]
pub open spec fn set_upss(model: Model, f: FeaturesView, v: Seq<char>) -> FeaturesView {
    match (if v == "latin1"@ { Some(Supplemental::IsoLatin1) } else if v == "dec"@ { Some(Supplemental::DecSupplemental) } else { None }) { Some(x) => FeaturesView { general: GeneralView { upss: x, ..f.general }, ..f }, None => f }
}

/// `terminal-id=v`.
#[verifier::opaque]
pub open spec fn set_terminal_id(model: Model, f: FeaturesView, v: Seq<char>) -> FeaturesView {
    match num_of(v) { Some(n) => if terminal_id_offered(model, n % 65536) { FeaturesView { general: GeneralView { terminal_id: (n % 65536) as u16, ..f.general }, ..f } } else { f }, None => f }
}

/// `update=v`.
#[verifier::opaque]
pub open spec fn set_update(model: Model, f: FeaturesView, v: Seq<char>) -> FeaturesView {
    match num_in(v, 1, 3) { Some(n) => FeaturesView { general: GeneralView { update: n as u16, ..f.general }, ..f }, None => f }
}

/// `transmit-speed=v`.
#[verifier::opaque]
pub open spec fn set_transmit_speed(model: Model, f: FeaturesView, v: Seq<char>) -> FeaturesView {
    match num_of(v) { Some(n) => if speed_offered(model, n % 0x1_0000_0000) { FeaturesView { line: LineView { transmit_speed: (n % 0x1_0000_0000) as u32, ..f.line }, ..f } } else { f }, None => f }
}

/// `receive-speed=v`.
#[verifier::opaque]
pub open spec fn set_receive_speed(model: Model, f: FeaturesView, v: Seq<char>) -> FeaturesView {
    match speed_choice(model, v, "transmit"@) { Some(x) => FeaturesView { line: LineView { receive_speed: x, ..f.line }, ..f }, None => f }
}

/// `modem-high-speed=v`.
#[verifier::opaque]
pub open spec fn set_modem_high_speed(model: Model, f: FeaturesView, v: Seq<char>) -> FeaturesView {
    match speed_choice(model, v, "ignore"@) { Some(x) => FeaturesView { modem: ModemView { modem_high_speed: x, ..f.modem }, ..f }, None => f }
}

/// `modem-low-speed=v`.
#[verifier::opaque]
pub open spec fn set_modem_low_speed(model: Model, f: FeaturesView, v: Seq<char>) -> FeaturesView {
    match speed_choice(model, v, "ignore"@) { Some(x) => FeaturesView { modem: ModemView { modem_low_speed: x, ..f.modem }, ..f }, None => f }
}

/// `transmit-flow=v`.
#[verifier::opaque]
pub open spec fn set_transmit_flow(model: Model, f: FeaturesView, v: Seq<char>) -> FeaturesView {
    match num_in(v, 0, 3) { Some(n) => FeaturesView { line: LineView { transmit_flow: n as u8, ..f.line }, ..f }, None => f }
}

/// `receive-flow=v`.
#[verifier::opaque]
pub open spec fn set_receive_flow(model: Model, f: FeaturesView, v: Seq<char>) -> FeaturesView {
    match num_in(v, 0, 3) { Some(n) => FeaturesView { line: LineView { receive_flow: n as u8, ..f.line }, ..f }, None => f }
}

/// `flow-threshold-high=v`.
#[verifier::opaque]
pub open spec fn set_flow_threshold_high(model: Model, f: FeaturesView, v: Seq<char>) -> FeaturesView {
    match two_named(v, "1"@, "0"@) { Some(b) => FeaturesView { line: LineView { flow_threshold_high: b, ..f.line }, ..f }, None => f }
}

/// `transmit-rate=v`.
#[verifier::opaque]
pub open spec fn set_transmit_rate(model: Model, f: FeaturesView, v: Seq<char>) -> FeaturesView {
    match num_in(v, 1, 3) { Some(n) => FeaturesView { line: LineView { transmit_rate: n as u8, ..f.line }, ..f }, None => f }
}

/// `fkey-rate=v`.
#[verifier::opaque]
pub open spec fn set_fkey_rate(model: Model, f: FeaturesView, v: Seq<char>) -> FeaturesView {
    match num_in(v, 0, 3) { Some(n) => FeaturesView { line: LineView { fkey_rate: n as u8, ..f.line }, ..f }, None => f }
}

/// `ignore-null=v`.
#[verifier::opaque]
pub open spec fn set_ignore_null(model: Model, f: FeaturesView, v: Seq<char>) -> FeaturesView {
    match two_named(v, "1"@, "0"@) { Some(b) => FeaturesView { modem: ModemView { ignore_null: b, ..f.modem }, ..f }, None => f }
}

/// `half-duplex=v`.
#[verifier::opaque]
pub open spec fn set_half_duplex(model: Model, f: FeaturesView, v: Seq<char>) -> FeaturesView {
    match two_named(v, "1"@, "0"@) { Some(b) => FeaturesView { modem: ModemView { half_duplex: b, ..f.modem }, ..f }, None => f }
}

/// `word-size=v`.
#[verifier::opaque]
pub open spec fn set_word_size(model: Model, f: FeaturesView, v: Seq<char>) -> FeaturesView {
    match two_named(v, "7"@, "8"@) { Some(b) => FeaturesView { line: LineView { seven_bit_data: b, ..f.line }, ..f }, None => f }
}

/// `parity=v`.
#[verifier::opaque]
pub open spec fn set_parity(model: Model, f: FeaturesView, v: Seq<char>) -> FeaturesView {
    match parity_named(v) { Some(p) => FeaturesView { line: LineView { parity: p, ..f.line }, ..f }, None => f }
}

/// `xoff=v`.
#[verifier::opaque]
pub open spec fn set_xoff(model: Model, f: FeaturesView, v: Seq<char>) -> FeaturesView {
    match xoff_choice(v) { Some(x) => FeaturesView { line: LineView { xoff: x, ..f.line }, ..f }, None => f }
}

/// `data-format=v`.
#[verifier::opaque]
pub open spec fn set_data_format(model: Model, f: FeaturesView, v: Seq<char>) -> FeaturesView {
    match num_in(v, 0, 6) { Some(n) => FeaturesView { line: LineView { seven_bit_data: data_format(n).0, parity: data_format(n).1, ..f.line }, ..f }, None => f }
}

/// `stop-bits=v`.
#[verifier::opaque]
pub open spec fn set_stop_bits(model: Model, f: FeaturesView, v: Seq<char>) -> FeaturesView {
    match two_named(v, "2"@, "1"@) { Some(b) => FeaturesView { line: LineView { two_stop_bits: b, ..f.line }, ..f }, None => f }
}

/// `local-echo=v`.
#[verifier::opaque]
pub open spec fn set_local_echo(model: Model, f: FeaturesView, v: Seq<char>) -> FeaturesView {
    match two_named(v, "1"@, "0"@) { Some(b) => FeaturesView { modem: ModemView { local_echo: b, ..f.modem }, ..f }, None => f }
}

/// `modem-control=v`.
#[verifier::opaque]
pub open spec fn set_modem_control(model: Model, f: FeaturesView, v: Seq<char>) -> FeaturesView {
    match two_named(v, "1"@, "0"@) { Some(b) => FeaturesView { modem: ModemView { modem_control: b, ..f.modem }, ..f }, None => f }
}

/// `disconnect=v`.
#[verifier::opaque]
pub open spec fn set_disconnect(model: Model, f: FeaturesView, v: Seq<char>) -> FeaturesView {
    match num_in(v, 0, 2) { Some(n) => FeaturesView { modem: ModemView { disconnect: n as u8, ..f.modem }, ..f }, None => f }
}

/// `limited-transmit=v`.
#[verifier::opaque]
pub open spec fn set_limited_transmit(model: Model, f: FeaturesView, v: Seq<char>) -> FeaturesView {
    match two_named(v, "1"@, "0"@) { Some(b) => FeaturesView { modem: ModemView { limited_transmit: b, ..f.modem }, ..f }, None => f }
}

/// `auto-answerback=v`.
#[verifier::opaque]
pub open spec fn set_auto_answerback(model: Model, f: FeaturesView, v: Seq<char>) -> FeaturesView {
    match two_named(v, "1"@, "0"@) { Some(b) => FeaturesView { modem: ModemView { auto_answerback: b, ..f.modem }, ..f }, None => f }
}

/// `answerback=v`.
#[verifier::opaque]
pub open spec fn set_answerback(model: Model, f: FeaturesView, v: Seq<char>) -> FeaturesView {
    match answerback_of(v) { Some(b) => FeaturesView { modem: ModemView { answerback: b, ..f.modem }, ..f }, None => f }
}

/// `conceal-answerback=v`.
#[verifier::opaque]
pub open spec fn set_conceal_answerback(model: Model, f: FeaturesView, v: Seq<char>) -> FeaturesView {
    match two_named(v, "1"@, "0"@) { Some(b) => FeaturesView { modem: ModemView { conceal_answerback: b, ..f.modem }, ..f }, None => f }
}

/// `data-processing-keys=v`.
#[verifier::opaque]
pub open spec fn set_data_processing_keys(model: Model, f: FeaturesView, v: Seq<char>) -> FeaturesView {
    match two_named(v, "1"@, "0"@) { Some(b) => FeaturesView { keys: KeysView { data_processing_keys: b, ..f.keys }, ..f }, None => f }
}

/// `shift-lock=v`.
#[verifier::opaque]
pub open spec fn set_shift_lock(model: Model, f: FeaturesView, v: Seq<char>) -> FeaturesView {
    match two_named(v, "1"@, "0"@) { Some(b) => FeaturesView { keys: KeysView { shift_lock: b, ..f.keys }, ..f }, None => f }
}

/// `auto-repeat=v`.
#[verifier::opaque]
pub open spec fn set_auto_repeat(model: Model, f: FeaturesView, v: Seq<char>) -> FeaturesView {
    match two_named(v, "1"@, "0"@) { Some(b) => FeaturesView { keys: KeysView { auto_repeat: b, ..f.keys }, ..f }, None => f }
}

/// `auto-repeat-rate=v`.
#[verifier::opaque]
pub open spec fn set_auto_repeat_rate(model: Model, f: FeaturesView, v: Seq<char>) -> FeaturesView {
    match (if v == "10"@ { Some(10u8) } else if v == "30"@ { Some(30u8) } else { None }) { Some(x) => FeaturesView { keys: KeysView { auto_repeat_rate: x, ..f.keys }, ..f }, None => f }
}

/// `keyclick=v`.
#[verifier::opaque]
pub open spec fn set_keyclick(model: Model, f: FeaturesView, v: Seq<char>) -> FeaturesView {
    match volume_from(v) { Some(x) => FeaturesView { keys: KeysView { keyclick: x, ..f.keys }, ..f }, None => f }
}

/// `margin-bell=v`.
#[verifier::opaque]
pub open spec fn set_margin_bell(model: Model, f: FeaturesView, v: Seq<char>) -> FeaturesView {
    match volume_from(v) { Some(x) => FeaturesView { keys: KeysView { margin_bell: x, ..f.keys }, ..f }, None => f }
}

/// `warning-bell=v`.
#[verifier::opaque]
pub open spec fn set_warning_bell(model: Model, f: FeaturesView, v: Seq<char>) -> FeaturesView {
    match volume_from(v) { Some(x) => FeaturesView { keys: KeysView { warning_bell: x, ..f.keys }, ..f }, None => f }
}

/// `position-mode=v`.
#[verifier::opaque]
pub open spec fn set_position_mode(model: Model, f: FeaturesView, v: Seq<char>) -> FeaturesView {
    match two_named(v, "1"@, "0"@) { Some(b) => FeaturesView { keys: KeysView { position_mode: b, ..f.keys }, ..f }, None => f }
}

/// `backarrow-bs=v`.
#[verifier::opaque]
pub open spec fn set_backarrow_bs(model: Model, f: FeaturesView, v: Seq<char>) -> FeaturesView {
    match two_named(v, "1"@, "0"@) { Some(b) => FeaturesView { keys: KeysView { backarrow_bs: b, ..f.keys }, ..f }, None => f }
}

/// `compose=v`.
#[verifier::opaque]
pub open spec fn set_compose(model: Model, f: FeaturesView, v: Seq<char>) -> FeaturesView {
    match (if v == "report"@ { Some(ComposeKey::Report) } else if v == "ignore"@ { Some(ComposeKey::Ignore) } else if v == "local"@ { Some(ComposeKey::Local) } else { None }) { Some(x) => FeaturesView { keys: KeysView { compose: x, ..f.keys }, ..f }, None => f }
}

/// `report-alt=v`.
#[verifier::opaque]
pub open spec fn set_report_alt(model: Model, f: FeaturesView, v: Seq<char>) -> FeaturesView {
    match two_named(v, "1"@, "0"@) { Some(b) => FeaturesView { keys: KeysView { report_alt: b, ..f.keys }, ..f }, None => f }
}

/// `local-keys=v`.
#[verifier::opaque]
pub open spec fn set_local_keys(model: Model, f: FeaturesView, v: Seq<char>) -> FeaturesView {
    FeaturesView { layout: LayoutView { local_keys: keys_from(f.layout.local_keys, v), ..f.layout }, ..f }
}

/// `break-key=v`.
#[verifier::opaque]
pub open spec fn set_break_key(model: Model, f: FeaturesView, v: Seq<char>) -> FeaturesView {
    match (if v == "no-break"@ { Some(BreakKey::NoBreak) } else if v == "fkey"@ { Some(BreakKey::FunctionKey) } else if v == "ignore"@ { Some(BreakKey::Ignore) } else if v == "break"@ { Some(BreakKey::Break) } else { None }) { Some(x) => FeaturesView { layout: LayoutView { break_key: x, ..f.layout }, ..f }, None => f }
}

/// `comma-period-same=v`.
#[verifier::opaque]
pub open spec fn set_comma_period_same(model: Model, f: FeaturesView, v: Seq<char>) -> FeaturesView {
    match two_named(v, "1"@, "0"@) { Some(b) => FeaturesView { layout: LayoutView { comma_period_same: b, ..f.layout }, ..f }, None => f }
}

/// `angle-sends-tilde=v`.
#[verifier::opaque]
pub open spec fn set_angle_sends_tilde(model: Model, f: FeaturesView, v: Seq<char>) -> FeaturesView {
    match two_named(v, "1"@, "0"@) { Some(b) => FeaturesView { layout: LayoutView { angle_sends_tilde: b, ..f.layout }, ..f }, None => f }
}

/// `tilde-sends-escape=v`.
#[verifier::opaque]
pub open spec fn set_tilde_sends_escape(model: Model, f: FeaturesView, v: Seq<char>) -> FeaturesView {
    match two_named(v, "1"@, "0"@) { Some(b) => FeaturesView { layout: LayoutView { tilde_sends_escape: b, ..f.layout }, ..f }, None => f }
}

/// `keyboard=v`.
#[verifier::opaque]
pub open spec fn set_keyboard(model: Model, f: FeaturesView, v: Seq<char>) -> FeaturesView {
    match keyboard_choice(v) { Some(k) => FeaturesView { layout: LayoutView { keyboard_language: k, ..f.layout }, ..f }, None => f }
}

/// `tabs=v`.
#[verifier::opaque]
pub open spec fn set_tabs(model: Model, f: FeaturesView, v: Seq<char>) -> FeaturesView {
    FeaturesView { layout: LayoutView { tabs: tabs_from(if f.display.columns_132 { 132 } else { 80 }, v), ..f.layout }, ..f }
}

/// Settings 1: the features after `k=v`, or `None` when `k` is none of
/// its names.
pub open spec fn settings1(model: Model, f: FeaturesView, k: Seq<char>, v: Seq<char>) -> Option<FeaturesView> {
    if k == "on-line"@ {
        Some(set_on_line(model, f, v))
    } else if k == "crt-saver"@ {
        Some(set_crt_saver(model, f, v))
    } else if k == "comm1-dec423"@ {
        Some(set_comm1_dec423(model, f, v))
    } else if k == "refresh-60hz"@ {
        Some(set_refresh_60hz(model, f, v))
    } else if k == "printer-session"@ {
        Some(set_printer_session(model, f, v))
    } else if k == "columns"@ {
        Some(set_columns(model, f, v))
    } else if k == "display-controls"@ {
        Some(set_display_controls(model, f, v))
    } else if k == "autowrap"@ {
        Some(set_autowrap(model, f, v))
    } else if k == "scroll"@ {
        Some(set_scroll(model, f, v))
    } else if k == "light-screen"@ {
        Some(set_light_screen(model, f, v))
    } else {
        None
    }
}

/// Settings 2: the features after `k=v`, or `None` when `k` is none of
/// its names.
pub open spec fn settings2(model: Model, f: FeaturesView, k: Seq<char>, v: Seq<char>) -> Option<FeaturesView> {
    if k == "cursor"@ {
        Some(set_cursor(model, f, v))
    } else if k == "cursor-style"@ {
        Some(set_cursor_style(model, f, v))
    } else if k == "status"@ {
        Some(set_status(model, f, v))
    } else if k == "page-length"@ {
        Some(set_page_length(model, f, v))
    } else if k == "screen-lines"@ {
        Some(set_screen_lines(model, f, v))
    } else if k == "vertical-coupling"@ {
        Some(set_vertical_coupling(model, f, v))
    } else if k == "page-coupling"@ {
        Some(set_page_coupling(model, f, v))
    } else if k == "auto-resize"@ {
        Some(set_auto_resize(model, f, v))
    } else if k == "clear-on-column-change"@ {
        Some(set_clear_on_column_change(model, f, v))
    } else if k == "zero-style"@ {
        Some(set_zero_style(model, f, v))
    } else {
        None
    }
}

/// Settings 3: the features after `k=v`, or `None` when `k` is none of
/// its names.
pub open spec fn settings3(model: Model, f: FeaturesView, k: Seq<char>, v: Seq<char>) -> Option<FeaturesView> {
    if k == "crt-saver-minutes"@ {
        Some(set_crt_saver_minutes(model, f, v))
    } else if k == "energy-saver-minutes"@ {
        Some(set_energy_saver_minutes(model, f, v))
    } else if k == "host-wake-up"@ {
        Some(set_host_wake_up(model, f, v))
    } else if k == "overscan"@ {
        Some(set_overscan(model, f, v))
    } else if k == "terminal-mode"@ {
        Some(set_terminal_mode(model, f, v))
    } else if k == "udk-locked"@ {
        Some(set_udk_locked(model, f, v))
    } else if k == "user-features-locked"@ {
        Some(set_user_features_locked(model, f, v))
    } else if k == "national"@ {
        Some(set_national(model, f, v))
    } else if k == "new-line"@ {
        Some(set_new_line(model, f, v))
    } else if k == "upss"@ {
        Some(set_upss(model, f, v))
    } else {
        None
    }
}

/// Settings 4: the features after `k=v`, or `None` when `k` is none of
/// its names.
pub open spec fn settings4(model: Model, f: FeaturesView, k: Seq<char>, v: Seq<char>) -> Option<FeaturesView> {
    if k == "terminal-id"@ {
        Some(set_terminal_id(model, f, v))
    } else if k == "update"@ {
        Some(set_update(model, f, v))
    } else if k == "transmit-speed"@ {
        Some(set_transmit_speed(model, f, v))
    } else if k == "receive-speed"@ {
        Some(set_receive_speed(model, f, v))
    } else if k == "modem-high-speed"@ {
        Some(set_modem_high_speed(model, f, v))
    } else if k == "modem-low-speed"@ {
        Some(set_modem_low_speed(model, f, v))
    } else if k == "transmit-flow"@ {
        Some(set_transmit_flow(model, f, v))
    } else if k == "receive-flow"@ {
        Some(set_receive_flow(model, f, v))
    } else if k == "flow-threshold-high"@ {
        Some(set_flow_threshold_high(model, f, v))
    } else if k == "transmit-rate"@ {
        Some(set_transmit_rate(model, f, v))
    } else {
        None
    }
}

/// Settings 5: the features after `k=v`, or `None` when `k` is none of
/// its names.
pub open spec fn settings5(model: Model, f: FeaturesView, k: Seq<char>, v: Seq<char>) -> Option<FeaturesView> {
    if k == "fkey-rate"@ {
        Some(set_fkey_rate(model, f, v))
    } else if k == "ignore-null"@ {
        Some(set_ignore_null(model, f, v))
    } else if k == "half-duplex"@ {
        Some(set_half_duplex(model, f, v))
    } else if k == "word-size"@ {
        Some(set_word_size(model, f, v))
    } else if k == "parity"@ {
        Some(set_parity(model, f, v))
    } else if k == "xoff"@ {
        Some(set_xoff(model, f, v))
    } else if k == "data-format"@ {
        Some(set_data_format(model, f, v))
    } else if k == "stop-bits"@ {
        Some(set_stop_bits(model, f, v))
    } else if k == "local-echo"@ {
        Some(set_local_echo(model, f, v))
    } else if k == "modem-control"@ {
        Some(set_modem_control(model, f, v))
    } else {
        None
    }
}

/// Settings 6: the features after `k=v`, or `None` when `k` is none of
/// its names.
pub open spec fn settings6(model: Model, f: FeaturesView, k: Seq<char>, v: Seq<char>) -> Option<FeaturesView> {
    if k == "disconnect"@ {
        Some(set_disconnect(model, f, v))
    } else if k == "limited-transmit"@ {
        Some(set_limited_transmit(model, f, v))
    } else if k == "auto-answerback"@ {
        Some(set_auto_answerback(model, f, v))
    } else if k == "answerback"@ {
        Some(set_answerback(model, f, v))
    } else if k == "conceal-answerback"@ {
        Some(set_conceal_answerback(model, f, v))
    } else if k == "data-processing-keys"@ {
        Some(set_data_processing_keys(model, f, v))
    } else if k == "shift-lock"@ {
        Some(set_shift_lock(model, f, v))
    } else if k == "auto-repeat"@ {
        Some(set_auto_repeat(model, f, v))
    } else if k == "auto-repeat-rate"@ {
        Some(set_auto_repeat_rate(model, f, v))
    } else if k == "keyclick"@ {
        Some(set_keyclick(model, f, v))
    } else {
        None
    }
}

/// Settings 7: the features after `k=v`, or `None` when `k` is none of
/// its names.
pub open spec fn settings7(model: Model, f: FeaturesView, k: Seq<char>, v: Seq<char>) -> Option<FeaturesView> {
    if k == "margin-bell"@ {
        Some(set_margin_bell(model, f, v))
    } else if k == "warning-bell"@ {
        Some(set_warning_bell(model, f, v))
    } else if k == "position-mode"@ {
        Some(set_position_mode(model, f, v))
    } else if k == "backarrow-bs"@ {
        Some(set_backarrow_bs(model, f, v))
    } else if k == "compose"@ {
        Some(set_compose(model, f, v))
    } else if k == "report-alt"@ {
        Some(set_report_alt(model, f, v))
    } else if k == "local-keys"@ {
        Some(set_local_keys(model, f, v))
    } else if k == "break-key"@ {
        Some(set_break_key(model, f, v))
    } else if k == "comma-period-same"@ {
        Some(set_comma_period_same(model, f, v))
    } else if k == "angle-sends-tilde"@ {
        Some(set_angle_sends_tilde(model, f, v))
    } else {
        None
    }
}

/// Settings 8: the features after `k=v`, or `None` when `k` is none of
/// its names.
pub open spec fn settings8(model: Model, f: FeaturesView, k: Seq<char>, v: Seq<char>) -> Option<FeaturesView> {
    if k == "tilde-sends-escape"@ {
        Some(set_tilde_sends_escape(model, f, v))
    } else if k == "keyboard"@ {
        Some(set_keyboard(model, f, v))
    } else if k == "tabs"@ {
        Some(set_tabs(model, f, v))
    } else {
        None
    }
}

/// The features after one `k=v` setting: unknown names and bad values
/// change nothing, or set the default that the name's reading gives.
#[verifier::opaque]
pub open spec fn apply_setting(model: Model, f: FeaturesView, k: Seq<char>, v: Seq<char>) -> FeaturesView {
    if let Some(g) = settings1(model, f, k, v) {
        g
    } else     if let Some(g) = settings2(model, f, k, v) {
        g
    } else     if let Some(g) = settings3(model, f, k, v) {
        g
    } else     if let Some(g) = settings4(model, f, k, v) {
        g
    } else     if let Some(g) = settings5(model, f, k, v) {
        g
    } else     if let Some(g) = settings6(model, f, k, v) {
        g
    } else     if let Some(g) = settings7(model, f, k, v) {
        g
    } else     if let Some(g) = settings8(model, f, k, v) {
        g
    } else {
        f
    }
}

/// `l` without one trailing carriage return.
pub open spec fn strip_cr(l: Seq<char>) -> Seq<char> {
    if l.len() > 0 && l.last() == '\r' { l.drop_last() } else { l }
}

/// The lines of a text as `str::lines` gives them: split at line feeds, a
/// carriage return before a line feed dropped, no last empty line.
pub open spec fn text_lines(t: Seq<char>) -> Seq<Seq<char>>
    decreases t.len(),
{
    let i = find_c(t, '\n');
    if i < 0 {
        if t.len() == 0 { Seq::empty() } else { seq![t] }
    } else {
        proof {
            lemma_find_c(t, '\n');
        }
        seq![strip_cr(t.subrange(0, i))] + text_lines(t.subrange(i + 1, t.len() as int))
    }
}

/// The features after one line: `name=value`, the name trimmed; a line
/// without `=` changes nothing.
pub open spec fn apply_line(model: Model, f: FeaturesView, l: Seq<char>) -> FeaturesView {
    let i = find_c(l, '=');
    if i < 0 {
        f
    } else {
        apply_setting(model, f, trim_c(l.subrange(0, i)), l.subrange(i + 1, l.len() as int))
    }
}

/// The features after every line, in order.
pub open spec fn apply_lines(model: Model, f: FeaturesView, ls: Seq<Seq<char>>) -> FeaturesView
    decreases ls.len(),
{
    if ls.len() == 0 {
        f
    } else {
        apply_lines(model, apply_line(model, f, ls[0]), ls.drop_first())
    }
}

/// National mode needs a national keyboard.
pub open spec fn settle(f: FeaturesView) -> FeaturesView {
    if f.layout.keyboard_language is None {
        FeaturesView { general: GeneralView { national: false, ..f.general }, ..f }
    } else {
        f
    }
}

/// What [`Features::from_text`] reads: the lines applied over the factory
/// settings of `model`.
pub open spec fn features_from_text(model: Model, t: Seq<char>) -> FeaturesView {
    settle(apply_lines(model, factory_view(model), text_lines(t)))
}

fn num_of_chars(v: &[char]) -> (r: Option<u64>)
    ensures
        match num_of(v@) {
            Some(n) => r == Some(n as u64) && n <= usize::MAX,
            None => r is None,
        },
{
    parse_uint_chars(v, usize::MAX as u64)
}

fn num_or_of(v: &[char], d: u64) -> (r: u64)
    ensures
        r == num_or(v@, d as nat),
{
    match num_of_chars(v) {
        Some(n) => n,
        None => d,
    }
}

/// Whether two character sequences are equal.
fn chars_eq(a: &[char], b: &[char]) -> (r: bool)
    ensures
        r == (a@ == b@),
{
    if a.len() != b.len() {
        return false;
    }
    let mut i: usize = 0;
    while i < a.len()
        invariant
            i <= a@.len(),
            a@.len() == b@.len(),
            forall|j: int| 0 <= j < i ==> a@[j] == b@[j],
        decreases a@.len() - i,
    {
        if a[i] != b[i] {
            return false;
        }
        i = i + 1;
    }
    assert(a@ =~= b@);
    true
}

pub(crate) proof fn lemma_level_modes_len(l: u8)
    ensures
        level_modes(l).len() == (if l < 2 { 0 } else { 2 * (l - 1) }),
    decreases l,
{
    if l >= 2 {
        lemma_level_modes_len((l - 1) as u8);
    }
}

/// Every operating level a model offers, in Set-Up order.
pub(crate) fn terminal_modes_of(model: Model) -> (modes: Vec<TerminalMode>)
    ensures
        modes@ == terminal_modes(model),
{
    let max = model.max_level();
    let mut modes: Vec<TerminalMode> = Vec::new();
    let mut l: u8 = max;
    while l >= 2
        invariant
            l <= max,
            max == max_level(model),
            modes@ + level_modes(l) == level_modes(max),
        decreases l,
    {
        let ghost before = modes@;
        modes.push(TerminalMode::Level { level: l, eight_bit: false });
        modes.push(TerminalMode::Level { level: l, eight_bit: true });
        proof {
            assert(level_modes(l) == seq![TerminalMode::Level { level: l, eight_bit: false }, TerminalMode::Level { level: l, eight_bit: true }] + level_modes((l - 1) as u8));
            assert(modes@ + level_modes((l - 1) as u8) =~= before + level_modes(l));
        }
        l = l - 1;
    }
    assert(level_modes(l) =~= Seq::<TerminalMode>::empty());
    assert(modes@ =~= level_modes(max));
    modes.push(TerminalMode::Vt100);
    modes.push(TerminalMode::Vt52);
    assert(modes@ =~= terminal_modes(model));
    modes
}

fn mode_named_of(model: Model, v: &[char]) -> (r: Option<TerminalMode>)
    ensures
        r == mode_named(model, v@),
{
    let modes = terminal_modes_of(model);
    let mut i: usize = 0;
    assert(modes@.subrange(0, modes@.len() as int) =~= modes@);
    while i < modes.len()
        invariant
            i <= modes@.len(),
            mode_named(model, v@) == first_named(modes@.subrange(i as int, modes@.len() as int), v@),
        decreases modes@.len() - i,
    {
        let ghost rest = modes@.subrange(i as int, modes@.len() as int);
        proof {
            assert(rest[0] == modes@[i as int]);
            assert(rest.drop_first() =~= modes@.subrange(i + 1, modes@.len() as int));
        }
        let name = crate::setup::text::mode_name_of(modes[i]);
        if chars_eq(name.as_slice(), v) {
            return Some(modes[i]);
        }
        i = i + 1;
    }
    None
}

fn speed_choice_of(model: Model, v: &[char], none_word: &str) -> (r: Option<Option<u32>>)
    ensures
        r == speed_choice(model, v@, none_word@),
{
    if chars_equal(v, none_word) {
        return Some(None);
    }
    match parse_uint_chars(v, 0xFFFF_FFFF) {
        Some(s) => if offers_speed(model, s) {
            Some(Some(s as u32))
        } else {
            None
        },
        None => None,
    }
}

fn parity_named_of(v: &[char]) -> (r: Option<Parity>)
    ensures
        r == parity_named(v@),
{
    let all = Parity::all();
    let mut i: usize = 0;
    assert(all@.subrange(0, 7) =~= all@);
    while i < 7
        invariant
            i <= 7,
            all@ == all_parities(),
            parity_named(v@) == first_parity(all@.subrange(i as int, 7), v@),
        decreases 7 - i,
    {
        let ghost rest = all@.subrange(i as int, 7);
        proof {
            assert(rest[0] == all@[i as int]);
            assert(rest.drop_first() =~= all@.subrange(i + 1, 7));
        }
        let p = all[i];
        let name = crate::text::str_chars(p.name());
        if chars_eq(name.as_slice(), v) {
            return Some(p);
        }
        i = i + 1;
    }
    None
}

fn xoff_choice_of(v: &[char]) -> (r: Option<Option<u16>>)
    ensures
        r == xoff_choice(v@),
{
    if chars_equal(v, "none") {
        return Some(None);
    }
    match parse_uint_chars(v, 65535) {
        Some(x) => if x == 64 || x == 128 {
            Some(Some(x as u16))
        } else {
            None
        },
        None => None,
    }
}

fn data_format_of(i: u64) -> (r: (bool, Parity))
    ensures
        r == data_format(i as nat),
{
    if i == 0 {
        (false, Parity::NoParity)
    } else if i == 1 {
        (false, Parity::Even)
    } else if i == 2 {
        (false, Parity::Odd)
    } else if i == 3 {
        (true, Parity::Even)
    } else if i == 4 {
        (true, Parity::Odd)
    } else if i == 5 {
        (true, Parity::Mark)
    } else {
        (true, Parity::Space)
    }
}

fn answerback_of_chars(v: &[char]) -> (r: Option<Vec<u8>>)
    ensures
        match answerback_of(v@) {
            Some(b) => r is Some && r->0@ == b,
            None => r is None,
        },
{
    let mut bytes: Vec<u8> = Vec::new();
    let mut i: usize = 0;
    while i < v.len()
        invariant
            i <= v@.len(),
            forall|j: int| 0 <= j < i ==> (v@[j] as u32) < 128,
            bytes@ == v@.subrange(0, i as int).map_values(|c: char| c as u8),
        decreases v@.len() - i,
    {
        let c = v[i];
        if (c as u32) >= 128 {
            return None;
        }
        bytes.push(c as u8);
        i = i + 1;
        assert(bytes@ =~= v@.subrange(0, i as int).map_values(|c: char| c as u8));
    }
    assert(v@.subrange(0, i as int) =~= v@);
    unhex(bytes.as_slice())
}

fn volume_from_chars(v: &[char]) -> (r: Option<Volume>)
    ensures
        r == volume_from(v@),
{
    if chars_equal(v, "off") {
        Some(Volume::Off)
    } else if chars_equal(v, "low") {
        Some(Volume::Low)
    } else if chars_equal(v, "high") {
        Some(Volume::High)
    } else {
        None
    }
}

/// [`two_named`] on characters.
fn two_named_of(v: &[char], yes: &str, no: &str) -> (r: Option<bool>)
    ensures
        r == two_named(v@, yes@, no@),
{
    if chars_equal(v, yes) {
        Some(true)
    } else if chars_equal(v, no) {
        Some(false)
    } else {
        None
    }
}

/// [`num_in`] on characters.
fn num_in_of(v: &[char], lo: u64, hi: u64) -> (r: Option<u64>)
    ensures
        match num_in(v@, lo as nat, hi as nat) {
            Some(n) => r == Some(n as u64),
            None => r is None,
        },
{
    match num_of_chars(v) {
        Some(n) => if lo <= n && n <= hi { Some(n) } else { None },
        None => None,
    }
}

fn keys_from_chars(keys: &mut [LocalKeyAction; 4], v: &[char])
    ensures
        final(keys)@ == keys_from(old(keys)@, v@),
{
    let mut i: usize = 0;
    while i < 4 && i < v.len()
        invariant
            i <= 4,
            i <= v@.len(),
            keys@.len() == 4,
            old(keys)@.len() == 4,
            forall|j: int| 0 <= j < i ==> keys@[j] == key_action_of(v@[j], old(keys)@[j]),
            forall|j: int| i <= j < 4 ==> keys@[j] == old(keys)@[j],
        decreases 4 - i,
    {
        let c = v[i];
        let a = if c == 'h' {
            LocalKeyAction::SendToHost
        } else if c == 'x' {
            LocalKeyAction::Disabled
        } else if c == 'l' {
            LocalKeyAction::Local
        } else {
            keys[i]
        };
        keys[i] = a;
        i = i + 1;
    }
    assert(keys@ =~= keys_from(old(keys)@, v@));
}

fn keyboard_choice_of(v: &[char]) -> (r: Option<Option<Nrc>>)
    ensures
        r == keyboard_choice(v@),
{
    match num_of_chars(v) {
        Some(i) => if i < 13 {
            match dialect_at(i as usize) {
                Some(d) => Some(d),
                None => Some(None),
            }
        } else {
            None
        },
        None => None,
    }
}

fn tabs_from_chars(cols: usize, v: &[char]) -> (r: Vec<bool>)
    ensures
        r@ == tabs_from(cols as nat, v@),
{
    let mut t: Vec<bool> = Vec::new();
    let mut c: usize = 0;
    while c < cols
        invariant
            c <= cols,
            t@ == Seq::new(c as nat, |i: int| false),
        decreases cols - c,
    {
        t.push(false);
        c = c + 1;
        assert(t@ =~= Seq::new(c as nat, |i: int| false));
    }
    let pieces = split_chars(v, ',');
    let ghost ps = char_views(pieces@);
    let mut k: usize = 0;
    assert(ps.subrange(0, ps.len() as int) =~= ps);
    while k < pieces.len()
        invariant
            k <= pieces@.len(),
            ps == char_views(pieces@),
            ps == split_c(v@, ','),
            t@.len() == cols,
            tabs_from(cols as nat, v@) == tabs_fold(t@, ps.subrange(k as int, ps.len() as int)),
        decreases pieces@.len() - k,
    {
        let ghost rest = ps.subrange(k as int, ps.len() as int);
        proof {
            assert(rest[0] == pieces@[k as int]@);
            assert(rest.drop_first() =~= ps.subrange(k + 1, ps.len() as int));
        }
        match parse_uint_chars(pieces[k].as_slice(), usize::MAX as u64) {
            Some(n) => {
                if 2 <= n && n <= cols as u64 {
                    t.set((n - 1) as usize, true);
                }
            },
            None => {},
        }
        k = k + 1;
    }
    t
}


/// Global Set-Up, while the features are read.
pub(crate) struct GlobalSettings {
    pub(crate) on_line: bool,
    pub(crate) two_sessions: bool,
    pub(crate) crt_saver: bool,
    pub(crate) comm1_dec423: bool,
    pub(crate) refresh_60hz: bool,
    pub(crate) printer_session: u8,
}

/// Display Set-Up: the page, while the features are read.
pub(crate) struct DisplaySettings {
    pub(crate) columns_132: bool,
    pub(crate) display_controls: bool,
    pub(crate) autowrap: bool,
    pub(crate) scroll: Scroll,
    pub(crate) light_screen: bool,
    pub(crate) cursor: bool,
    pub(crate) cursor_style: CursorStyle,
    pub(crate) status: StatusDisplay,
    pub(crate) page_length: usize,
}

/// Display Set-Up: the screen and the VT500 display features, while the features are read.
pub(crate) struct ScreenSettings {
    pub(crate) screen_lines: usize,
    pub(crate) vertical_coupling: bool,
    pub(crate) page_coupling: bool,
    pub(crate) auto_resize: bool,
    pub(crate) clear_on_column_change: bool,
    pub(crate) zero_style: u8,
    pub(crate) crt_saver_minutes: u16,
    pub(crate) energy_saver_minutes: u16,
    pub(crate) host_wake_up: bool,
    pub(crate) overscan: bool,
}

/// General Set-Up, while the features are read.
pub(crate) struct GeneralSettings {
    pub(crate) terminal_mode: TerminalMode,
    pub(crate) udk_locked: bool,
    pub(crate) user_features_locked: bool,
    pub(crate) national: bool,
    pub(crate) keypad_application: bool,
    pub(crate) cursor_keys_application: bool,
    pub(crate) new_line: bool,
    pub(crate) upss: Supplemental,
    pub(crate) terminal_id: u16,
    pub(crate) update: u16,
}

/// Communications Set-Up: the line, while the features are read.
pub(crate) struct LineSettings {
    pub(crate) transmit_speed: u32,
    pub(crate) receive_speed: Option<u32>,
    pub(crate) xoff: Option<u16>,
    pub(crate) seven_bit_data: bool,
    pub(crate) parity: Parity,
    pub(crate) two_stop_bits: bool,
    pub(crate) transmit_flow: u8,
    pub(crate) receive_flow: u8,
    pub(crate) flow_threshold_high: bool,
    pub(crate) transmit_rate: u8,
    pub(crate) fkey_rate: u8,
}

/// Communications Set-Up: the modem and the answerback, while the features are read.
pub(crate) struct ModemSettings {
    pub(crate) ignore_null: bool,
    pub(crate) half_duplex: bool,
    pub(crate) modem_high_speed: Option<u32>,
    pub(crate) modem_low_speed: Option<u32>,
    pub(crate) local_echo: bool,
    pub(crate) modem_control: bool,
    pub(crate) disconnect: u8,
    pub(crate) limited_transmit: bool,
    pub(crate) auto_answerback: bool,
    pub(crate) answerback: Vec<u8>,
    pub(crate) conceal_answerback: bool,
}

/// Keyboard Set-Up: the keys, while the features are read.
pub(crate) struct KeysSettings {
    pub(crate) data_processing_keys: bool,
    pub(crate) shift_lock: bool,
    pub(crate) auto_repeat: bool,
    pub(crate) auto_repeat_rate: u8,
    pub(crate) keyclick: Volume,
    pub(crate) margin_bell: Volume,
    pub(crate) warning_bell: Volume,
    pub(crate) position_mode: bool,
    pub(crate) backarrow_bs: bool,
    pub(crate) compose: ComposeKey,
    pub(crate) report_alt: bool,
}

/// Keyboard and Tab Set-Up: local keys, language and tab stops, while the features are read.
pub(crate) struct LayoutSettings {
    pub(crate) local_keys: [LocalKeyAction; 4],
    pub(crate) break_key: BreakKey,
    pub(crate) comma_period_same: bool,
    pub(crate) angle_sends_tilde: bool,
    pub(crate) tilde_sends_escape: bool,
    pub(crate) keyboard_language: Option<Nrc>,
    pub(crate) tabs: Vec<bool>,
}

/// The features being read, by Set-Up screen.
pub(crate) struct Reading {
    pub(crate) global: GlobalSettings,
    pub(crate) display: DisplaySettings,
    pub(crate) screen: ScreenSettings,
    pub(crate) general: GeneralSettings,
    pub(crate) line: LineSettings,
    pub(crate) modem: ModemSettings,
    pub(crate) keys: KeysSettings,
    pub(crate) layout: LayoutSettings,
}

impl Reading {
    pub(crate) open spec fn view(&self) -> FeaturesView {
        FeaturesView {
            global: GlobalView {
                on_line: self.global.on_line,
                two_sessions: self.global.two_sessions,
                crt_saver: self.global.crt_saver,
                comm1_dec423: self.global.comm1_dec423,
                refresh_60hz: self.global.refresh_60hz,
                printer_session: self.global.printer_session,
            },
            display: DisplayView {
                columns_132: self.display.columns_132,
                display_controls: self.display.display_controls,
                autowrap: self.display.autowrap,
                scroll: self.display.scroll,
                light_screen: self.display.light_screen,
                cursor: self.display.cursor,
                cursor_style: self.display.cursor_style,
                status: self.display.status,
                page_length: self.display.page_length,
            },
            screen: ScreenView {
                screen_lines: self.screen.screen_lines,
                vertical_coupling: self.screen.vertical_coupling,
                page_coupling: self.screen.page_coupling,
                auto_resize: self.screen.auto_resize,
                clear_on_column_change: self.screen.clear_on_column_change,
                zero_style: self.screen.zero_style,
                crt_saver_minutes: self.screen.crt_saver_minutes,
                energy_saver_minutes: self.screen.energy_saver_minutes,
                host_wake_up: self.screen.host_wake_up,
                overscan: self.screen.overscan,
            },
            general: GeneralView {
                terminal_mode: self.general.terminal_mode,
                udk_locked: self.general.udk_locked,
                user_features_locked: self.general.user_features_locked,
                national: self.general.national,
                keypad_application: self.general.keypad_application,
                cursor_keys_application: self.general.cursor_keys_application,
                new_line: self.general.new_line,
                upss: self.general.upss,
                terminal_id: self.general.terminal_id,
                update: self.general.update,
            },
            line: LineView {
                transmit_speed: self.line.transmit_speed,
                receive_speed: self.line.receive_speed,
                xoff: self.line.xoff,
                seven_bit_data: self.line.seven_bit_data,
                parity: self.line.parity,
                two_stop_bits: self.line.two_stop_bits,
                transmit_flow: self.line.transmit_flow,
                receive_flow: self.line.receive_flow,
                flow_threshold_high: self.line.flow_threshold_high,
                transmit_rate: self.line.transmit_rate,
                fkey_rate: self.line.fkey_rate,
            },
            modem: ModemView {
                ignore_null: self.modem.ignore_null,
                half_duplex: self.modem.half_duplex,
                modem_high_speed: self.modem.modem_high_speed,
                modem_low_speed: self.modem.modem_low_speed,
                local_echo: self.modem.local_echo,
                modem_control: self.modem.modem_control,
                disconnect: self.modem.disconnect,
                limited_transmit: self.modem.limited_transmit,
                auto_answerback: self.modem.auto_answerback,
                answerback: self.modem.answerback@,
                conceal_answerback: self.modem.conceal_answerback,
            },
            keys: KeysView {
                data_processing_keys: self.keys.data_processing_keys,
                shift_lock: self.keys.shift_lock,
                auto_repeat: self.keys.auto_repeat,
                auto_repeat_rate: self.keys.auto_repeat_rate,
                keyclick: self.keys.keyclick,
                margin_bell: self.keys.margin_bell,
                warning_bell: self.keys.warning_bell,
                position_mode: self.keys.position_mode,
                backarrow_bs: self.keys.backarrow_bs,
                compose: self.keys.compose,
                report_alt: self.keys.report_alt,
            },
            layout: LayoutView {
                local_keys: self.layout.local_keys@,
                break_key: self.layout.break_key,
                comma_period_same: self.layout.comma_period_same,
                angle_sends_tilde: self.layout.angle_sends_tilde,
                tilde_sends_escape: self.layout.tilde_sends_escape,
                keyboard_language: self.layout.keyboard_language,
                tabs: self.layout.tabs@,
            },
        }
    }
}

/// The features, to be read into.
pub(crate) fn reading_of(f: Features) -> (r: Reading)
    ensures
        r.view() == f@,
{
    Reading {
        global: GlobalSettings {
            on_line: f.on_line,
            two_sessions: f.two_sessions,
            crt_saver: f.crt_saver,
            comm1_dec423: f.comm1_dec423,
            refresh_60hz: f.refresh_60hz,
            printer_session: f.printer_session,
        },
        display: DisplaySettings {
            columns_132: f.columns_132,
            display_controls: f.display_controls,
            autowrap: f.autowrap,
            scroll: f.scroll,
            light_screen: f.light_screen,
            cursor: f.cursor,
            cursor_style: f.cursor_style,
            status: f.status,
            page_length: f.page_length,
        },
        screen: ScreenSettings {
            screen_lines: f.screen_lines,
            vertical_coupling: f.vertical_coupling,
            page_coupling: f.page_coupling,
            auto_resize: f.auto_resize,
            clear_on_column_change: f.clear_on_column_change,
            zero_style: f.zero_style,
            crt_saver_minutes: f.crt_saver_minutes,
            energy_saver_minutes: f.energy_saver_minutes,
            host_wake_up: f.host_wake_up,
            overscan: f.overscan,
        },
        general: GeneralSettings {
            terminal_mode: f.terminal_mode,
            udk_locked: f.udk_locked,
            user_features_locked: f.user_features_locked,
            national: f.national,
            keypad_application: f.keypad_application,
            cursor_keys_application: f.cursor_keys_application,
            new_line: f.new_line,
            upss: f.upss,
            terminal_id: f.terminal_id,
            update: f.update,
        },
        line: LineSettings {
            transmit_speed: f.transmit_speed,
            receive_speed: f.receive_speed,
            xoff: f.xoff,
            seven_bit_data: f.seven_bit_data,
            parity: f.parity,
            two_stop_bits: f.two_stop_bits,
            transmit_flow: f.transmit_flow,
            receive_flow: f.receive_flow,
            flow_threshold_high: f.flow_threshold_high,
            transmit_rate: f.transmit_rate,
            fkey_rate: f.fkey_rate,
        },
        modem: ModemSettings {
            ignore_null: f.ignore_null,
            half_duplex: f.half_duplex,
            modem_high_speed: f.modem_high_speed,
            modem_low_speed: f.modem_low_speed,
            local_echo: f.local_echo,
            modem_control: f.modem_control,
            disconnect: f.disconnect,
            limited_transmit: f.limited_transmit,
            auto_answerback: f.auto_answerback,
            answerback: f.answerback,
            conceal_answerback: f.conceal_answerback,
        },
        keys: KeysSettings {
            data_processing_keys: f.data_processing_keys,
            shift_lock: f.shift_lock,
            auto_repeat: f.auto_repeat,
            auto_repeat_rate: f.auto_repeat_rate,
            keyclick: f.keyclick,
            margin_bell: f.margin_bell,
            warning_bell: f.warning_bell,
            position_mode: f.position_mode,
            backarrow_bs: f.backarrow_bs,
            compose: f.compose,
            report_alt: f.report_alt,
        },
        layout: LayoutSettings {
            local_keys: f.local_keys,
            break_key: f.break_key,
            comma_period_same: f.comma_period_same,
            angle_sends_tilde: f.angle_sends_tilde,
            tilde_sends_escape: f.tilde_sends_escape,
            keyboard_language: f.keyboard_language,
            tabs: f.tabs,
        },
    }
}

/// The features read.
#[verifier::spinoff_prover]
#[verifier::rlimit(40)]
pub(crate) fn features_of(r: Reading) -> (f: Features)
    ensures
        f@ == r.view(),
{
    Features {
        on_line: r.global.on_line,
        two_sessions: r.global.two_sessions,
        crt_saver: r.global.crt_saver,
        comm1_dec423: r.global.comm1_dec423,
        refresh_60hz: r.global.refresh_60hz,
        printer_session: r.global.printer_session,
        columns_132: r.display.columns_132,
        display_controls: r.display.display_controls,
        autowrap: r.display.autowrap,
        scroll: r.display.scroll,
        light_screen: r.display.light_screen,
        cursor: r.display.cursor,
        cursor_style: r.display.cursor_style,
        status: r.display.status,
        page_length: r.display.page_length,
        screen_lines: r.screen.screen_lines,
        vertical_coupling: r.screen.vertical_coupling,
        page_coupling: r.screen.page_coupling,
        auto_resize: r.screen.auto_resize,
        clear_on_column_change: r.screen.clear_on_column_change,
        zero_style: r.screen.zero_style,
        crt_saver_minutes: r.screen.crt_saver_minutes,
        energy_saver_minutes: r.screen.energy_saver_minutes,
        host_wake_up: r.screen.host_wake_up,
        overscan: r.screen.overscan,
        terminal_mode: r.general.terminal_mode,
        udk_locked: r.general.udk_locked,
        user_features_locked: r.general.user_features_locked,
        national: r.general.national,
        keypad_application: r.general.keypad_application,
        cursor_keys_application: r.general.cursor_keys_application,
        new_line: r.general.new_line,
        upss: r.general.upss,
        terminal_id: r.general.terminal_id,
        update: r.general.update,
        transmit_speed: r.line.transmit_speed,
        receive_speed: r.line.receive_speed,
        xoff: r.line.xoff,
        seven_bit_data: r.line.seven_bit_data,
        parity: r.line.parity,
        two_stop_bits: r.line.two_stop_bits,
        transmit_flow: r.line.transmit_flow,
        receive_flow: r.line.receive_flow,
        flow_threshold_high: r.line.flow_threshold_high,
        transmit_rate: r.line.transmit_rate,
        fkey_rate: r.line.fkey_rate,
        ignore_null: r.modem.ignore_null,
        half_duplex: r.modem.half_duplex,
        modem_high_speed: r.modem.modem_high_speed,
        modem_low_speed: r.modem.modem_low_speed,
        local_echo: r.modem.local_echo,
        modem_control: r.modem.modem_control,
        disconnect: r.modem.disconnect,
        limited_transmit: r.modem.limited_transmit,
        auto_answerback: r.modem.auto_answerback,
        answerback: r.modem.answerback,
        conceal_answerback: r.modem.conceal_answerback,
        data_processing_keys: r.keys.data_processing_keys,
        shift_lock: r.keys.shift_lock,
        auto_repeat: r.keys.auto_repeat,
        auto_repeat_rate: r.keys.auto_repeat_rate,
        keyclick: r.keys.keyclick,
        margin_bell: r.keys.margin_bell,
        warning_bell: r.keys.warning_bell,
        position_mode: r.keys.position_mode,
        backarrow_bs: r.keys.backarrow_bs,
        compose: r.keys.compose,
        report_alt: r.keys.report_alt,
        local_keys: r.layout.local_keys,
        break_key: r.layout.break_key,
        comma_period_same: r.layout.comma_period_same,
        angle_sends_tilde: r.layout.angle_sends_tilde,
        tilde_sends_escape: r.layout.tilde_sends_escape,
        keyboard_language: r.layout.keyboard_language,
        tabs: r.layout.tabs,
    }
}

fn set_on_line_of(model: Model, r: &mut Reading, v: &[char])
    ensures
        final(r).view() == set_on_line(model, old(r).view(), v@),
{
    proof {
        reveal(set_on_line);
    }
    if let Some(val) = two_named_of(v, "1", "0") {
        r.global.on_line = val;
    }
}

fn set_crt_saver_of(model: Model, r: &mut Reading, v: &[char])
    ensures
        final(r).view() == set_crt_saver(model, old(r).view(), v@),
{
    proof {
        reveal(set_crt_saver);
    }
    if let Some(val) = two_named_of(v, "1", "0") {
        r.global.crt_saver = val;
    }
}

fn set_comm1_dec423_of(model: Model, r: &mut Reading, v: &[char])
    ensures
        final(r).view() == set_comm1_dec423(model, old(r).view(), v@),
{
    proof {
        reveal(set_comm1_dec423);
    }
    if let Some(val) = two_named_of(v, "1", "0") {
        r.global.comm1_dec423 = val;
    }
}

fn set_refresh_60hz_of(model: Model, r: &mut Reading, v: &[char])
    ensures
        final(r).view() == set_refresh_60hz(model, old(r).view(), v@),
{
    proof {
        reveal(set_refresh_60hz);
    }
    if let Some(val) = two_named_of(v, "1", "0") {
        r.global.refresh_60hz = val;
    }
}

fn set_printer_session_of(model: Model, r: &mut Reading, v: &[char])
    ensures
        final(r).view() == set_printer_session(model, old(r).view(), v@),
{
    proof {
        reveal(set_printer_session);
    }
    if let Some(n) = num_in_of(v, 0, 2) {
        r.global.printer_session = n as u8;
    }
}

fn set_columns_of(model: Model, r: &mut Reading, v: &[char])
    ensures
        final(r).view() == set_columns(model, old(r).view(), v@),
{
    proof {
        reveal(set_columns);
    }
    if let Some(val) = two_named_of(v, "132", "80") {
        r.display.columns_132 = val;
    }
}

fn set_display_controls_of(model: Model, r: &mut Reading, v: &[char])
    ensures
        final(r).view() == set_display_controls(model, old(r).view(), v@),
{
    proof {
        reveal(set_display_controls);
    }
    if let Some(val) = two_named_of(v, "1", "0") {
        r.display.display_controls = val;
    }
}

fn set_autowrap_of(model: Model, r: &mut Reading, v: &[char])
    ensures
        final(r).view() == set_autowrap(model, old(r).view(), v@),
{
    proof {
        reveal(set_autowrap);
    }
    if let Some(val) = two_named_of(v, "1", "0") {
        r.display.autowrap = val;
    }
}

fn set_scroll_of(model: Model, r: &mut Reading, v: &[char])
    ensures
        final(r).view() == set_scroll(model, old(r).view(), v@),
{
    proof {
        reveal(set_scroll);
    }
    let val = if chars_equal(v, "smooth-2") { Some(Scroll::Smooth2) } else if chars_equal(v, "smooth-4") { Some(Scroll::Smooth4) } else if chars_equal(v, "jump") { Some(Scroll::Jump) } else { None };
    if let Some(x) = val {
        r.display.scroll = x;
    }
}

fn set_light_screen_of(model: Model, r: &mut Reading, v: &[char])
    ensures
        final(r).view() == set_light_screen(model, old(r).view(), v@),
{
    proof {
        reveal(set_light_screen);
    }
    if let Some(val) = two_named_of(v, "1", "0") {
        r.display.light_screen = val;
    }
}

fn set_cursor_of(model: Model, r: &mut Reading, v: &[char])
    ensures
        final(r).view() == set_cursor(model, old(r).view(), v@),
{
    proof {
        reveal(set_cursor);
    }
    if let Some(val) = two_named_of(v, "1", "0") {
        r.display.cursor = val;
    }
}

fn set_cursor_style_of(model: Model, r: &mut Reading, v: &[char])
    ensures
        final(r).view() == set_cursor_style(model, old(r).view(), v@),
{
    proof {
        reveal(set_cursor_style);
    }
    let val = if chars_equal(v, "steady-block") { Some(CursorStyle::SteadyBlock) } else if chars_equal(v, "blinking-underline") { Some(CursorStyle::BlinkingUnderline) } else if chars_equal(v, "steady-underline") { Some(CursorStyle::SteadyUnderline) } else if chars_equal(v, "blinking-block") { Some(CursorStyle::BlinkingBlock) } else { None };
    if let Some(x) = val {
        r.display.cursor_style = x;
    }
}

fn set_status_of(model: Model, r: &mut Reading, v: &[char])
    ensures
        final(r).view() == set_status(model, old(r).view(), v@),
{
    proof {
        reveal(set_status);
    }
    if model.max_level() >= 3 {
        let val = if chars_equal(v, "none") { Some(StatusDisplay::NoDisplay) } else if chars_equal(v, "host") { Some(StatusDisplay::HostWritable) } else if chars_equal(v, "indicator") { Some(StatusDisplay::Indicator) } else { None };
        if let Some(x) = val {
            r.display.status = x;
        }
    }
}

fn set_page_length_of(model: Model, r: &mut Reading, v: &[char])
    ensures
        final(r).view() == set_page_length(model, old(r).view(), v@),
{
    proof {
        reveal(set_page_length);
    }
    let val = match num_of_chars(v) { Some(n) => if offers_page_length(model, n) { n as usize } else { r.display.page_length }, None => r.display.page_length };
    r.display.page_length = val;
}

fn set_screen_lines_of(model: Model, r: &mut Reading, v: &[char])
    ensures
        final(r).view() == set_screen_lines(model, old(r).view(), v@),
{
    proof {
        reveal(set_screen_lines);
    }
    let val = match num_of_chars(v) { Some(n) => if n == 24 || n == 36 || n == 48 { n as usize } else { r.screen.screen_lines }, None => r.screen.screen_lines };
    r.screen.screen_lines = val;
}

fn set_vertical_coupling_of(model: Model, r: &mut Reading, v: &[char])
    ensures
        final(r).view() == set_vertical_coupling(model, old(r).view(), v@),
{
    proof {
        reveal(set_vertical_coupling);
    }
    if let Some(val) = two_named_of(v, "1", "0") {
        r.screen.vertical_coupling = val;
    }
}

fn set_page_coupling_of(model: Model, r: &mut Reading, v: &[char])
    ensures
        final(r).view() == set_page_coupling(model, old(r).view(), v@),
{
    proof {
        reveal(set_page_coupling);
    }
    if let Some(val) = two_named_of(v, "1", "0") {
        r.screen.page_coupling = val;
    }
}

fn set_auto_resize_of(model: Model, r: &mut Reading, v: &[char])
    ensures
        final(r).view() == set_auto_resize(model, old(r).view(), v@),
{
    proof {
        reveal(set_auto_resize);
    }
    if let Some(val) = two_named_of(v, "1", "0") {
        r.screen.auto_resize = val;
    }
}

fn set_clear_on_column_change_of(model: Model, r: &mut Reading, v: &[char])
    ensures
        final(r).view() == set_clear_on_column_change(model, old(r).view(), v@),
{
    proof {
        reveal(set_clear_on_column_change);
    }
    if let Some(val) = two_named_of(v, "1", "0") {
        r.screen.clear_on_column_change = val;
    }
}

fn set_zero_style_of(model: Model, r: &mut Reading, v: &[char])
    ensures
        final(r).view() == set_zero_style(model, old(r).view(), v@),
{
    proof {
        reveal(set_zero_style);
    }
    if let Some(n) = num_in_of(v, 1, 3) {
        r.screen.zero_style = n as u8;
    }
}

fn set_crt_saver_minutes_of(model: Model, r: &mut Reading, v: &[char])
    ensures
        final(r).view() == set_crt_saver_minutes(model, old(r).view(), v@),
{
    proof {
        reveal(set_crt_saver_minutes);
    }
    let val = match num_of_chars(v) { Some(n) => if n % 65536 == 0 || n % 65536 == 5 || n % 65536 == 15 || n % 65536 == 30 || n % 65536 == 60 { (n % 65536) as u16 } else { r.screen.crt_saver_minutes }, None => r.screen.crt_saver_minutes };
    r.screen.crt_saver_minutes = val;
}

fn set_energy_saver_minutes_of(model: Model, r: &mut Reading, v: &[char])
    ensures
        final(r).view() == set_energy_saver_minutes(model, old(r).view(), v@),
{
    proof {
        reveal(set_energy_saver_minutes);
    }
    let val = match num_of_chars(v) { Some(n) => if n % 65536 == 0 || n % 65536 == 5 || n % 65536 == 15 || n % 65536 == 30 || n % 65536 == 60 { (n % 65536) as u16 } else { r.screen.energy_saver_minutes }, None => r.screen.energy_saver_minutes };
    r.screen.energy_saver_minutes = val;
}

fn set_host_wake_up_of(model: Model, r: &mut Reading, v: &[char])
    ensures
        final(r).view() == set_host_wake_up(model, old(r).view(), v@),
{
    proof {
        reveal(set_host_wake_up);
    }
    if let Some(val) = two_named_of(v, "1", "0") {
        r.screen.host_wake_up = val;
    }
}

fn set_overscan_of(model: Model, r: &mut Reading, v: &[char])
    ensures
        final(r).view() == set_overscan(model, old(r).view(), v@),
{
    proof {
        reveal(set_overscan);
    }
    if let Some(val) = two_named_of(v, "1", "0") {
        r.screen.overscan = val;
    }
}

fn set_terminal_mode_of(model: Model, r: &mut Reading, v: &[char])
    ensures
        final(r).view() == set_terminal_mode(model, old(r).view(), v@),
{
    proof {
        reveal(set_terminal_mode);
    }
    let val = match mode_named_of(model, v) { Some(m) => m, None => r.general.terminal_mode };
    r.general.terminal_mode = val;
}

fn set_udk_locked_of(model: Model, r: &mut Reading, v: &[char])
    ensures
        final(r).view() == set_udk_locked(model, old(r).view(), v@),
{
    proof {
        reveal(set_udk_locked);
    }
    if let Some(val) = two_named_of(v, "1", "0") {
        r.general.udk_locked = val;
    }
}

fn set_user_features_locked_of(model: Model, r: &mut Reading, v: &[char])
    ensures
        final(r).view() == set_user_features_locked(model, old(r).view(), v@),
{
    proof {
        reveal(set_user_features_locked);
    }
    if let Some(val) = two_named_of(v, "1", "0") {
        r.general.user_features_locked = val;
    }
}

fn set_national_of(model: Model, r: &mut Reading, v: &[char])
    ensures
        final(r).view() == set_national(model, old(r).view(), v@),
{
    proof {
        reveal(set_national);
    }
    if let Some(val) = two_named_of(v, "1", "0") {
        r.general.national = val;
    }
}

fn set_new_line_of(model: Model, r: &mut Reading, v: &[char])
    ensures
        final(r).view() == set_new_line(model, old(r).view(), v@),
{
    proof {
        reveal(set_new_line);
    }
    if let Some(val) = two_named_of(v, "1", "0") {
        r.general.new_line = val;
    }
}

fn set_upss_of(model: Model, r: &mut Reading, v: &[char])
    ensures
        final(r).view() == set_upss(model, old(r).view(), v@),
{
    proof {
        reveal(set_upss);
    }
    let val = if chars_equal(v, "latin1") { Some(Supplemental::IsoLatin1) } else if chars_equal(v, "dec") { Some(Supplemental::DecSupplemental) } else { None };
    if let Some(x) = val {
        r.general.upss = x;
    }
}

fn set_terminal_id_of(model: Model, r: &mut Reading, v: &[char])
    ensures
        final(r).view() == set_terminal_id(model, old(r).view(), v@),
{
    proof {
        reveal(set_terminal_id);
    }
    let val = match num_of_chars(v) { Some(n) => if offers_terminal_id(model, n % 65536) { (n % 65536) as u16 } else { r.general.terminal_id }, None => r.general.terminal_id };
    r.general.terminal_id = val;
}

fn set_update_of(model: Model, r: &mut Reading, v: &[char])
    ensures
        final(r).view() == set_update(model, old(r).view(), v@),
{
    proof {
        reveal(set_update);
    }
    if let Some(n) = num_in_of(v, 1, 3) {
        r.general.update = n as u16;
    }
}

fn set_transmit_speed_of(model: Model, r: &mut Reading, v: &[char])
    ensures
        final(r).view() == set_transmit_speed(model, old(r).view(), v@),
{
    proof {
        reveal(set_transmit_speed);
    }
    let val = match num_of_chars(v) { Some(n) => if offers_speed(model, n % 0x1_0000_0000) { (n % 0x1_0000_0000) as u32 } else { r.line.transmit_speed }, None => r.line.transmit_speed };
    r.line.transmit_speed = val;
}

fn set_receive_speed_of(model: Model, r: &mut Reading, v: &[char])
    ensures
        final(r).view() == set_receive_speed(model, old(r).view(), v@),
{
    proof {
        reveal(set_receive_speed);
    }
    if let Some(val) = speed_choice_of(model, v, "transmit") {
        r.line.receive_speed = val;
    }
}

fn set_modem_high_speed_of(model: Model, r: &mut Reading, v: &[char])
    ensures
        final(r).view() == set_modem_high_speed(model, old(r).view(), v@),
{
    proof {
        reveal(set_modem_high_speed);
    }
    if let Some(val) = speed_choice_of(model, v, "ignore") {
        r.modem.modem_high_speed = val;
    }
}

fn set_modem_low_speed_of(model: Model, r: &mut Reading, v: &[char])
    ensures
        final(r).view() == set_modem_low_speed(model, old(r).view(), v@),
{
    proof {
        reveal(set_modem_low_speed);
    }
    if let Some(val) = speed_choice_of(model, v, "ignore") {
        r.modem.modem_low_speed = val;
    }
}

fn set_transmit_flow_of(model: Model, r: &mut Reading, v: &[char])
    ensures
        final(r).view() == set_transmit_flow(model, old(r).view(), v@),
{
    proof {
        reveal(set_transmit_flow);
    }
    if let Some(n) = num_in_of(v, 0, 3) {
        r.line.transmit_flow = n as u8;
    }
}

fn set_receive_flow_of(model: Model, r: &mut Reading, v: &[char])
    ensures
        final(r).view() == set_receive_flow(model, old(r).view(), v@),
{
    proof {
        reveal(set_receive_flow);
    }
    if let Some(n) = num_in_of(v, 0, 3) {
        r.line.receive_flow = n as u8;
    }
}

fn set_flow_threshold_high_of(model: Model, r: &mut Reading, v: &[char])
    ensures
        final(r).view() == set_flow_threshold_high(model, old(r).view(), v@),
{
    proof {
        reveal(set_flow_threshold_high);
    }
    if let Some(val) = two_named_of(v, "1", "0") {
        r.line.flow_threshold_high = val;
    }
}

fn set_transmit_rate_of(model: Model, r: &mut Reading, v: &[char])
    ensures
        final(r).view() == set_transmit_rate(model, old(r).view(), v@),
{
    proof {
        reveal(set_transmit_rate);
    }
    if let Some(n) = num_in_of(v, 1, 3) {
        r.line.transmit_rate = n as u8;
    }
}

fn set_fkey_rate_of(model: Model, r: &mut Reading, v: &[char])
    ensures
        final(r).view() == set_fkey_rate(model, old(r).view(), v@),
{
    proof {
        reveal(set_fkey_rate);
    }
    if let Some(n) = num_in_of(v, 0, 3) {
        r.line.fkey_rate = n as u8;
    }
}

fn set_ignore_null_of(model: Model, r: &mut Reading, v: &[char])
    ensures
        final(r).view() == set_ignore_null(model, old(r).view(), v@),
{
    proof {
        reveal(set_ignore_null);
    }
    if let Some(val) = two_named_of(v, "1", "0") {
        r.modem.ignore_null = val;
    }
}

fn set_half_duplex_of(model: Model, r: &mut Reading, v: &[char])
    ensures
        final(r).view() == set_half_duplex(model, old(r).view(), v@),
{
    proof {
        reveal(set_half_duplex);
    }
    if let Some(val) = two_named_of(v, "1", "0") {
        r.modem.half_duplex = val;
    }
}

fn set_word_size_of(model: Model, r: &mut Reading, v: &[char])
    ensures
        final(r).view() == set_word_size(model, old(r).view(), v@),
{
    proof {
        reveal(set_word_size);
    }
    if let Some(val) = two_named_of(v, "7", "8") {
        r.line.seven_bit_data = val;
    }
}

fn set_parity_of(model: Model, r: &mut Reading, v: &[char])
    ensures
        final(r).view() == set_parity(model, old(r).view(), v@),
{
    proof {
        reveal(set_parity);
    }
    let val = match parity_named_of(v) { Some(p) => p, None => r.line.parity };
    r.line.parity = val;
}

fn set_xoff_of(model: Model, r: &mut Reading, v: &[char])
    ensures
        final(r).view() == set_xoff(model, old(r).view(), v@),
{
    proof {
        reveal(set_xoff);
    }
    if let Some(x) = xoff_choice_of(v) {
        r.line.xoff = x;
    }
}

fn set_data_format_of(model: Model, r: &mut Reading, v: &[char])
    ensures
        final(r).view() == set_data_format(model, old(r).view(), v@),
{
    proof {
        reveal(set_data_format);
    }
    if let Some(n) = num_in_of(v, 0, 6) {
        let (seven, parity) = data_format_of(n);
        r.line.seven_bit_data = seven;
        r.line.parity = parity;
    }
}

fn set_stop_bits_of(model: Model, r: &mut Reading, v: &[char])
    ensures
        final(r).view() == set_stop_bits(model, old(r).view(), v@),
{
    proof {
        reveal(set_stop_bits);
    }
    if let Some(val) = two_named_of(v, "2", "1") {
        r.line.two_stop_bits = val;
    }
}

fn set_local_echo_of(model: Model, r: &mut Reading, v: &[char])
    ensures
        final(r).view() == set_local_echo(model, old(r).view(), v@),
{
    proof {
        reveal(set_local_echo);
    }
    if let Some(val) = two_named_of(v, "1", "0") {
        r.modem.local_echo = val;
    }
}

fn set_modem_control_of(model: Model, r: &mut Reading, v: &[char])
    ensures
        final(r).view() == set_modem_control(model, old(r).view(), v@),
{
    proof {
        reveal(set_modem_control);
    }
    if let Some(val) = two_named_of(v, "1", "0") {
        r.modem.modem_control = val;
    }
}

fn set_disconnect_of(model: Model, r: &mut Reading, v: &[char])
    ensures
        final(r).view() == set_disconnect(model, old(r).view(), v@),
{
    proof {
        reveal(set_disconnect);
    }
    if let Some(n) = num_in_of(v, 0, 2) {
        r.modem.disconnect = n as u8;
    }
}

fn set_limited_transmit_of(model: Model, r: &mut Reading, v: &[char])
    ensures
        final(r).view() == set_limited_transmit(model, old(r).view(), v@),
{
    proof {
        reveal(set_limited_transmit);
    }
    if let Some(val) = two_named_of(v, "1", "0") {
        r.modem.limited_transmit = val;
    }
}

fn set_auto_answerback_of(model: Model, r: &mut Reading, v: &[char])
    ensures
        final(r).view() == set_auto_answerback(model, old(r).view(), v@),
{
    proof {
        reveal(set_auto_answerback);
    }
    if let Some(val) = two_named_of(v, "1", "0") {
        r.modem.auto_answerback = val;
    }
}

fn set_answerback_of(model: Model, r: &mut Reading, v: &[char])
    ensures
        final(r).view() == set_answerback(model, old(r).view(), v@),
{
    proof {
        reveal(set_answerback);
    }
    if let Some(val) = answerback_of_chars(v) {
        r.modem.answerback = val;
    }
}

fn set_conceal_answerback_of(model: Model, r: &mut Reading, v: &[char])
    ensures
        final(r).view() == set_conceal_answerback(model, old(r).view(), v@),
{
    proof {
        reveal(set_conceal_answerback);
    }
    if let Some(val) = two_named_of(v, "1", "0") {
        r.modem.conceal_answerback = val;
    }
}

fn set_data_processing_keys_of(model: Model, r: &mut Reading, v: &[char])
    ensures
        final(r).view() == set_data_processing_keys(model, old(r).view(), v@),
{
    proof {
        reveal(set_data_processing_keys);
    }
    if let Some(val) = two_named_of(v, "1", "0") {
        r.keys.data_processing_keys = val;
    }
}

fn set_shift_lock_of(model: Model, r: &mut Reading, v: &[char])
    ensures
        final(r).view() == set_shift_lock(model, old(r).view(), v@),
{
    proof {
        reveal(set_shift_lock);
    }
    if let Some(val) = two_named_of(v, "1", "0") {
        r.keys.shift_lock = val;
    }
}

fn set_auto_repeat_of(model: Model, r: &mut Reading, v: &[char])
    ensures
        final(r).view() == set_auto_repeat(model, old(r).view(), v@),
{
    proof {
        reveal(set_auto_repeat);
    }
    if let Some(val) = two_named_of(v, "1", "0") {
        r.keys.auto_repeat = val;
    }
}

fn set_auto_repeat_rate_of(model: Model, r: &mut Reading, v: &[char])
    ensures
        final(r).view() == set_auto_repeat_rate(model, old(r).view(), v@),
{
    proof {
        reveal(set_auto_repeat_rate);
    }
    let val = if chars_equal(v, "10") { Some(10) } else if chars_equal(v, "30") { Some(30) } else { None };
    if let Some(x) = val {
        r.keys.auto_repeat_rate = x;
    }
}

fn set_keyclick_of(model: Model, r: &mut Reading, v: &[char])
    ensures
        final(r).view() == set_keyclick(model, old(r).view(), v@),
{
    proof {
        reveal(set_keyclick);
    }
    if let Some(x) = volume_from_chars(v) {
        r.keys.keyclick = x;
    }
}

fn set_margin_bell_of(model: Model, r: &mut Reading, v: &[char])
    ensures
        final(r).view() == set_margin_bell(model, old(r).view(), v@),
{
    proof {
        reveal(set_margin_bell);
    }
    if let Some(x) = volume_from_chars(v) {
        r.keys.margin_bell = x;
    }
}

fn set_warning_bell_of(model: Model, r: &mut Reading, v: &[char])
    ensures
        final(r).view() == set_warning_bell(model, old(r).view(), v@),
{
    proof {
        reveal(set_warning_bell);
    }
    if let Some(x) = volume_from_chars(v) {
        r.keys.warning_bell = x;
    }
}

fn set_position_mode_of(model: Model, r: &mut Reading, v: &[char])
    ensures
        final(r).view() == set_position_mode(model, old(r).view(), v@),
{
    proof {
        reveal(set_position_mode);
    }
    if let Some(val) = two_named_of(v, "1", "0") {
        r.keys.position_mode = val;
    }
}

fn set_backarrow_bs_of(model: Model, r: &mut Reading, v: &[char])
    ensures
        final(r).view() == set_backarrow_bs(model, old(r).view(), v@),
{
    proof {
        reveal(set_backarrow_bs);
    }
    if let Some(val) = two_named_of(v, "1", "0") {
        r.keys.backarrow_bs = val;
    }
}

fn set_compose_of(model: Model, r: &mut Reading, v: &[char])
    ensures
        final(r).view() == set_compose(model, old(r).view(), v@),
{
    proof {
        reveal(set_compose);
    }
    let val = if chars_equal(v, "report") { Some(ComposeKey::Report) } else if chars_equal(v, "ignore") { Some(ComposeKey::Ignore) } else if chars_equal(v, "local") { Some(ComposeKey::Local) } else { None };
    if let Some(x) = val {
        r.keys.compose = x;
    }
}

fn set_report_alt_of(model: Model, r: &mut Reading, v: &[char])
    ensures
        final(r).view() == set_report_alt(model, old(r).view(), v@),
{
    proof {
        reveal(set_report_alt);
    }
    if let Some(val) = two_named_of(v, "1", "0") {
        r.keys.report_alt = val;
    }
}

fn set_local_keys_of(model: Model, r: &mut Reading, v: &[char])
    ensures
        final(r).view() == set_local_keys(model, old(r).view(), v@),
{
    proof {
        reveal(set_local_keys);
    }
    let mut keys = r.layout.local_keys;
    keys_from_chars(&mut keys, v);
    let val = keys;
    r.layout.local_keys = val;
}

fn set_break_key_of(model: Model, r: &mut Reading, v: &[char])
    ensures
        final(r).view() == set_break_key(model, old(r).view(), v@),
{
    proof {
        reveal(set_break_key);
    }
    let val = if chars_equal(v, "no-break") { Some(BreakKey::NoBreak) } else if chars_equal(v, "fkey") { Some(BreakKey::FunctionKey) } else if chars_equal(v, "ignore") { Some(BreakKey::Ignore) } else if chars_equal(v, "break") { Some(BreakKey::Break) } else { None };
    if let Some(x) = val {
        r.layout.break_key = x;
    }
}

fn set_comma_period_same_of(model: Model, r: &mut Reading, v: &[char])
    ensures
        final(r).view() == set_comma_period_same(model, old(r).view(), v@),
{
    proof {
        reveal(set_comma_period_same);
    }
    if let Some(val) = two_named_of(v, "1", "0") {
        r.layout.comma_period_same = val;
    }
}

fn set_angle_sends_tilde_of(model: Model, r: &mut Reading, v: &[char])
    ensures
        final(r).view() == set_angle_sends_tilde(model, old(r).view(), v@),
{
    proof {
        reveal(set_angle_sends_tilde);
    }
    if let Some(val) = two_named_of(v, "1", "0") {
        r.layout.angle_sends_tilde = val;
    }
}

fn set_tilde_sends_escape_of(model: Model, r: &mut Reading, v: &[char])
    ensures
        final(r).view() == set_tilde_sends_escape(model, old(r).view(), v@),
{
    proof {
        reveal(set_tilde_sends_escape);
    }
    if let Some(val) = two_named_of(v, "1", "0") {
        r.layout.tilde_sends_escape = val;
    }
}

fn set_keyboard_of(model: Model, r: &mut Reading, v: &[char])
    ensures
        final(r).view() == set_keyboard(model, old(r).view(), v@),
{
    proof {
        reveal(set_keyboard);
    }
    if let Some(val) = keyboard_choice_of(v) {
        r.layout.keyboard_language = val;
    }
}

fn set_tabs_of(model: Model, r: &mut Reading, v: &[char])
    ensures
        final(r).view() == set_tabs(model, old(r).view(), v@),
{
    proof {
        reveal(set_tabs);
    }
    let val = tabs_from_chars(if r.display.columns_132 { 132 } else { 80 }, v);
    r.layout.tabs = val;
}

/// Applies `k=v` when `k` is a name of settings 1; returns whether it is.
fn apply_settings1(model: Model, r: &mut Reading, k: &[char], v: &[char]) -> (b: bool)
    ensures
        match settings1(model, old(r).view(), k@, v@) {
            Some(g) => b && final(r).view() == g,
            None => !b && final(r).view() == old(r).view(),
        },
{
    if chars_equal(k, "on-line") {
        set_on_line_of(model, r, v);
        true
    } else if chars_equal(k, "crt-saver") {
        set_crt_saver_of(model, r, v);
        true
    } else if chars_equal(k, "comm1-dec423") {
        set_comm1_dec423_of(model, r, v);
        true
    } else if chars_equal(k, "refresh-60hz") {
        set_refresh_60hz_of(model, r, v);
        true
    } else if chars_equal(k, "printer-session") {
        set_printer_session_of(model, r, v);
        true
    } else if chars_equal(k, "columns") {
        set_columns_of(model, r, v);
        true
    } else if chars_equal(k, "display-controls") {
        set_display_controls_of(model, r, v);
        true
    } else if chars_equal(k, "autowrap") {
        set_autowrap_of(model, r, v);
        true
    } else if chars_equal(k, "scroll") {
        set_scroll_of(model, r, v);
        true
    } else if chars_equal(k, "light-screen") {
        set_light_screen_of(model, r, v);
        true
    } else {
        false
    }
}

/// Applies `k=v` when `k` is a name of settings 2; returns whether it is.
fn apply_settings2(model: Model, r: &mut Reading, k: &[char], v: &[char]) -> (b: bool)
    ensures
        match settings2(model, old(r).view(), k@, v@) {
            Some(g) => b && final(r).view() == g,
            None => !b && final(r).view() == old(r).view(),
        },
{
    if chars_equal(k, "cursor") {
        set_cursor_of(model, r, v);
        true
    } else if chars_equal(k, "cursor-style") {
        set_cursor_style_of(model, r, v);
        true
    } else if chars_equal(k, "status") {
        set_status_of(model, r, v);
        true
    } else if chars_equal(k, "page-length") {
        set_page_length_of(model, r, v);
        true
    } else if chars_equal(k, "screen-lines") {
        set_screen_lines_of(model, r, v);
        true
    } else if chars_equal(k, "vertical-coupling") {
        set_vertical_coupling_of(model, r, v);
        true
    } else if chars_equal(k, "page-coupling") {
        set_page_coupling_of(model, r, v);
        true
    } else if chars_equal(k, "auto-resize") {
        set_auto_resize_of(model, r, v);
        true
    } else if chars_equal(k, "clear-on-column-change") {
        set_clear_on_column_change_of(model, r, v);
        true
    } else if chars_equal(k, "zero-style") {
        set_zero_style_of(model, r, v);
        true
    } else {
        false
    }
}

/// Applies `k=v` when `k` is a name of settings 3; returns whether it is.
fn apply_settings3(model: Model, r: &mut Reading, k: &[char], v: &[char]) -> (b: bool)
    ensures
        match settings3(model, old(r).view(), k@, v@) {
            Some(g) => b && final(r).view() == g,
            None => !b && final(r).view() == old(r).view(),
        },
{
    if chars_equal(k, "crt-saver-minutes") {
        set_crt_saver_minutes_of(model, r, v);
        true
    } else if chars_equal(k, "energy-saver-minutes") {
        set_energy_saver_minutes_of(model, r, v);
        true
    } else if chars_equal(k, "host-wake-up") {
        set_host_wake_up_of(model, r, v);
        true
    } else if chars_equal(k, "overscan") {
        set_overscan_of(model, r, v);
        true
    } else if chars_equal(k, "terminal-mode") {
        set_terminal_mode_of(model, r, v);
        true
    } else if chars_equal(k, "udk-locked") {
        set_udk_locked_of(model, r, v);
        true
    } else if chars_equal(k, "user-features-locked") {
        set_user_features_locked_of(model, r, v);
        true
    } else if chars_equal(k, "national") {
        set_national_of(model, r, v);
        true
    } else if chars_equal(k, "new-line") {
        set_new_line_of(model, r, v);
        true
    } else if chars_equal(k, "upss") {
        set_upss_of(model, r, v);
        true
    } else {
        false
    }
}

/// Applies `k=v` when `k` is a name of settings 4; returns whether it is.
fn apply_settings4(model: Model, r: &mut Reading, k: &[char], v: &[char]) -> (b: bool)
    ensures
        match settings4(model, old(r).view(), k@, v@) {
            Some(g) => b && final(r).view() == g,
            None => !b && final(r).view() == old(r).view(),
        },
{
    if chars_equal(k, "terminal-id") {
        set_terminal_id_of(model, r, v);
        true
    } else if chars_equal(k, "update") {
        set_update_of(model, r, v);
        true
    } else if chars_equal(k, "transmit-speed") {
        set_transmit_speed_of(model, r, v);
        true
    } else if chars_equal(k, "receive-speed") {
        set_receive_speed_of(model, r, v);
        true
    } else if chars_equal(k, "modem-high-speed") {
        set_modem_high_speed_of(model, r, v);
        true
    } else if chars_equal(k, "modem-low-speed") {
        set_modem_low_speed_of(model, r, v);
        true
    } else if chars_equal(k, "transmit-flow") {
        set_transmit_flow_of(model, r, v);
        true
    } else if chars_equal(k, "receive-flow") {
        set_receive_flow_of(model, r, v);
        true
    } else if chars_equal(k, "flow-threshold-high") {
        set_flow_threshold_high_of(model, r, v);
        true
    } else if chars_equal(k, "transmit-rate") {
        set_transmit_rate_of(model, r, v);
        true
    } else {
        false
    }
}

/// Applies `k=v` when `k` is a name of settings 5; returns whether it is.
fn apply_settings5(model: Model, r: &mut Reading, k: &[char], v: &[char]) -> (b: bool)
    ensures
        match settings5(model, old(r).view(), k@, v@) {
            Some(g) => b && final(r).view() == g,
            None => !b && final(r).view() == old(r).view(),
        },
{
    if chars_equal(k, "fkey-rate") {
        set_fkey_rate_of(model, r, v);
        true
    } else if chars_equal(k, "ignore-null") {
        set_ignore_null_of(model, r, v);
        true
    } else if chars_equal(k, "half-duplex") {
        set_half_duplex_of(model, r, v);
        true
    } else if chars_equal(k, "word-size") {
        set_word_size_of(model, r, v);
        true
    } else if chars_equal(k, "parity") {
        set_parity_of(model, r, v);
        true
    } else if chars_equal(k, "xoff") {
        set_xoff_of(model, r, v);
        true
    } else if chars_equal(k, "data-format") {
        set_data_format_of(model, r, v);
        true
    } else if chars_equal(k, "stop-bits") {
        set_stop_bits_of(model, r, v);
        true
    } else if chars_equal(k, "local-echo") {
        set_local_echo_of(model, r, v);
        true
    } else if chars_equal(k, "modem-control") {
        set_modem_control_of(model, r, v);
        true
    } else {
        false
    }
}

/// Applies `k=v` when `k` is a name of settings 6; returns whether it is.
fn apply_settings6(model: Model, r: &mut Reading, k: &[char], v: &[char]) -> (b: bool)
    ensures
        match settings6(model, old(r).view(), k@, v@) {
            Some(g) => b && final(r).view() == g,
            None => !b && final(r).view() == old(r).view(),
        },
{
    if chars_equal(k, "disconnect") {
        set_disconnect_of(model, r, v);
        true
    } else if chars_equal(k, "limited-transmit") {
        set_limited_transmit_of(model, r, v);
        true
    } else if chars_equal(k, "auto-answerback") {
        set_auto_answerback_of(model, r, v);
        true
    } else if chars_equal(k, "answerback") {
        set_answerback_of(model, r, v);
        true
    } else if chars_equal(k, "conceal-answerback") {
        set_conceal_answerback_of(model, r, v);
        true
    } else if chars_equal(k, "data-processing-keys") {
        set_data_processing_keys_of(model, r, v);
        true
    } else if chars_equal(k, "shift-lock") {
        set_shift_lock_of(model, r, v);
        true
    } else if chars_equal(k, "auto-repeat") {
        set_auto_repeat_of(model, r, v);
        true
    } else if chars_equal(k, "auto-repeat-rate") {
        set_auto_repeat_rate_of(model, r, v);
        true
    } else if chars_equal(k, "keyclick") {
        set_keyclick_of(model, r, v);
        true
    } else {
        false
    }
}

/// Applies `k=v` when `k` is a name of settings 7; returns whether it is.
fn apply_settings7(model: Model, r: &mut Reading, k: &[char], v: &[char]) -> (b: bool)
    ensures
        match settings7(model, old(r).view(), k@, v@) {
            Some(g) => b && final(r).view() == g,
            None => !b && final(r).view() == old(r).view(),
        },
{
    if chars_equal(k, "margin-bell") {
        set_margin_bell_of(model, r, v);
        true
    } else if chars_equal(k, "warning-bell") {
        set_warning_bell_of(model, r, v);
        true
    } else if chars_equal(k, "position-mode") {
        set_position_mode_of(model, r, v);
        true
    } else if chars_equal(k, "backarrow-bs") {
        set_backarrow_bs_of(model, r, v);
        true
    } else if chars_equal(k, "compose") {
        set_compose_of(model, r, v);
        true
    } else if chars_equal(k, "report-alt") {
        set_report_alt_of(model, r, v);
        true
    } else if chars_equal(k, "local-keys") {
        set_local_keys_of(model, r, v);
        true
    } else if chars_equal(k, "break-key") {
        set_break_key_of(model, r, v);
        true
    } else if chars_equal(k, "comma-period-same") {
        set_comma_period_same_of(model, r, v);
        true
    } else if chars_equal(k, "angle-sends-tilde") {
        set_angle_sends_tilde_of(model, r, v);
        true
    } else {
        false
    }
}

/// Applies `k=v` when `k` is a name of settings 8; returns whether it is.
fn apply_settings8(model: Model, r: &mut Reading, k: &[char], v: &[char]) -> (b: bool)
    ensures
        match settings8(model, old(r).view(), k@, v@) {
            Some(g) => b && final(r).view() == g,
            None => !b && final(r).view() == old(r).view(),
        },
{
    if chars_equal(k, "tilde-sends-escape") {
        set_tilde_sends_escape_of(model, r, v);
        true
    } else if chars_equal(k, "keyboard") {
        set_keyboard_of(model, r, v);
        true
    } else if chars_equal(k, "tabs") {
        set_tabs_of(model, r, v);
        true
    } else {
        false
    }
}

fn apply_setting_of(model: Model, r: &mut Reading, k: &[char], v: &[char])
    ensures
        final(r).view() == apply_setting(model, old(r).view(), k@, v@),
{
    proof {
        reveal(apply_setting);
    }
    if apply_settings1(model, r, k, v) {
        return;
    }
    if apply_settings2(model, r, k, v) {
        return;
    }
    if apply_settings3(model, r, k, v) {
        return;
    }
    if apply_settings4(model, r, k, v) {
        return;
    }
    if apply_settings5(model, r, k, v) {
        return;
    }
    if apply_settings6(model, r, k, v) {
        return;
    }
    if apply_settings7(model, r, k, v) {
        return;
    }
    if apply_settings8(model, r, k, v) {
        return;
    }
}

impl Features {
    /// Reads [`Features::to_text`] output over the factory settings of
    /// `model`. Unknown names and bad values are ignored: a value that is
    /// not one the setting can hold (for this model) leaves the setting as
    /// it was.
    pub fn from_text(model: Model, text: &str) -> (r: Features)
        ensures
            r@ == features_from_text(model, text@),
    {
        let mut rd = reading_of(Features::factory(model));
        let t = str_chars(text);
        let n = t.len();
        let mut pos: usize = 0;
        assert(t@.subrange(0, n as int) =~= t@);
        while pos < n
            invariant
                pos <= n,
                n == t@.len(),
                t@ == text@,
                features_from_text(model, text@) == settle(
                    apply_lines(model, rd.view(), text_lines(t@.subrange(pos as int, n as int))),
                ),
            decreases n - pos,
        {
            let next = read_line(model, &mut rd, t.as_slice(), pos);
            pos = next;
        }
        assert(text_lines(t@.subrange(pos as int, n as int)) =~= Seq::<Seq<char>>::empty());
        if rd.layout.keyboard_language.is_none() {
            rd.general.national = false;
        }
        features_of(rd)
    }
}

/// Applies the line of `t` that starts at `pos`; returns where the next
/// line starts.
fn read_line(model: Model, rd: &mut Reading, t: &[char], pos: usize) -> (next: usize)
    requires
        pos < t@.len(),
    ensures
        pos < next <= t@.len(),
        apply_lines(model, old(rd).view(), text_lines(t@.subrange(pos as int, t@.len() as int))) == apply_lines(
            model,
            final(rd).view(),
            text_lines(t@.subrange(next as int, t@.len() as int)),
        ),
{
    let n = t.len();
    let ghost rest = t@.subrange(pos as int, n as int);
    proof {
        lemma_find_c(rest, '\n');
    }
    let line: Vec<char>;
    let next: usize;
    match find_char_from(t, '\n', pos) {
        Some(j) => {
            assert(j < t.len());
            let raw = chars_slice(t, pos, j);
            proof {
                assert(raw@ =~= rest.subrange(0, j - pos));
                assert(rest.subrange(j - pos + 1, rest.len() as int) =~= t@.subrange(j + 1, n as int));
            }
            line = if raw.len() > 0 && raw[raw.len() - 1] == '\r' {
                let l = chars_slice(raw.as_slice(), 0, raw.len() - 1);
                assert(l@ =~= raw@.drop_last());
                l
            } else {
                raw
            };
            next = j + 1;
        },
        None => {
            line = chars_slice(t, pos, n);
            assert(line@ =~= rest);
            assert(t@.subrange(n as int, n as int) =~= Seq::<char>::empty());
            next = n;
        },
    }
    proof {
        let ls = text_lines(rest);
        assert(ls[0] == line@);
        assert(ls.drop_first() =~= text_lines(t@.subrange(next as int, n as int)));
    }
    apply_line_of(model, rd, line.as_slice());
    next
}

fn apply_line_of(model: Model, rd: &mut Reading, l: &[char])
    ensures
        final(rd).view() == apply_line(model, old(rd).view(), l@),
{
    proof {
        lemma_find_c(l@, '=');
    }
    match find_char_from(l, '=', 0) {
        None => {
            assert(l@.subrange(0, l@.len() as int) =~= l@);
        },
        Some(i) => {
            assert(l@.subrange(0, l@.len() as int) =~= l@);
            assert(i < l.len());
            let k = chars_slice(l, 0, i);
            let key = trim_chars(k.as_slice());
            let v = chars_slice(l, i + 1, l.len());
            apply_setting_of(model, rd, key.as_slice(), v.as_slice());
        },
    }
}

} // verus!
