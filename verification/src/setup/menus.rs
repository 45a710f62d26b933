//! The VT500-series menu Set-Up (EK-VT520-RM chapter 2), used for the VT510,
//! VT520 and VT525 models: pull-right menus from a main menu, check boxes
//! and radio buttons for the settings, dialog boxes for the answerback
//! message and tab stops, and a Set-Up summary line in place of the status
//! line. Features the terminal model does not have are dimmed (table 2-2).

use vstd::prelude::*;
use crate::charset::Nrc;
use crate::config::{max_level, Model, StatusDisplay, Supplemental};
use crate::setup::{
    default_tabs, default_tabs_spec, Action, ComposeKey, Features, FeaturesView, GlobalView, DisplayView, ScreenView,
    GeneralView, LineView, ModemView, KeysView, LayoutView, Input, Outcome, Parity, Scroll, TerminalMode, Volume,
};
use crate::setup::screens::{goto_text, printable, printable_of, push_goto, utf8_of, utf8_text, add_typed, auto_screen_lines, auto_screen_lines_spec, typed_text};
use crate::setup::read::{features_of, reading_of, Reading};
use crate::terminal::CursorStyle;
use vstd::seq_lib::lemma_concat_associative;
use crate::text::{dec, push_dec, push_str, str_chars, string_from};

verus! {

/// A yes/no feature a check box toggles.
#[derive(Debug, Clone, Copy, PartialEq, Eq, Structural)]
pub enum Flag {
    OnLine,
    Autowrap,
    NewLine,
    UserFeaturesLocked,
    DisplayControls,
    AutoResize,
    ClearOnColumnChange,
    HostWakeUp,
    Overscan,
    Cursor,
    VerticalCoupling,
    PageCoupling,
    National,
    UdkLocked,
    DataProcessingKeys,
    CursorKeysApplication,
    KeypadApplication,
    IgnoreNull,
    LocalEcho,
    HalfDuplex,
    AutoAnswerback,
    ModemControl,
}

/// The value of a yes/no feature.
pub open spec fn flag_value(f: FeaturesView, flag: Flag) -> bool {
    match flag {
        Flag::OnLine => f.global.on_line,
        Flag::Autowrap => f.display.autowrap,
        Flag::NewLine => f.general.new_line,
        Flag::UserFeaturesLocked => f.general.user_features_locked,
        Flag::DisplayControls => f.display.display_controls,
        Flag::AutoResize => f.screen.auto_resize,
        Flag::ClearOnColumnChange => f.screen.clear_on_column_change,
        Flag::HostWakeUp => f.screen.host_wake_up,
        Flag::Overscan => f.screen.overscan,
        Flag::Cursor => f.display.cursor,
        Flag::VerticalCoupling => f.screen.vertical_coupling,
        Flag::PageCoupling => f.screen.page_coupling,
        Flag::National => f.general.national,
        Flag::UdkLocked => f.general.udk_locked,
        Flag::DataProcessingKeys => f.keys.data_processing_keys,
        Flag::CursorKeysApplication => f.general.cursor_keys_application,
        Flag::KeypadApplication => f.general.keypad_application,
        Flag::IgnoreNull => f.modem.ignore_null,
        Flag::LocalEcho => f.modem.local_echo,
        Flag::HalfDuplex => f.modem.half_duplex,
        Flag::AutoAnswerback => f.modem.auto_answerback,
        Flag::ModemControl => f.modem.modem_control,
    }
}

/// The features with a yes/no feature flipped.
pub open spec fn flag_flipped(f: FeaturesView, flag: Flag) -> FeaturesView {
    match flag {
        Flag::OnLine => FeaturesView { global: GlobalView { on_line: !f.global.on_line, ..f.global }, ..f },
        Flag::Autowrap => FeaturesView { display: DisplayView { autowrap: !f.display.autowrap, ..f.display }, ..f },
        Flag::NewLine => FeaturesView { general: GeneralView { new_line: !f.general.new_line, ..f.general }, ..f },
        Flag::UserFeaturesLocked => FeaturesView { general: GeneralView { user_features_locked: !f.general.user_features_locked, ..f.general }, ..f },
        Flag::DisplayControls => FeaturesView { display: DisplayView { display_controls: !f.display.display_controls, ..f.display }, ..f },
        Flag::AutoResize => FeaturesView { screen: ScreenView { auto_resize: !f.screen.auto_resize, ..f.screen }, ..f },
        Flag::ClearOnColumnChange => FeaturesView { screen: ScreenView { clear_on_column_change: !f.screen.clear_on_column_change, ..f.screen }, ..f },
        Flag::HostWakeUp => FeaturesView { screen: ScreenView { host_wake_up: !f.screen.host_wake_up, ..f.screen }, ..f },
        Flag::Overscan => FeaturesView { screen: ScreenView { overscan: !f.screen.overscan, ..f.screen }, ..f },
        Flag::Cursor => FeaturesView { display: DisplayView { cursor: !f.display.cursor, ..f.display }, ..f },
        Flag::VerticalCoupling => FeaturesView { screen: ScreenView { vertical_coupling: !f.screen.vertical_coupling, ..f.screen }, ..f },
        Flag::PageCoupling => FeaturesView { screen: ScreenView { page_coupling: !f.screen.page_coupling, ..f.screen }, ..f },
        Flag::National => FeaturesView { general: GeneralView { national: !f.general.national, ..f.general }, ..f },
        Flag::UdkLocked => FeaturesView { general: GeneralView { udk_locked: !f.general.udk_locked, ..f.general }, ..f },
        Flag::DataProcessingKeys => FeaturesView { keys: KeysView { data_processing_keys: !f.keys.data_processing_keys, ..f.keys }, ..f },
        Flag::CursorKeysApplication => FeaturesView { general: GeneralView { cursor_keys_application: !f.general.cursor_keys_application, ..f.general }, ..f },
        Flag::KeypadApplication => FeaturesView { general: GeneralView { keypad_application: !f.general.keypad_application, ..f.general }, ..f },
        Flag::IgnoreNull => FeaturesView { modem: ModemView { ignore_null: !f.modem.ignore_null, ..f.modem }, ..f },
        Flag::LocalEcho => FeaturesView { modem: ModemView { local_echo: !f.modem.local_echo, ..f.modem }, ..f },
        Flag::HalfDuplex => FeaturesView { modem: ModemView { half_duplex: !f.modem.half_duplex, ..f.modem }, ..f },
        Flag::AutoAnswerback => FeaturesView { modem: ModemView { auto_answerback: !f.modem.auto_answerback, ..f.modem }, ..f },
        Flag::ModemControl => FeaturesView { modem: ModemView { modem_control: !f.modem.modem_control, ..f.modem }, ..f },
    }
}


/// The cursor style with a block or underline shape and blinking or not.
pub open spec fn style_of(block: bool, blink: bool) -> CursorStyle {
    if block {
        if blink { CursorStyle::BlinkingBlock } else { CursorStyle::SteadyBlock }
    } else {
        if blink { CursorStyle::BlinkingUnderline } else { CursorStyle::SteadyUnderline }
    }
}

pub open spec fn style_is_block(s: CursorStyle) -> bool {
    s == CursorStyle::BlinkingBlock || s == CursorStyle::SteadyBlock
}

pub open spec fn style_blinks(s: CursorStyle) -> bool {
    s == CursorStyle::BlinkingBlock || s == CursorStyle::BlinkingUnderline
}

fn cursor_style(block: bool, blink: bool) -> (r: CursorStyle)
    ensures
        r == style_of(block, blink),
{
    match (block, blink) {
        (true, true) => CursorStyle::BlinkingBlock,
        (true, false) => CursorStyle::SteadyBlock,
        (false, true) => CursorStyle::BlinkingUnderline,
        (false, false) => CursorStyle::SteadyUnderline,
    }
}

/// The tab stops of a line `cols` wide: the old ones where the old line
/// had them, none past its end.
pub open spec fn tabs_resized(old: Seq<bool>, cols: nat) -> Seq<bool> {
    Seq::new(cols, |c: int| if c < old.len() { old[c] } else { false })
}

/// The operating level after choosing `m` in the emulation menu: a level
/// keeps the 7-bit or 8-bit controls of the current level.
pub open spec fn emulation_chosen(m: TerminalMode, cur: TerminalMode) -> TerminalMode {
    match (m, cur) {
        (TerminalMode::Level { level, .. }, TerminalMode::Level { eight_bit, .. }) => TerminalMode::Level { level, eight_bit },
        _ => m,
    }
}

/// The operating level with 7-bit and 8-bit controls swapped.
pub open spec fn controls_flipped(cur: TerminalMode) -> TerminalMode {
    match cur {
        TerminalMode::Level { level, eight_bit } => TerminalMode::Level { level, eight_bit: !eight_bit },
        m => m,
    }
}

/// The operating level's number; 1 below VT200 mode.
pub open spec fn mode_level(m: TerminalMode) -> u8 {
    match m {
        TerminalMode::Level { level, .. } => level,
        _ => 1,
    }
}

/// Whether the operating level sends 8-bit controls.
pub open spec fn eight_bit_controls(m: TerminalMode) -> bool {
    match m {
        TerminalMode::Level { eight_bit, .. } => eight_bit,
        _ => false,
    }
}

fn mode_level_of(m: TerminalMode) -> (r: u8)
    ensures
        r == mode_level(m),
{
    match m {
        TerminalMode::Level { level, .. } => level,
        _ => 1,
    }
}

fn eight_bit_of(m: TerminalMode) -> (r: bool)
    ensures
        r == eight_bit_controls(m),
{
    match m {
        TerminalMode::Level { eight_bit, .. } => eight_bit,
        _ => false,
    }
}

/// What choosing a check box or radio button sets.
#[derive(Debug, Clone, Copy, PartialEq, Eq, Structural)]
pub enum MenuSetting {
    /// Flips a yes/no feature.
    Toggle(Flag),
    /// Changes nothing (a choice that is already the only one).
    Nothing,
    Columns(bool),
    ScreenLines(usize),
    PageLength(usize),
    Status(StatusDisplay),
    Scroll(Scroll),
    LightScreen(bool),
    /// Block (true) or underline cursor, blinking as before.
    CursorShape(bool),
    CursorBlink,
    ZeroStyle(u8),
    /// CRT saver after these minutes; 0 turns it off.
    CrtSaver(u16),
    EnergySaver(u16),
    /// Swaps 7-bit and 8-bit controls.
    SevenBitControls,
    Emulation(TerminalMode),
    TerminalId(u16),
    Upss(Supplemental),
    Keyboard(Option<Nrc>),
    ShiftLock(bool),
    Keyclick(Volume),
    WarningBell(Volume),
    MarginBell(Volume),
    PositionMode(bool),
    /// Auto repeat at this rate, or off.
    AutoRepeat(Option<u8>),
    SevenBitData(bool),
    Parity(Parity),
    TwoStopBits(bool),
    TransmitSpeed(u32),
    ReceiveSpeed(Option<u32>),
    TransmitFlow(u8),
    ReceiveFlow(u8),
    ThresholdHigh(bool),
    /// A transmit rate limit; 0 is none.
    TransmitRate(u8),
    FkeyRate(u8),
    Disconnect(u8),
    ModemHigh(Option<u32>),
    ModemLow(Option<u32>),
    Update(u16),
    /// Conceals the answerback message (only a new message reveals it).
    ConcealAnswerback,
}

/// The features after a setting is chosen.
pub open spec fn setting_applied(f: FeaturesView, s: MenuSetting) -> FeaturesView {
    match s {
        MenuSetting::Toggle(flag) => flag_flipped(f, flag),
        MenuSetting::Nothing => f,
        MenuSetting::Columns(wide) => if f.display.columns_132 != wide { FeaturesView { display: DisplayView { columns_132: wide, ..f.display }, layout: LayoutView { tabs: tabs_resized(f.layout.tabs, if wide { 132 } else { 80 }), ..f.layout }, ..f } } else { f },
        MenuSetting::ScreenLines(n) => FeaturesView { screen: ScreenView { screen_lines: n, ..f.screen }, display: DisplayView { page_length: if f.display.page_length >= n { f.display.page_length } else { n }, ..f.display }, ..f },
        MenuSetting::PageLength(n) => FeaturesView { display: DisplayView { page_length: n, ..f.display }, screen: ScreenView { screen_lines: if f.screen.screen_lines <= auto_screen_lines_spec(n) { f.screen.screen_lines } else { auto_screen_lines_spec(n) }, ..f.screen }, ..f },
        MenuSetting::Status(s) => FeaturesView { display: DisplayView { status: s, ..f.display }, ..f },
        MenuSetting::Scroll(s) => FeaturesView { display: DisplayView { scroll: s, ..f.display }, ..f },
        MenuSetting::LightScreen(b) => FeaturesView { display: DisplayView { light_screen: b, ..f.display }, ..f },
        MenuSetting::CursorShape(b) => FeaturesView { display: DisplayView { cursor_style: style_of(b, style_blinks(f.display.cursor_style)), ..f.display }, ..f },
        MenuSetting::CursorBlink => FeaturesView { display: DisplayView { cursor_style: style_of(style_is_block(f.display.cursor_style), !style_blinks(f.display.cursor_style)), ..f.display }, ..f },
        MenuSetting::ZeroStyle(z) => FeaturesView { screen: ScreenView { zero_style: z, ..f.screen }, ..f },
        MenuSetting::CrtSaver(m) => if m > 0 { FeaturesView { global: GlobalView { crt_saver: true, ..f.global }, screen: ScreenView { crt_saver_minutes: m, ..f.screen }, ..f } } else { FeaturesView { global: GlobalView { crt_saver: false, ..f.global }, ..f } },
        MenuSetting::EnergySaver(m) => FeaturesView { screen: ScreenView { energy_saver_minutes: m, ..f.screen }, ..f },
        MenuSetting::SevenBitControls => FeaturesView { general: GeneralView { terminal_mode: controls_flipped(f.general.terminal_mode), ..f.general }, ..f },
        MenuSetting::Emulation(m) => FeaturesView { general: GeneralView { terminal_mode: emulation_chosen(m, f.general.terminal_mode), ..f.general }, ..f },
        MenuSetting::TerminalId(id) => FeaturesView { general: GeneralView { terminal_id: id, ..f.general }, ..f },
        MenuSetting::Upss(u) => FeaturesView { general: GeneralView { upss: u, ..f.general }, ..f },
        MenuSetting::Keyboard(k) => FeaturesView { layout: LayoutView { keyboard_language: k, ..f.layout }, general: GeneralView { national: f.general.national && k is Some, ..f.general }, ..f },
        MenuSetting::ShiftLock(b) => FeaturesView { keys: KeysView { shift_lock: b, ..f.keys }, ..f },
        MenuSetting::Keyclick(v) => FeaturesView { keys: KeysView { keyclick: v, ..f.keys }, ..f },
        MenuSetting::WarningBell(v) => FeaturesView { keys: KeysView { warning_bell: v, ..f.keys }, ..f },
        MenuSetting::MarginBell(v) => FeaturesView { keys: KeysView { margin_bell: v, ..f.keys }, ..f },
        MenuSetting::PositionMode(b) => FeaturesView { keys: KeysView { position_mode: b, ..f.keys }, ..f },
        MenuSetting::AutoRepeat(rate) => match rate { Some(r) => FeaturesView { keys: KeysView { auto_repeat: true, auto_repeat_rate: r, ..f.keys }, ..f }, None => FeaturesView { keys: KeysView { auto_repeat: false, ..f.keys }, ..f } },
        MenuSetting::SevenBitData(b) => FeaturesView { line: LineView { seven_bit_data: b, ..f.line }, ..f },
        MenuSetting::Parity(p) => FeaturesView { line: LineView { parity: p, ..f.line }, ..f },
        MenuSetting::TwoStopBits(b) => FeaturesView { line: LineView { two_stop_bits: b, ..f.line }, ..f },
        MenuSetting::TransmitSpeed(s) => FeaturesView { line: LineView { transmit_speed: s, ..f.line }, ..f },
        MenuSetting::ReceiveSpeed(s) => FeaturesView { line: LineView { receive_speed: s, ..f.line }, ..f },
        MenuSetting::TransmitFlow(v) => FeaturesView { line: LineView { transmit_flow: v, ..f.line }, ..f },
        MenuSetting::ReceiveFlow(v) => FeaturesView { line: LineView { receive_flow: v, ..f.line }, ..f },
        MenuSetting::ThresholdHigh(b) => FeaturesView { line: LineView { flow_threshold_high: b, ..f.line }, ..f },
        MenuSetting::TransmitRate(v) => if v == 0 { FeaturesView { modem: ModemView { limited_transmit: false, ..f.modem }, ..f } } else { FeaturesView { modem: ModemView { limited_transmit: true, ..f.modem }, line: LineView { transmit_rate: v, ..f.line }, ..f } },
        MenuSetting::FkeyRate(v) => FeaturesView { line: LineView { fkey_rate: v, ..f.line }, ..f },
        MenuSetting::Disconnect(v) => FeaturesView { modem: ModemView { disconnect: v, ..f.modem }, ..f },
        MenuSetting::ModemHigh(s) => FeaturesView { modem: ModemView { modem_high_speed: s, ..f.modem }, ..f },
        MenuSetting::ModemLow(s) => FeaturesView { modem: ModemView { modem_low_speed: s, ..f.modem }, ..f },
        MenuSetting::Update(u) => FeaturesView { general: GeneralView { update: u, ..f.general }, ..f },
        MenuSetting::ConcealAnswerback => FeaturesView { modem: ModemView { conceal_answerback: true, ..f.modem }, ..f },
    }
}

/// Switches between 80 and 132 columns; the tab stops follow the width.
fn switch_columns(rd: &mut Reading, wide: bool)
    ensures
        final(rd).view() == setting_applied(old(rd).view(), MenuSetting::Columns(wide)),
{
    if rd.display.columns_132 != wide {
        rd.display.columns_132 = wide;
        let cols: usize = if wide { 132 } else { 80 };
        let ghost old_tabs = rd.layout.tabs@;
        let mut tabs: Vec<bool> = Vec::new();
        let mut i: usize = 0;
        while i < cols
            invariant
                i <= cols,
                tabs@ =~= tabs_resized(old_tabs, cols as nat).take(i as int),
                rd.layout.tabs@ == old_tabs,
            decreases cols - i,
        {
            let t = if i < rd.layout.tabs.len() { rd.layout.tabs[i] } else { false };
            tabs.push(t);
            i = i + 1;
            assert(tabs@ =~= tabs_resized(old_tabs, cols as nat).take(i as int));
        }
        rd.layout.tabs = tabs;
        assert(rd.layout.tabs@ =~= tabs_resized(old_tabs, cols as nat));
    }
}

/// A yes/no feature flipped, while the features are held by screen.
fn flip_on_line(rd: Reading) -> (r: Reading)
    ensures
        r.view() == flag_flipped(rd.view(), Flag::OnLine),
{
    let mut rd = rd;
    rd.global.on_line = !rd.global.on_line;
    rd
}

fn flip_autowrap(rd: Reading) -> (r: Reading)
    ensures
        r.view() == flag_flipped(rd.view(), Flag::Autowrap),
{
    let mut rd = rd;
    rd.display.autowrap = !rd.display.autowrap;
    rd
}

fn flip_new_line(rd: Reading) -> (r: Reading)
    ensures
        r.view() == flag_flipped(rd.view(), Flag::NewLine),
{
    let mut rd = rd;
    rd.general.new_line = !rd.general.new_line;
    rd
}

fn flip_user_features_locked(rd: Reading) -> (r: Reading)
    ensures
        r.view() == flag_flipped(rd.view(), Flag::UserFeaturesLocked),
{
    let mut rd = rd;
    rd.general.user_features_locked = !rd.general.user_features_locked;
    rd
}

fn flip_display_controls(rd: Reading) -> (r: Reading)
    ensures
        r.view() == flag_flipped(rd.view(), Flag::DisplayControls),
{
    let mut rd = rd;
    rd.display.display_controls = !rd.display.display_controls;
    rd
}

fn flip_auto_resize(rd: Reading) -> (r: Reading)
    ensures
        r.view() == flag_flipped(rd.view(), Flag::AutoResize),
{
    let mut rd = rd;
    rd.screen.auto_resize = !rd.screen.auto_resize;
    rd
}

fn flip_clear_on_column_change(rd: Reading) -> (r: Reading)
    ensures
        r.view() == flag_flipped(rd.view(), Flag::ClearOnColumnChange),
{
    let mut rd = rd;
    rd.screen.clear_on_column_change = !rd.screen.clear_on_column_change;
    rd
}

fn flip_host_wake_up(rd: Reading) -> (r: Reading)
    ensures
        r.view() == flag_flipped(rd.view(), Flag::HostWakeUp),
{
    let mut rd = rd;
    rd.screen.host_wake_up = !rd.screen.host_wake_up;
    rd
}

fn flip_overscan(rd: Reading) -> (r: Reading)
    ensures
        r.view() == flag_flipped(rd.view(), Flag::Overscan),
{
    let mut rd = rd;
    rd.screen.overscan = !rd.screen.overscan;
    rd
}

fn flip_cursor(rd: Reading) -> (r: Reading)
    ensures
        r.view() == flag_flipped(rd.view(), Flag::Cursor),
{
    let mut rd = rd;
    rd.display.cursor = !rd.display.cursor;
    rd
}

fn flip_vertical_coupling(rd: Reading) -> (r: Reading)
    ensures
        r.view() == flag_flipped(rd.view(), Flag::VerticalCoupling),
{
    let mut rd = rd;
    rd.screen.vertical_coupling = !rd.screen.vertical_coupling;
    rd
}

fn flip_page_coupling(rd: Reading) -> (r: Reading)
    ensures
        r.view() == flag_flipped(rd.view(), Flag::PageCoupling),
{
    let mut rd = rd;
    rd.screen.page_coupling = !rd.screen.page_coupling;
    rd
}

fn flip_national(rd: Reading) -> (r: Reading)
    ensures
        r.view() == flag_flipped(rd.view(), Flag::National),
{
    let mut rd = rd;
    rd.general.national = !rd.general.national;
    rd
}

fn flip_udk_locked(rd: Reading) -> (r: Reading)
    ensures
        r.view() == flag_flipped(rd.view(), Flag::UdkLocked),
{
    let mut rd = rd;
    rd.general.udk_locked = !rd.general.udk_locked;
    rd
}

fn flip_data_processing_keys(rd: Reading) -> (r: Reading)
    ensures
        r.view() == flag_flipped(rd.view(), Flag::DataProcessingKeys),
{
    let mut rd = rd;
    rd.keys.data_processing_keys = !rd.keys.data_processing_keys;
    rd
}

fn flip_cursor_keys_application(rd: Reading) -> (r: Reading)
    ensures
        r.view() == flag_flipped(rd.view(), Flag::CursorKeysApplication),
{
    let mut rd = rd;
    rd.general.cursor_keys_application = !rd.general.cursor_keys_application;
    rd
}

fn flip_keypad_application(rd: Reading) -> (r: Reading)
    ensures
        r.view() == flag_flipped(rd.view(), Flag::KeypadApplication),
{
    let mut rd = rd;
    rd.general.keypad_application = !rd.general.keypad_application;
    rd
}

fn flip_ignore_null(rd: Reading) -> (r: Reading)
    ensures
        r.view() == flag_flipped(rd.view(), Flag::IgnoreNull),
{
    let mut rd = rd;
    rd.modem.ignore_null = !rd.modem.ignore_null;
    rd
}

fn flip_local_echo(rd: Reading) -> (r: Reading)
    ensures
        r.view() == flag_flipped(rd.view(), Flag::LocalEcho),
{
    let mut rd = rd;
    rd.modem.local_echo = !rd.modem.local_echo;
    rd
}

fn flip_half_duplex(rd: Reading) -> (r: Reading)
    ensures
        r.view() == flag_flipped(rd.view(), Flag::HalfDuplex),
{
    let mut rd = rd;
    rd.modem.half_duplex = !rd.modem.half_duplex;
    rd
}

fn flip_auto_answerback(rd: Reading) -> (r: Reading)
    ensures
        r.view() == flag_flipped(rd.view(), Flag::AutoAnswerback),
{
    let mut rd = rd;
    rd.modem.auto_answerback = !rd.modem.auto_answerback;
    rd
}

fn flip_modem_control(rd: Reading) -> (r: Reading)
    ensures
        r.view() == flag_flipped(rd.view(), Flag::ModemControl),
{
    let mut rd = rd;
    rd.modem.modem_control = !rd.modem.modem_control;
    rd
}

pub open spec fn flag_group(flag: Flag) -> int {
    match flag {
        Flag::OnLine => 0,
        Flag::Autowrap => 0,
        Flag::NewLine => 0,
        Flag::UserFeaturesLocked => 0,
        Flag::DisplayControls => 0,
        Flag::AutoResize => 0,
        Flag::ClearOnColumnChange => 0,
        Flag::HostWakeUp => 0,
        Flag::Overscan => 1,
        Flag::Cursor => 1,
        Flag::VerticalCoupling => 1,
        Flag::PageCoupling => 1,
        Flag::National => 1,
        Flag::UdkLocked => 1,
        Flag::DataProcessingKeys => 1,
        Flag::CursorKeysApplication => 2,
        Flag::KeypadApplication => 2,
        Flag::IgnoreNull => 2,
        Flag::LocalEcho => 2,
        Flag::HalfDuplex => 2,
        Flag::AutoAnswerback => 2,
        Flag::ModemControl => 2,
    }
}

#[verifier::spinoff_prover]
fn flip_group_0(rd: Reading, flag: Flag) -> (r: Reading)
    requires
        flag_group(flag) == 0,
    ensures
        r.view() == flag_flipped(rd.view(), flag),
{
    match flag {
        Flag::OnLine => flip_on_line(rd),
        Flag::Autowrap => flip_autowrap(rd),
        Flag::NewLine => flip_new_line(rd),
        Flag::UserFeaturesLocked => flip_user_features_locked(rd),
        Flag::DisplayControls => flip_display_controls(rd),
        Flag::AutoResize => flip_auto_resize(rd),
        Flag::ClearOnColumnChange => flip_clear_on_column_change(rd),
        Flag::HostWakeUp => flip_host_wake_up(rd),
        _ => rd,
    }
}

#[verifier::spinoff_prover]
fn flip_group_1(rd: Reading, flag: Flag) -> (r: Reading)
    requires
        flag_group(flag) == 1,
    ensures
        r.view() == flag_flipped(rd.view(), flag),
{
    match flag {
        Flag::Overscan => flip_overscan(rd),
        Flag::Cursor => flip_cursor(rd),
        Flag::VerticalCoupling => flip_vertical_coupling(rd),
        Flag::PageCoupling => flip_page_coupling(rd),
        Flag::National => flip_national(rd),
        Flag::UdkLocked => flip_udk_locked(rd),
        Flag::DataProcessingKeys => flip_data_processing_keys(rd),
        _ => rd,
    }
}

#[verifier::spinoff_prover]
fn flip_group_2(rd: Reading, flag: Flag) -> (r: Reading)
    requires
        flag_group(flag) == 2,
    ensures
        r.view() == flag_flipped(rd.view(), flag),
{
    match flag {
        Flag::CursorKeysApplication => flip_cursor_keys_application(rd),
        Flag::KeypadApplication => flip_keypad_application(rd),
        Flag::IgnoreNull => flip_ignore_null(rd),
        Flag::LocalEcho => flip_local_echo(rd),
        Flag::HalfDuplex => flip_half_duplex(rd),
        Flag::AutoAnswerback => flip_auto_answerback(rd),
        Flag::ModemControl => flip_modem_control(rd),
        _ => rd,
    }
}

fn flip_flag(rd: Reading, flag: Flag) -> (r: Reading)
    ensures
        r.view() == flag_flipped(rd.view(), flag),
{
    let g = match flag {
        Flag::OnLine => 0u8,
        Flag::Autowrap => 0u8,
        Flag::NewLine => 0u8,
        Flag::UserFeaturesLocked => 0u8,
        Flag::DisplayControls => 0u8,
        Flag::AutoResize => 0u8,
        Flag::ClearOnColumnChange => 0u8,
        Flag::HostWakeUp => 0u8,
        Flag::Overscan => 1u8,
        Flag::Cursor => 1u8,
        Flag::VerticalCoupling => 1u8,
        Flag::PageCoupling => 1u8,
        Flag::National => 1u8,
        Flag::UdkLocked => 1u8,
        Flag::DataProcessingKeys => 1u8,
        Flag::CursorKeysApplication => 2u8,
        Flag::KeypadApplication => 2u8,
        Flag::IgnoreNull => 2u8,
        Flag::LocalEcho => 2u8,
        Flag::HalfDuplex => 2u8,
        Flag::AutoAnswerback => 2u8,
        Flag::ModemControl => 2u8,
    };
    if g == 0 {
        flip_group_0(rd, flag)
    } else if g == 1 {
        flip_group_1(rd, flag)
    } else {
        flip_group_2(rd, flag)
    }
}

pub open spec fn setting_group(s: MenuSetting) -> int {
    match s {
        MenuSetting::Toggle(..) => 0,
        MenuSetting::Nothing => 0,
        MenuSetting::Columns(..) => 0,
        MenuSetting::ScreenLines(..) => 0,
        MenuSetting::PageLength(..) => 0,
        MenuSetting::Status(..) => 0,
        MenuSetting::Scroll(..) => 0,
        MenuSetting::LightScreen(..) => 0,
        MenuSetting::CursorShape(..) => 0,
        MenuSetting::CursorBlink => 0,
        MenuSetting::ZeroStyle(..) => 1,
        MenuSetting::CrtSaver(..) => 1,
        MenuSetting::EnergySaver(..) => 1,
        MenuSetting::SevenBitControls => 1,
        MenuSetting::Emulation(..) => 1,
        MenuSetting::TerminalId(..) => 1,
        MenuSetting::Upss(..) => 1,
        MenuSetting::Keyboard(..) => 1,
        MenuSetting::ShiftLock(..) => 1,
        MenuSetting::Keyclick(..) => 1,
        MenuSetting::WarningBell(..) => 2,
        MenuSetting::MarginBell(..) => 2,
        MenuSetting::PositionMode(..) => 2,
        MenuSetting::AutoRepeat(..) => 2,
        MenuSetting::SevenBitData(..) => 2,
        MenuSetting::Parity(..) => 2,
        MenuSetting::TwoStopBits(..) => 2,
        MenuSetting::TransmitSpeed(..) => 2,
        MenuSetting::ReceiveSpeed(..) => 2,
        MenuSetting::TransmitFlow(..) => 2,
        MenuSetting::ReceiveFlow(..) => 3,
        MenuSetting::ThresholdHigh(..) => 3,
        MenuSetting::TransmitRate(..) => 3,
        MenuSetting::FkeyRate(..) => 3,
        MenuSetting::Disconnect(..) => 3,
        MenuSetting::ModemHigh(..) => 3,
        MenuSetting::ModemLow(..) => 3,
        MenuSetting::Update(..) => 3,
        MenuSetting::ConcealAnswerback => 3,
    }
}

fn set_toggle(rd: Reading, flag: Flag) -> (r: Reading)
    ensures
        r.view() == setting_applied(rd.view(), MenuSetting::Toggle(flag)),
{
    flip_flag(rd, flag)
}

fn set_nothing(rd: Reading) -> (r: Reading)
    ensures
        r.view() == setting_applied(rd.view(), MenuSetting::Nothing),
{
    rd
}

fn set_columns(rd: Reading, wide: bool) -> (r: Reading)
    ensures
        r.view() == setting_applied(rd.view(), MenuSetting::Columns(wide)),
{
    let mut rd = rd;
    switch_columns(&mut rd, wide);
    rd
}

fn set_screen_lines(rd: Reading, n: usize) -> (r: Reading)
    ensures
        r.view() == setting_applied(rd.view(), MenuSetting::ScreenLines(n)),
{
    let mut rd = rd;
    let pl = if rd.display.page_length >= n { rd.display.page_length } else { n };
    rd.screen.screen_lines = n;
    rd.display.page_length = pl;
    rd
}

fn set_page_length(rd: Reading, n: usize) -> (r: Reading)
    ensures
        r.view() == setting_applied(rd.view(), MenuSetting::PageLength(n)),
{
    let mut rd = rd;
    let a = auto_screen_lines(n);
    let sl = if rd.screen.screen_lines <= a { rd.screen.screen_lines } else { a };
    rd.display.page_length = n;
    rd.screen.screen_lines = sl;
    rd
}

fn set_status(rd: Reading, s: StatusDisplay) -> (r: Reading)
    ensures
        r.view() == setting_applied(rd.view(), MenuSetting::Status(s)),
{
    let mut rd = rd;
    rd.display.status = s;
    rd
}

fn set_scroll(rd: Reading, s: Scroll) -> (r: Reading)
    ensures
        r.view() == setting_applied(rd.view(), MenuSetting::Scroll(s)),
{
    let mut rd = rd;
    rd.display.scroll = s;
    rd
}

fn set_light_screen(rd: Reading, b: bool) -> (r: Reading)
    ensures
        r.view() == setting_applied(rd.view(), MenuSetting::LightScreen(b)),
{
    let mut rd = rd;
    rd.display.light_screen = b;
    rd
}

fn set_cursor_shape(rd: Reading, b: bool) -> (r: Reading)
    ensures
        r.view() == setting_applied(rd.view(), MenuSetting::CursorShape(b)),
{
    let mut rd = rd;
    rd.display.cursor_style = cursor_style(b, rd.display.cursor_style.blinks());
    rd
}

fn set_cursor_blink(rd: Reading) -> (r: Reading)
    ensures
        r.view() == setting_applied(rd.view(), MenuSetting::CursorBlink),
{
    let mut rd = rd;
    rd.display.cursor_style = cursor_style(rd.display.cursor_style.is_block(), !rd.display.cursor_style.blinks());
    rd
}

fn set_zero_style(rd: Reading, z: u8) -> (r: Reading)
    ensures
        r.view() == setting_applied(rd.view(), MenuSetting::ZeroStyle(z)),
{
    let mut rd = rd;
    rd.screen.zero_style = z;
    rd
}

fn set_crt_saver(rd: Reading, m: u16) -> (r: Reading)
    ensures
        r.view() == setting_applied(rd.view(), MenuSetting::CrtSaver(m)),
{
    let mut rd = rd;
    let mins = if m > 0 { m } else { rd.screen.crt_saver_minutes };
    rd.global.crt_saver = m > 0;
    rd.screen.crt_saver_minutes = mins;
    rd
}

fn set_energy_saver(rd: Reading, m: u16) -> (r: Reading)
    ensures
        r.view() == setting_applied(rd.view(), MenuSetting::EnergySaver(m)),
{
    let mut rd = rd;
    rd.screen.energy_saver_minutes = m;
    rd
}

fn set_seven_bit_controls(rd: Reading) -> (r: Reading)
    ensures
        r.view() == setting_applied(rd.view(), MenuSetting::SevenBitControls),
{
    let mut rd = rd;
    if let TerminalMode::Level { level, eight_bit } = rd.general.terminal_mode {
        rd.general.terminal_mode = TerminalMode::Level { level, eight_bit: !eight_bit };
    };
    rd
}

fn set_emulation(rd: Reading, m: TerminalMode) -> (r: Reading)
    ensures
        r.view() == setting_applied(rd.view(), MenuSetting::Emulation(m)),
{
    let mut rd = rd;
    rd.general.terminal_mode = match (m, rd.general.terminal_mode) {
        (TerminalMode::Level { level, .. }, TerminalMode::Level { eight_bit, .. }) => TerminalMode::Level { level, eight_bit },
        _ => m,
    };
    rd
}

fn set_terminal_id(rd: Reading, id: u16) -> (r: Reading)
    ensures
        r.view() == setting_applied(rd.view(), MenuSetting::TerminalId(id)),
{
    let mut rd = rd;
    rd.general.terminal_id = id;
    rd
}

fn set_upss(rd: Reading, u: Supplemental) -> (r: Reading)
    ensures
        r.view() == setting_applied(rd.view(), MenuSetting::Upss(u)),
{
    let mut rd = rd;
    rd.general.upss = u;
    rd
}

fn set_keyboard(rd: Reading, k: Option<Nrc>) -> (r: Reading)
    ensures
        r.view() == setting_applied(rd.view(), MenuSetting::Keyboard(k)),
{
    let mut rd = rd;
    rd.layout.keyboard_language = k;
    rd.general.national = rd.general.national && k.is_some();
    rd
}

fn set_shift_lock(rd: Reading, b: bool) -> (r: Reading)
    ensures
        r.view() == setting_applied(rd.view(), MenuSetting::ShiftLock(b)),
{
    let mut rd = rd;
    rd.keys.shift_lock = b;
    rd
}

fn set_keyclick(rd: Reading, v: Volume) -> (r: Reading)
    ensures
        r.view() == setting_applied(rd.view(), MenuSetting::Keyclick(v)),
{
    let mut rd = rd;
    rd.keys.keyclick = v;
    rd
}

fn set_warning_bell(rd: Reading, v: Volume) -> (r: Reading)
    ensures
        r.view() == setting_applied(rd.view(), MenuSetting::WarningBell(v)),
{
    let mut rd = rd;
    rd.keys.warning_bell = v;
    rd
}

fn set_margin_bell(rd: Reading, v: Volume) -> (r: Reading)
    ensures
        r.view() == setting_applied(rd.view(), MenuSetting::MarginBell(v)),
{
    let mut rd = rd;
    rd.keys.margin_bell = v;
    rd
}

fn set_position_mode(rd: Reading, b: bool) -> (r: Reading)
    ensures
        r.view() == setting_applied(rd.view(), MenuSetting::PositionMode(b)),
{
    let mut rd = rd;
    rd.keys.position_mode = b;
    rd
}

fn set_auto_repeat(rd: Reading, rate: Option<u8>) -> (r: Reading)
    ensures
        r.view() == setting_applied(rd.view(), MenuSetting::AutoRepeat(rate)),
{
    let mut rd = rd;
    let (on, r) = match rate {
        Some(r) => (true, r),
        None => (false, rd.keys.auto_repeat_rate),
    };
    rd.keys.auto_repeat = on;
    rd.keys.auto_repeat_rate = r;
    rd
}

fn set_seven_bit_data(rd: Reading, b: bool) -> (r: Reading)
    ensures
        r.view() == setting_applied(rd.view(), MenuSetting::SevenBitData(b)),
{
    let mut rd = rd;
    rd.line.seven_bit_data = b;
    rd
}

fn set_parity(rd: Reading, p: Parity) -> (r: Reading)
    ensures
        r.view() == setting_applied(rd.view(), MenuSetting::Parity(p)),
{
    let mut rd = rd;
    rd.line.parity = p;
    rd
}

fn set_two_stop_bits(rd: Reading, b: bool) -> (r: Reading)
    ensures
        r.view() == setting_applied(rd.view(), MenuSetting::TwoStopBits(b)),
{
    let mut rd = rd;
    rd.line.two_stop_bits = b;
    rd
}

fn set_transmit_speed(rd: Reading, s: u32) -> (r: Reading)
    ensures
        r.view() == setting_applied(rd.view(), MenuSetting::TransmitSpeed(s)),
{
    let mut rd = rd;
    rd.line.transmit_speed = s;
    rd
}

fn set_receive_speed(rd: Reading, s: Option<u32>) -> (r: Reading)
    ensures
        r.view() == setting_applied(rd.view(), MenuSetting::ReceiveSpeed(s)),
{
    let mut rd = rd;
    rd.line.receive_speed = s;
    rd
}

fn set_transmit_flow(rd: Reading, v: u8) -> (r: Reading)
    ensures
        r.view() == setting_applied(rd.view(), MenuSetting::TransmitFlow(v)),
{
    let mut rd = rd;
    rd.line.transmit_flow = v;
    rd
}

fn set_receive_flow(rd: Reading, v: u8) -> (r: Reading)
    ensures
        r.view() == setting_applied(rd.view(), MenuSetting::ReceiveFlow(v)),
{
    let mut rd = rd;
    rd.line.receive_flow = v;
    rd
}

fn set_threshold_high(rd: Reading, b: bool) -> (r: Reading)
    ensures
        r.view() == setting_applied(rd.view(), MenuSetting::ThresholdHigh(b)),
{
    let mut rd = rd;
    rd.line.flow_threshold_high = b;
    rd
}

fn set_transmit_rate(rd: Reading, v: u8) -> (r: Reading)
    ensures
        r.view() == setting_applied(rd.view(), MenuSetting::TransmitRate(v)),
{
    let mut rd = rd;
    let r = if v == 0 { rd.line.transmit_rate } else { v };
    rd.modem.limited_transmit = v != 0;
    rd.line.transmit_rate = r;
    rd
}

fn set_fkey_rate(rd: Reading, v: u8) -> (r: Reading)
    ensures
        r.view() == setting_applied(rd.view(), MenuSetting::FkeyRate(v)),
{
    let mut rd = rd;
    rd.line.fkey_rate = v;
    rd
}

fn set_disconnect(rd: Reading, v: u8) -> (r: Reading)
    ensures
        r.view() == setting_applied(rd.view(), MenuSetting::Disconnect(v)),
{
    let mut rd = rd;
    rd.modem.disconnect = v;
    rd
}

fn set_modem_high(rd: Reading, s: Option<u32>) -> (r: Reading)
    ensures
        r.view() == setting_applied(rd.view(), MenuSetting::ModemHigh(s)),
{
    let mut rd = rd;
    rd.modem.modem_high_speed = s;
    rd
}

fn set_modem_low(rd: Reading, s: Option<u32>) -> (r: Reading)
    ensures
        r.view() == setting_applied(rd.view(), MenuSetting::ModemLow(s)),
{
    let mut rd = rd;
    rd.modem.modem_low_speed = s;
    rd
}

fn set_update(rd: Reading, u: u16) -> (r: Reading)
    ensures
        r.view() == setting_applied(rd.view(), MenuSetting::Update(u)),
{
    let mut rd = rd;
    rd.general.update = u;
    rd
}

fn set_conceal_answerback(rd: Reading) -> (r: Reading)
    ensures
        r.view() == setting_applied(rd.view(), MenuSetting::ConcealAnswerback),
{
    let mut rd = rd;
    rd.modem.conceal_answerback = true;
    rd
}

#[verifier::spinoff_prover]
fn apply_group_0(rd: Reading, s: MenuSetting) -> (r: Reading)
    requires
        setting_group(s) == 0,
    ensures
        r.view() == setting_applied(rd.view(), s),
{
    match s {
        MenuSetting::Toggle(flag) => set_toggle(rd, flag),
        MenuSetting::Nothing => set_nothing(rd),
        MenuSetting::Columns(wide) => set_columns(rd, wide),
        MenuSetting::ScreenLines(n) => set_screen_lines(rd, n),
        MenuSetting::PageLength(n) => set_page_length(rd, n),
        MenuSetting::Status(s) => set_status(rd, s),
        MenuSetting::Scroll(s) => set_scroll(rd, s),
        MenuSetting::LightScreen(b) => set_light_screen(rd, b),
        MenuSetting::CursorShape(b) => set_cursor_shape(rd, b),
        MenuSetting::CursorBlink => set_cursor_blink(rd),
        _ => rd,
    }
}

#[verifier::spinoff_prover]
fn apply_group_1(rd: Reading, s: MenuSetting) -> (r: Reading)
    requires
        setting_group(s) == 1,
    ensures
        r.view() == setting_applied(rd.view(), s),
{
    match s {
        MenuSetting::ZeroStyle(z) => set_zero_style(rd, z),
        MenuSetting::CrtSaver(m) => set_crt_saver(rd, m),
        MenuSetting::EnergySaver(m) => set_energy_saver(rd, m),
        MenuSetting::SevenBitControls => set_seven_bit_controls(rd),
        MenuSetting::Emulation(m) => set_emulation(rd, m),
        MenuSetting::TerminalId(id) => set_terminal_id(rd, id),
        MenuSetting::Upss(u) => set_upss(rd, u),
        MenuSetting::Keyboard(k) => set_keyboard(rd, k),
        MenuSetting::ShiftLock(b) => set_shift_lock(rd, b),
        MenuSetting::Keyclick(v) => set_keyclick(rd, v),
        _ => rd,
    }
}

#[verifier::spinoff_prover]
fn apply_group_2(rd: Reading, s: MenuSetting) -> (r: Reading)
    requires
        setting_group(s) == 2,
    ensures
        r.view() == setting_applied(rd.view(), s),
{
    match s {
        MenuSetting::WarningBell(v) => set_warning_bell(rd, v),
        MenuSetting::MarginBell(v) => set_margin_bell(rd, v),
        MenuSetting::PositionMode(b) => set_position_mode(rd, b),
        MenuSetting::AutoRepeat(rate) => set_auto_repeat(rd, rate),
        MenuSetting::SevenBitData(b) => set_seven_bit_data(rd, b),
        MenuSetting::Parity(p) => set_parity(rd, p),
        MenuSetting::TwoStopBits(b) => set_two_stop_bits(rd, b),
        MenuSetting::TransmitSpeed(s) => set_transmit_speed(rd, s),
        MenuSetting::ReceiveSpeed(s) => set_receive_speed(rd, s),
        MenuSetting::TransmitFlow(v) => set_transmit_flow(rd, v),
        _ => rd,
    }
}

#[verifier::spinoff_prover]
fn apply_group_3(rd: Reading, s: MenuSetting) -> (r: Reading)
    requires
        setting_group(s) == 3,
    ensures
        r.view() == setting_applied(rd.view(), s),
{
    match s {
        MenuSetting::ReceiveFlow(v) => set_receive_flow(rd, v),
        MenuSetting::ThresholdHigh(b) => set_threshold_high(rd, b),
        MenuSetting::TransmitRate(v) => set_transmit_rate(rd, v),
        MenuSetting::FkeyRate(v) => set_fkey_rate(rd, v),
        MenuSetting::Disconnect(v) => set_disconnect(rd, v),
        MenuSetting::ModemHigh(s) => set_modem_high(rd, s),
        MenuSetting::ModemLow(s) => set_modem_low(rd, s),
        MenuSetting::Update(u) => set_update(rd, u),
        MenuSetting::ConcealAnswerback => set_conceal_answerback(rd),
        _ => rd,
    }
}

/// Sets what a check box or radio button chooses.
pub fn apply_setting(f: &mut Features, s: MenuSetting)
    ensures
        final(f)@ == setting_applied(old(f)@, s),
{
    let g: u8 = match s {
        MenuSetting::Toggle(..) => 0,
        MenuSetting::Nothing => 0,
        MenuSetting::Columns(..) => 0,
        MenuSetting::ScreenLines(..) => 0,
        MenuSetting::PageLength(..) => 0,
        MenuSetting::Status(..) => 0,
        MenuSetting::Scroll(..) => 0,
        MenuSetting::LightScreen(..) => 0,
        MenuSetting::CursorShape(..) => 0,
        MenuSetting::CursorBlink => 0,
        MenuSetting::ZeroStyle(..) => 1,
        MenuSetting::CrtSaver(..) => 1,
        MenuSetting::EnergySaver(..) => 1,
        MenuSetting::SevenBitControls => 1,
        MenuSetting::Emulation(..) => 1,
        MenuSetting::TerminalId(..) => 1,
        MenuSetting::Upss(..) => 1,
        MenuSetting::Keyboard(..) => 1,
        MenuSetting::ShiftLock(..) => 1,
        MenuSetting::Keyclick(..) => 1,
        MenuSetting::WarningBell(..) => 2,
        MenuSetting::MarginBell(..) => 2,
        MenuSetting::PositionMode(..) => 2,
        MenuSetting::AutoRepeat(..) => 2,
        MenuSetting::SevenBitData(..) => 2,
        MenuSetting::Parity(..) => 2,
        MenuSetting::TwoStopBits(..) => 2,
        MenuSetting::TransmitSpeed(..) => 2,
        MenuSetting::ReceiveSpeed(..) => 2,
        MenuSetting::TransmitFlow(..) => 2,
        MenuSetting::ReceiveFlow(..) => 3,
        MenuSetting::ThresholdHigh(..) => 3,
        MenuSetting::TransmitRate(..) => 3,
        MenuSetting::FkeyRate(..) => 3,
        MenuSetting::Disconnect(..) => 3,
        MenuSetting::ModemHigh(..) => 3,
        MenuSetting::ModemLow(..) => 3,
        MenuSetting::Update(..) => 3,
        MenuSetting::ConcealAnswerback => 3,
    };
    let mut taken = Features::factory(Model::Vt520);
    std::mem::swap(&mut taken, f);
    let rd = reading_of(taken);
    let rd = if g == 0 {
        apply_group_0(rd, s)
    } else if g == 1 {
        apply_group_1(rd, s)
    } else if g == 2 {
        apply_group_2(rd, s)
    } else {
        apply_group_3(rd, s)
    };
    *f = features_of(rd);
}

/// The Set-Up menus.
#[derive(Debug, Clone, Copy, PartialEq, Eq, Structural)]
pub enum Menu {
    Main,
    Actions,
    Session,
    SelectSession,
    UpdateSession,
    Display,
    LinesPerScreen,
    LinesPerPage,
    Columns,
    Status,
    Scrolling,
    Background,
    CursorDisplay,
    CursorCoupling,
    WritingDirection,
    Zero,
    CrtSaver,
    EnergySaver,
    Color,
    TerminalType,
    Emulation,
    TerminalId,
    CharacterSet,
    AsciiEmulation,
    Keyboard,
    VtLanguage,
    CapsLock,
    Keyclick,
    WarningBell,
    MarginBell,
    Encoding,
    AutoRepeat,
    Communication,
    WordSize,
    Parity,
    StopBits,
    TransmitSpeed,
    ReceiveSpeed,
    TransmitFlow,
    ReceiveFlow,
    Threshold,
    TransmitRate,
    FkeyRate,
    Modem,
    Disconnect,
    ModemHigh,
    ModemLow,
    Printer,
    Language,
}

/// What an item does when chosen.
#[derive(Debug, Clone, Copy, PartialEq, Eq, Structural)]
pub enum Command {
    Action(Action),
    ClearDisplay,
    Exit,
    Align,
    Answerback,
    Tabs,
    /// A feature the terminal model does not have (always dimmed).
    Unavailable,
}

/// The kind of a menu item.
#[derive(Debug, Clone, Copy, PartialEq, Eq, Structural)]
pub enum ItemKind {
    /// Opens a submenu.
    Sub(Menu),
    /// A check box, on or off, and what choosing it sets.
    Check(bool, MenuSetting),
    /// A radio button, on or off, and what choosing it sets.
    Radio(bool, MenuSetting),
    Do(Command),
    Separator,
}

/// A menu item: its label, kind, and whether it can be chosen.
#[derive(Debug, Clone)]
pub struct MenuItem {
    pub label: String,
    pub kind: ItemKind,
    pub enabled: bool,
}

/// What a menu item holds.
pub ghost struct ItemView {
    pub label: Seq<char>,
    pub kind: ItemKind,
    pub enabled: bool,
}

impl View for MenuItem {
    type V = ItemView;

    open spec fn view(&self) -> ItemView {
        ItemView { label: self.label@, kind: self.kind, enabled: self.enabled }
    }
}

pub open spec fn submenu_v(label: Seq<char>, menu: Menu) -> ItemView {
    ItemView { label, kind: ItemKind::Sub(menu), enabled: true }
}

pub open spec fn check_v(label: Seq<char>, on: bool, s: MenuSetting) -> ItemView {
    ItemView { label, kind: ItemKind::Check(on, s), enabled: true }
}

pub open spec fn radio_v(label: Seq<char>, on: bool, s: MenuSetting) -> ItemView {
    ItemView { label, kind: ItemKind::Radio(on, s), enabled: true }
}

pub open spec fn cmd_v(label: Seq<char>, c: Command) -> ItemView {
    ItemView { label, kind: ItemKind::Do(c), enabled: c != Command::Unavailable }
}

pub open spec fn unavailable_v(label: Seq<char>) -> ItemView {
    cmd_v(label, Command::Unavailable)
}

/// A check box for a feature the terminal keeps but cannot change.
pub open spec fn fixed_v(label: Seq<char>, on: bool) -> ItemView {
    when_v(check_v(label, on, MenuSetting::Nothing), false)
}

pub open spec fn separator_v() -> ItemView {
    ItemView { label: Seq::empty(), kind: ItemKind::Separator, enabled: false }
}

/// The item, dimmed unless `enabled`.
pub open spec fn when_v(i: ItemView, enabled: bool) -> ItemView {
    ItemView { enabled: i.enabled && enabled, ..i }
}

fn label_string(label: &str) -> (r: String)
    ensures
        r@ == label@,
{
    label.to_owned()
}

fn submenu(label: &str, menu: Menu) -> (r: MenuItem)
    ensures
        r@ == submenu_v(label@, menu),
{
    MenuItem { label: label_string(label), kind: ItemKind::Sub(menu), enabled: true }
}

fn check(label: &str, on: bool, s: MenuSetting) -> (r: MenuItem)
    ensures
        r@ == check_v(label@, on, s),
{
    MenuItem { label: label_string(label), kind: ItemKind::Check(on, s), enabled: true }
}

fn radio(label: &str, on: bool, s: MenuSetting) -> (r: MenuItem)
    ensures
        r@ == radio_v(label@, on, s),
{
    MenuItem { label: label_string(label), kind: ItemKind::Radio(on, s), enabled: true }
}

fn cmd(label: &str, c: Command) -> (r: MenuItem)
    ensures
        r@ == cmd_v(label@, c),
{
    let enabled = match c {
        Command::Unavailable => false,
        _ => true,
    };
    MenuItem { label: label_string(label), kind: ItemKind::Do(c), enabled }
}

fn unavailable(label: &str) -> (r: MenuItem)
    ensures
        r@ == unavailable_v(label@),
{
    cmd(label, Command::Unavailable)
}

fn fixed(label: &str, on: bool) -> (r: MenuItem)
    ensures
        r@ == fixed_v(label@, on),
{
    when(check(label, on, MenuSetting::Nothing), false)
}

fn separator() -> (r: MenuItem)
    ensures
        r@ == separator_v(),
{
    MenuItem { label: String::new(), kind: ItemKind::Separator, enabled: false }
}

fn when(i: MenuItem, enabled: bool) -> (r: MenuItem)
    ensures
        r@ == when_v(i@, enabled),
{
    MenuItem { enabled: i.enabled && enabled, ..i }
}

fn opt_is(o: Option<u32>, v: u32) -> (r: bool)
    ensures
        r == (o == Some(v)),
{
    match o {
        Some(x) => x == v,
        None => false,
    }
}

fn lang_is(a: Option<Nrc>, b: Option<Nrc>) -> (r: bool)
    ensures
        r == (a == b),
{
    match (a, b) {
        (Some(x), Some(y)) => x == y,
        (None, None) => true,
        _ => false,
    }
}

/// The CRT saver's minutes as its menu shows them: 0 when it is off.
pub open spec fn saver_now(f: FeaturesView) -> u16 {
    if f.global.crt_saver { f.screen.crt_saver_minutes } else { 0 }
}

fn saver_minutes_now(f: &Features) -> (r: u16)
    ensures
        r == saver_now(f@),
{
    if f.crt_saver { f.crt_saver_minutes } else { 0 }
}

/// The items of the Main menu.
pub open spec fn items_main(f: FeaturesView, model: Model, session: u8) -> Seq<ItemView> {
    seq![
        submenu_v("Actions"@, Menu::Actions),
        submenu_v("Session"@, Menu::Session),
        submenu_v("Display"@, Menu::Display),
        submenu_v("Color"@, Menu::Color),
        submenu_v("Terminal type"@, Menu::TerminalType),
        submenu_v("ASCII emulation"@, Menu::AsciiEmulation),
        submenu_v("Keyboard"@, Menu::Keyboard),
        submenu_v("Communication"@, Menu::Communication),
        submenu_v("Modem"@, Menu::Modem),
        submenu_v("Printer"@, Menu::Printer),
        cmd_v("Tabs..."@, Command::Tabs),
        submenu_v("Set-Up language"@, Menu::Language),
        separator_v(),
        check_v("On-line"@, f.global.on_line, MenuSetting::Toggle(Flag::OnLine)),
        cmd_v("Save settings"@, Command::Action(Action::Save)),
        cmd_v("Restore settings"@, Command::Action(Action::Recall)),
        cmd_v("Exit Set-Up"@, Command::Exit),
    ]
}

#[verifier::spinoff_prover]
fn menu_main(f: &Features, model: Model, session: u8) -> (r: Vec<MenuItem>)
    ensures
        r@.map_values(|i: MenuItem| i@) == items_main(f@, model, session),
{
    let mut v: Vec<MenuItem> = Vec::new();
    v.push(submenu("Actions", Menu::Actions));
    v.push(submenu("Session", Menu::Session));
    v.push(submenu("Display", Menu::Display));
    v.push(submenu("Color", Menu::Color));
    v.push(submenu("Terminal type", Menu::TerminalType));
    v.push(submenu("ASCII emulation", Menu::AsciiEmulation));
    v.push(submenu("Keyboard", Menu::Keyboard));
    v.push(submenu("Communication", Menu::Communication));
    v.push(submenu("Modem", Menu::Modem));
    v.push(submenu("Printer", Menu::Printer));
    v.push(cmd("Tabs...", Command::Tabs));
    v.push(submenu("Set-Up language", Menu::Language));
    v.push(separator());
    v.push(check("On-line", f.on_line, MenuSetting::Toggle(Flag::OnLine)));
    v.push(cmd("Save settings", Command::Action(Action::Save)));
    v.push(cmd("Restore settings", Command::Action(Action::Recall)));
    v.push(cmd("Exit Set-Up", Command::Exit));
    assert(v@.map_values(|i: MenuItem| i@) =~= items_main(f@, model, session));
    v
}

/// The items of the Actions menu.
pub open spec fn items_actions(f: FeaturesView, model: Model, session: u8) -> Seq<ItemView> {
    seq![
        cmd_v("Clear display"@, Command::ClearDisplay),
        cmd_v("Clear communications"@, Command::Action(Action::ClearComm)),
        cmd_v("Reset this session"@, Command::Action(Action::ResetSession)),
        cmd_v("Restore factory defaults"@, Command::Action(Action::Default)),
        separator_v(),
        unavailable_v("Clock"@),
        unavailable_v("Calculator"@),
        unavailable_v("Show character sets"@),
        unavailable_v("Banner message..."@),
    ]
}

#[verifier::spinoff_prover]
fn menu_actions(f: &Features, model: Model, session: u8) -> (r: Vec<MenuItem>)
    ensures
        r@.map_values(|i: MenuItem| i@) == items_actions(f@, model, session),
{
    let mut v: Vec<MenuItem> = Vec::new();
    v.push(cmd("Clear display", Command::ClearDisplay));
    v.push(cmd("Clear communications", Command::Action(Action::ClearComm)));
    v.push(cmd("Reset this session", Command::Action(Action::ResetSession)));
    v.push(cmd("Restore factory defaults", Command::Action(Action::Default)));
    v.push(separator());
    v.push(unavailable("Clock"));
    v.push(unavailable("Calculator"));
    v.push(unavailable("Show character sets"));
    v.push(unavailable("Banner message..."));
    assert(v@.map_values(|i: MenuItem| i@) =~= items_actions(f@, model, session));
    v
}

/// The items of the Session menu.
pub open spec fn items_session(f: FeaturesView, model: Model, session: u8) -> Seq<ItemView> {
    seq![
        submenu_v("Select session"@, Menu::SelectSession),
        unavailable_v("Session name..."@),
        unavailable_v("Pages per session..."@),
        when_v(submenu_v("Soft char sets/session"@, Menu::Session), false),
        unavailable_v("Save settings for all"@),
        unavailable_v("Restore settings for all"@),
        when_v(submenu_v("Copy settings from"@, Menu::Session), false),
        submenu_v("Update session"@, Menu::UpdateSession),
    ]
}

#[verifier::spinoff_prover]
fn menu_session(f: &Features, model: Model, session: u8) -> (r: Vec<MenuItem>)
    ensures
        r@.map_values(|i: MenuItem| i@) == items_session(f@, model, session),
{
    let mut v: Vec<MenuItem> = Vec::new();
    v.push(submenu("Select session", Menu::SelectSession));
    v.push(unavailable("Session name..."));
    v.push(unavailable("Pages per session..."));
    v.push(when(submenu("Soft char sets/session", Menu::Session), false));
    v.push(unavailable("Save settings for all"));
    v.push(unavailable("Restore settings for all"));
    v.push(when(submenu("Copy settings from", Menu::Session), false));
    v.push(submenu("Update session", Menu::UpdateSession));
    assert(v@.map_values(|i: MenuItem| i@) =~= items_session(f@, model, session));
    v
}

/// The items of the SelectSession menu.
pub open spec fn items_select_session(f: FeaturesView, model: Model, session: u8) -> Seq<ItemView> {
    seq![
        when_v(radio_v("Session 1"@, session == 1u8, MenuSetting::Nothing), session == 1u8),
        when_v(radio_v("Session 2"@, session == 2u8, MenuSetting::Nothing), session == 2u8),
        when_v(radio_v("Session 3"@, session == 3u8, MenuSetting::Nothing), session == 3u8),
        when_v(radio_v("Session 4"@, session == 4u8, MenuSetting::Nothing), session == 4u8),
    ]
}

#[verifier::spinoff_prover]
fn menu_select_session(f: &Features, model: Model, session: u8) -> (r: Vec<MenuItem>)
    ensures
        r@.map_values(|i: MenuItem| i@) == items_select_session(f@, model, session),
{
    let mut v: Vec<MenuItem> = Vec::new();
    v.push(when(radio("Session 1", session == 1u8, MenuSetting::Nothing), session == 1u8));
    v.push(when(radio("Session 2", session == 2u8, MenuSetting::Nothing), session == 2u8));
    v.push(when(radio("Session 3", session == 3u8, MenuSetting::Nothing), session == 3u8));
    v.push(when(radio("Session 4", session == 4u8, MenuSetting::Nothing), session == 4u8));
    assert(v@.map_values(|i: MenuItem| i@) =~= items_select_session(f@, model, session));
    v
}

/// The items of the UpdateSession menu.
pub open spec fn items_update_session(f: FeaturesView, model: Model, session: u8) -> Seq<ItemView> {
    seq![
        radio_v("Only when active"@, f.general.update == 1u16, MenuSetting::Update(1u16)),
        radio_v("When available"@, f.general.update == 2u16, MenuSetting::Update(2u16)),
        radio_v("At regular intervals"@, f.general.update == 3u16, MenuSetting::Update(3u16)),
    ]
}

#[verifier::spinoff_prover]
fn menu_update_session(f: &Features, model: Model, session: u8) -> (r: Vec<MenuItem>)
    ensures
        r@.map_values(|i: MenuItem| i@) == items_update_session(f@, model, session),
{
    let mut v: Vec<MenuItem> = Vec::new();
    v.push(radio("Only when active", f.update == 1u16, MenuSetting::Update(1u16)));
    v.push(radio("When available", f.update == 2u16, MenuSetting::Update(2u16)));
    v.push(radio("At regular intervals", f.update == 3u16, MenuSetting::Update(3u16)));
    assert(v@.map_values(|i: MenuItem| i@) =~= items_update_session(f@, model, session));
    v
}

/// The items of the Display menu.
pub open spec fn items_display(f: FeaturesView, model: Model, session: u8) -> Seq<ItemView> {
    seq![
        submenu_v("Lines per screen"@, Menu::LinesPerScreen),
        submenu_v("Lines per page"@, Menu::LinesPerPage),
        fixed_v("Save lines off top"@, false),
        submenu_v("Columns per page"@, Menu::Columns),
        when_v(submenu_v("Status display"@, Menu::Status), max_level(model) >= 3),
        submenu_v("Scrolling mode"@, Menu::Scrolling),
        submenu_v("Screen background"@, Menu::Background),
        submenu_v("Cursor display"@, Menu::CursorDisplay),
        submenu_v("Cursor coupling"@, Menu::CursorCoupling),
        submenu_v("Writing direction"@, Menu::WritingDirection),
        submenu_v("Zero font"@, Menu::Zero),
        check_v("Auto wrap"@, f.display.autowrap, MenuSetting::Toggle(Flag::Autowrap)),
        check_v("New line mode"@, f.general.new_line, MenuSetting::Toggle(Flag::NewLine)),
        check_v("Lock user preferences"@, f.general.user_features_locked, MenuSetting::Toggle(Flag::UserFeaturesLocked)),
        check_v("Show control characters"@, f.display.display_controls, MenuSetting::Toggle(Flag::DisplayControls)),
        submenu_v("CRT saver"@, Menu::CrtSaver),
        when_v(submenu_v("Energy saver"@, Menu::EnergySaver), f.global.crt_saver && f.screen.crt_saver_minutes > 0),
        when_v(check_v("Overscan"@, f.screen.overscan, MenuSetting::Toggle(Flag::Overscan)), model != Model::Vt525),
        fixed_v("Framed windows"@, false),
        cmd_v("Screen alignment..."@, Command::Align),
    ]
}

#[verifier::spinoff_prover]
fn menu_display(f: &Features, model: Model, session: u8) -> (r: Vec<MenuItem>)
    ensures
        r@.map_values(|i: MenuItem| i@) == items_display(f@, model, session),
{
    let mut v: Vec<MenuItem> = Vec::new();
    v.push(submenu("Lines per screen", Menu::LinesPerScreen));
    v.push(submenu("Lines per page", Menu::LinesPerPage));
    v.push(fixed("Save lines off top", false));
    v.push(submenu("Columns per page", Menu::Columns));
    v.push(when(submenu("Status display", Menu::Status), model.max_level() >= 3));
    v.push(submenu("Scrolling mode", Menu::Scrolling));
    v.push(submenu("Screen background", Menu::Background));
    v.push(submenu("Cursor display", Menu::CursorDisplay));
    v.push(submenu("Cursor coupling", Menu::CursorCoupling));
    v.push(submenu("Writing direction", Menu::WritingDirection));
    v.push(submenu("Zero font", Menu::Zero));
    v.push(check("Auto wrap", f.autowrap, MenuSetting::Toggle(Flag::Autowrap)));
    v.push(check("New line mode", f.new_line, MenuSetting::Toggle(Flag::NewLine)));
    v.push(check("Lock user preferences", f.user_features_locked, MenuSetting::Toggle(Flag::UserFeaturesLocked)));
    v.push(check("Show control characters", f.display_controls, MenuSetting::Toggle(Flag::DisplayControls)));
    v.push(submenu("CRT saver", Menu::CrtSaver));
    v.push(when(submenu("Energy saver", Menu::EnergySaver), f.crt_saver && f.crt_saver_minutes > 0));
    v.push(when(check("Overscan", f.overscan, MenuSetting::Toggle(Flag::Overscan)), model != Model::Vt525));
    v.push(fixed("Framed windows", false));
    v.push(cmd("Screen alignment...", Command::Align));
    assert(v@.map_values(|i: MenuItem| i@) =~= items_display(f@, model, session));
    v
}

/// The items of the LinesPerScreen menu.
pub open spec fn items_lines_per_screen(f: FeaturesView, model: Model, session: u8) -> Seq<ItemView> {
    seq![
        radio_v("24 lines"@, f.screen.screen_lines == 24usize, MenuSetting::ScreenLines(24usize)),
        radio_v("36 lines"@, f.screen.screen_lines == 36usize, MenuSetting::ScreenLines(36usize)),
        radio_v("48 lines"@, f.screen.screen_lines == 48usize, MenuSetting::ScreenLines(48usize)),
        check_v("Auto resize"@, f.screen.auto_resize, MenuSetting::Toggle(Flag::AutoResize)),
    ]
}

#[verifier::spinoff_prover]
fn menu_lines_per_screen(f: &Features, model: Model, session: u8) -> (r: Vec<MenuItem>)
    ensures
        r@.map_values(|i: MenuItem| i@) == items_lines_per_screen(f@, model, session),
{
    let mut v: Vec<MenuItem> = Vec::new();
    v.push(radio("24 lines", f.screen_lines == 24usize, MenuSetting::ScreenLines(24usize)));
    v.push(radio("36 lines", f.screen_lines == 36usize, MenuSetting::ScreenLines(36usize)));
    v.push(radio("48 lines", f.screen_lines == 48usize, MenuSetting::ScreenLines(48usize)));
    v.push(check("Auto resize", f.auto_resize, MenuSetting::Toggle(Flag::AutoResize)));
    assert(v@.map_values(|i: MenuItem| i@) =~= items_lines_per_screen(f@, model, session));
    v
}

/// The items of the LinesPerPage menu.
pub open spec fn items_lines_per_page(f: FeaturesView, model: Model, session: u8) -> Seq<ItemView> {
    if max_level(model) >= 5 {
        seq![
            radio_v("24 lines x 3 pages"@, f.display.page_length == 24usize, MenuSetting::PageLength(24usize)),
            radio_v("25 lines x 2 pages"@, f.display.page_length == 25usize, MenuSetting::PageLength(25usize)),
            radio_v("36 lines x 2 pages"@, f.display.page_length == 36usize, MenuSetting::PageLength(36usize)),
            radio_v("41 lines x 1 page"@, f.display.page_length == 41usize, MenuSetting::PageLength(41usize)),
            radio_v("42 lines x 1 page"@, f.display.page_length == 42usize, MenuSetting::PageLength(42usize)),
            radio_v("48 lines x 1 page"@, f.display.page_length == 48usize, MenuSetting::PageLength(48usize)),
            radio_v("52 lines x 1 page"@, f.display.page_length == 52usize, MenuSetting::PageLength(52usize)),
            radio_v("53 lines x 1 page"@, f.display.page_length == 53usize, MenuSetting::PageLength(53usize)),
            radio_v("72 lines x 1 page"@, f.display.page_length == 72usize, MenuSetting::PageLength(72usize)),
        ]
    } else {
        seq![
            radio_v("24 lines x 3 pages"@, f.display.page_length == 24usize, MenuSetting::PageLength(24usize)),
            radio_v("25 lines x 2 pages"@, f.display.page_length == 25usize, MenuSetting::PageLength(25usize)),
            radio_v("36 lines x 2 pages"@, f.display.page_length == 36usize, MenuSetting::PageLength(36usize)),
            radio_v("48 lines x 1 page"@, f.display.page_length == 48usize, MenuSetting::PageLength(48usize)),
            radio_v("72 lines x 1 page"@, f.display.page_length == 72usize, MenuSetting::PageLength(72usize)),
            radio_v("144 lines x 1 page"@, f.display.page_length == 144usize, MenuSetting::PageLength(144usize)),
        ]
    }
}

#[verifier::spinoff_prover]
fn menu_lines_per_page(f: &Features, model: Model, session: u8) -> (r: Vec<MenuItem>)
    ensures
        r@.map_values(|i: MenuItem| i@) == items_lines_per_page(f@, model, session),
{
    let mut v: Vec<MenuItem> = Vec::new();
    if model.max_level() >= 5 {
        v.push(radio("24 lines x 3 pages", f.page_length == 24usize, MenuSetting::PageLength(24usize)));
        v.push(radio("25 lines x 2 pages", f.page_length == 25usize, MenuSetting::PageLength(25usize)));
        v.push(radio("36 lines x 2 pages", f.page_length == 36usize, MenuSetting::PageLength(36usize)));
        v.push(radio("41 lines x 1 page", f.page_length == 41usize, MenuSetting::PageLength(41usize)));
        v.push(radio("42 lines x 1 page", f.page_length == 42usize, MenuSetting::PageLength(42usize)));
        v.push(radio("48 lines x 1 page", f.page_length == 48usize, MenuSetting::PageLength(48usize)));
        v.push(radio("52 lines x 1 page", f.page_length == 52usize, MenuSetting::PageLength(52usize)));
        v.push(radio("53 lines x 1 page", f.page_length == 53usize, MenuSetting::PageLength(53usize)));
        v.push(radio("72 lines x 1 page", f.page_length == 72usize, MenuSetting::PageLength(72usize)));
    } else {
        v.push(radio("24 lines x 3 pages", f.page_length == 24usize, MenuSetting::PageLength(24usize)));
        v.push(radio("25 lines x 2 pages", f.page_length == 25usize, MenuSetting::PageLength(25usize)));
        v.push(radio("36 lines x 2 pages", f.page_length == 36usize, MenuSetting::PageLength(36usize)));
        v.push(radio("48 lines x 1 page", f.page_length == 48usize, MenuSetting::PageLength(48usize)));
        v.push(radio("72 lines x 1 page", f.page_length == 72usize, MenuSetting::PageLength(72usize)));
        v.push(radio("144 lines x 1 page", f.page_length == 144usize, MenuSetting::PageLength(144usize)));
    }
    assert(v@.map_values(|i: MenuItem| i@) =~= items_lines_per_page(f@, model, session));
    v
}

/// The items of the Columns menu.
pub open spec fn items_columns(f: FeaturesView, model: Model, session: u8) -> Seq<ItemView> {
    seq![
        radio_v("80 columns"@, !f.display.columns_132, MenuSetting::Columns(false)),
        radio_v("132 columns"@, f.display.columns_132, MenuSetting::Columns(true)),
        check_v("Clear on change"@, f.screen.clear_on_column_change, MenuSetting::Toggle(Flag::ClearOnColumnChange)),
    ]
}

#[verifier::spinoff_prover]
fn menu_columns(f: &Features, model: Model, session: u8) -> (r: Vec<MenuItem>)
    ensures
        r@.map_values(|i: MenuItem| i@) == items_columns(f@, model, session),
{
    let mut v: Vec<MenuItem> = Vec::new();
    v.push(radio("80 columns", !f.columns_132, MenuSetting::Columns(false)));
    v.push(radio("132 columns", f.columns_132, MenuSetting::Columns(true)));
    v.push(check("Clear on change", f.clear_on_column_change, MenuSetting::Toggle(Flag::ClearOnColumnChange)));
    assert(v@.map_values(|i: MenuItem| i@) =~= items_columns(f@, model, session));
    v
}

/// The items of the Status menu.
pub open spec fn items_status(f: FeaturesView, model: Model, session: u8) -> Seq<ItemView> {
    seq![
        radio_v("Local status"@, f.display.status == StatusDisplay::Indicator, MenuSetting::Status(StatusDisplay::Indicator)),
        radio_v("Host writable"@, f.display.status == StatusDisplay::HostWritable, MenuSetting::Status(StatusDisplay::HostWritable)),
        radio_v("None"@, f.display.status == StatusDisplay::NoDisplay, MenuSetting::Status(StatusDisplay::NoDisplay)),
    ]
}

#[verifier::spinoff_prover]
fn menu_status(f: &Features, model: Model, session: u8) -> (r: Vec<MenuItem>)
    ensures
        r@.map_values(|i: MenuItem| i@) == items_status(f@, model, session),
{
    let mut v: Vec<MenuItem> = Vec::new();
    v.push(radio("Local status", f.status == StatusDisplay::Indicator, MenuSetting::Status(StatusDisplay::Indicator)));
    v.push(radio("Host writable", f.status == StatusDisplay::HostWritable, MenuSetting::Status(StatusDisplay::HostWritable)));
    v.push(radio("None", f.status == StatusDisplay::NoDisplay, MenuSetting::Status(StatusDisplay::NoDisplay)));
    assert(v@.map_values(|i: MenuItem| i@) =~= items_status(f@, model, session));
    v
}

/// The items of the Scrolling menu.
pub open spec fn items_scrolling(f: FeaturesView, model: Model, session: u8) -> Seq<ItemView> {
    seq![
        radio_v("Slow smooth"@, f.display.scroll == Scroll::Smooth2, MenuSetting::Scroll(Scroll::Smooth2)),
        radio_v("Fast smooth"@, f.display.scroll == Scroll::Smooth4, MenuSetting::Scroll(Scroll::Smooth4)),
        radio_v("Jump"@, f.display.scroll == Scroll::Jump, MenuSetting::Scroll(Scroll::Jump)),
    ]
}

#[verifier::spinoff_prover]
fn menu_scrolling(f: &Features, model: Model, session: u8) -> (r: Vec<MenuItem>)
    ensures
        r@.map_values(|i: MenuItem| i@) == items_scrolling(f@, model, session),
{
    let mut v: Vec<MenuItem> = Vec::new();
    v.push(radio("Slow smooth", f.scroll == Scroll::Smooth2, MenuSetting::Scroll(Scroll::Smooth2)));
    v.push(radio("Fast smooth", f.scroll == Scroll::Smooth4, MenuSetting::Scroll(Scroll::Smooth4)));
    v.push(radio("Jump", f.scroll == Scroll::Jump, MenuSetting::Scroll(Scroll::Jump)));
    assert(v@.map_values(|i: MenuItem| i@) =~= items_scrolling(f@, model, session));
    v
}

/// The items of the Background menu.
pub open spec fn items_background(f: FeaturesView, model: Model, session: u8) -> Seq<ItemView> {
    seq![
        radio_v("Dark"@, !f.display.light_screen, MenuSetting::LightScreen(false)),
        radio_v("Light"@, f.display.light_screen, MenuSetting::LightScreen(true)),
    ]
}

#[verifier::spinoff_prover]
fn menu_background(f: &Features, model: Model, session: u8) -> (r: Vec<MenuItem>)
    ensures
        r@.map_values(|i: MenuItem| i@) == items_background(f@, model, session),
{
    let mut v: Vec<MenuItem> = Vec::new();
    v.push(radio("Dark", !f.light_screen, MenuSetting::LightScreen(false)));
    v.push(radio("Light", f.light_screen, MenuSetting::LightScreen(true)));
    assert(v@.map_values(|i: MenuItem| i@) =~= items_background(f@, model, session));
    v
}

/// The items of the CursorDisplay menu.
pub open spec fn items_cursor_display(f: FeaturesView, model: Model, session: u8) -> Seq<ItemView> {
    seq![
        radio_v("Block"@, style_is_block(f.display.cursor_style), MenuSetting::CursorShape(true)),
        radio_v("Underline"@, !style_is_block(f.display.cursor_style), MenuSetting::CursorShape(false)),
        check_v("Blink"@, style_blinks(f.display.cursor_style), MenuSetting::CursorBlink),
        check_v("Enable cursor"@, f.display.cursor, MenuSetting::Toggle(Flag::Cursor)),
    ]
}

#[verifier::spinoff_prover]
fn menu_cursor_display(f: &Features, model: Model, session: u8) -> (r: Vec<MenuItem>)
    ensures
        r@.map_values(|i: MenuItem| i@) == items_cursor_display(f@, model, session),
{
    let mut v: Vec<MenuItem> = Vec::new();
    v.push(radio("Block", f.cursor_style.is_block(), MenuSetting::CursorShape(true)));
    v.push(radio("Underline", !f.cursor_style.is_block(), MenuSetting::CursorShape(false)));
    v.push(check("Blink", f.cursor_style.blinks(), MenuSetting::CursorBlink));
    v.push(check("Enable cursor", f.cursor, MenuSetting::Toggle(Flag::Cursor)));
    assert(v@.map_values(|i: MenuItem| i@) =~= items_cursor_display(f@, model, session));
    v
}

/// The items of the CursorCoupling menu.
pub open spec fn items_cursor_coupling(f: FeaturesView, model: Model, session: u8) -> Seq<ItemView> {
    seq![
        check_v("Vertical coupling"@, f.screen.vertical_coupling, MenuSetting::Toggle(Flag::VerticalCoupling)),
        check_v("Page coupling"@, f.screen.page_coupling, MenuSetting::Toggle(Flag::PageCoupling)),
    ]
}

#[verifier::spinoff_prover]
fn menu_cursor_coupling(f: &Features, model: Model, session: u8) -> (r: Vec<MenuItem>)
    ensures
        r@.map_values(|i: MenuItem| i@) == items_cursor_coupling(f@, model, session),
{
    let mut v: Vec<MenuItem> = Vec::new();
    v.push(check("Vertical coupling", f.vertical_coupling, MenuSetting::Toggle(Flag::VerticalCoupling)));
    v.push(check("Page coupling", f.page_coupling, MenuSetting::Toggle(Flag::PageCoupling)));
    assert(v@.map_values(|i: MenuItem| i@) =~= items_cursor_coupling(f@, model, session));
    v
}

/// The items of the WritingDirection menu.
pub open spec fn items_writing_direction(f: FeaturesView, model: Model, session: u8) -> Seq<ItemView> {
    seq![
        radio_v("Left to right"@, true, MenuSetting::Nothing),
        when_v(radio_v("Right to left"@, false, MenuSetting::Nothing), false),
    ]
}

#[verifier::spinoff_prover]
fn menu_writing_direction(f: &Features, model: Model, session: u8) -> (r: Vec<MenuItem>)
    ensures
        r@.map_values(|i: MenuItem| i@) == items_writing_direction(f@, model, session),
{
    let mut v: Vec<MenuItem> = Vec::new();
    v.push(radio("Left to right", true, MenuSetting::Nothing));
    v.push(when(radio("Right to left", false, MenuSetting::Nothing), false));
    assert(v@.map_values(|i: MenuItem| i@) =~= items_writing_direction(f@, model, session));
    v
}

/// The items of the Zero menu.
pub open spec fn items_zero(f: FeaturesView, model: Model, session: u8) -> Seq<ItemView> {
    seq![
        radio_v("Oval zero"@, f.screen.zero_style == 1u8, MenuSetting::ZeroStyle(1u8)),
        radio_v("Slashed zero"@, f.screen.zero_style == 2u8, MenuSetting::ZeroStyle(2u8)),
        radio_v("Dotted zero"@, f.screen.zero_style == 3u8, MenuSetting::ZeroStyle(3u8)),
    ]
}

#[verifier::spinoff_prover]
fn menu_zero(f: &Features, model: Model, session: u8) -> (r: Vec<MenuItem>)
    ensures
        r@.map_values(|i: MenuItem| i@) == items_zero(f@, model, session),
{
    let mut v: Vec<MenuItem> = Vec::new();
    v.push(radio("Oval zero", f.zero_style == 1u8, MenuSetting::ZeroStyle(1u8)));
    v.push(radio("Slashed zero", f.zero_style == 2u8, MenuSetting::ZeroStyle(2u8)));
    v.push(radio("Dotted zero", f.zero_style == 3u8, MenuSetting::ZeroStyle(3u8)));
    assert(v@.map_values(|i: MenuItem| i@) =~= items_zero(f@, model, session));
    v
}

/// The items of the CrtSaver menu.
pub open spec fn items_crt_saver(f: FeaturesView, model: Model, session: u8) -> Seq<ItemView> {
    seq![
        radio_v("Never"@, saver_now(f) == 0u16, MenuSetting::CrtSaver(0u16)),
        radio_v("5 minutes"@, saver_now(f) == 5u16, MenuSetting::CrtSaver(5u16)),
        radio_v("15 minutes"@, saver_now(f) == 15u16, MenuSetting::CrtSaver(15u16)),
        radio_v("30 minutes"@, saver_now(f) == 30u16, MenuSetting::CrtSaver(30u16)),
        radio_v("60 minutes"@, saver_now(f) == 60u16, MenuSetting::CrtSaver(60u16)),
        check_v("Host wake-up"@, f.screen.host_wake_up, MenuSetting::Toggle(Flag::HostWakeUp)),
    ]
}

#[verifier::spinoff_prover]
fn menu_crt_saver(f: &Features, model: Model, session: u8) -> (r: Vec<MenuItem>)
    ensures
        r@.map_values(|i: MenuItem| i@) == items_crt_saver(f@, model, session),
{
    let mut v: Vec<MenuItem> = Vec::new();
    v.push(radio("Never", saver_minutes_now(f) == 0u16, MenuSetting::CrtSaver(0u16)));
    v.push(radio("5 minutes", saver_minutes_now(f) == 5u16, MenuSetting::CrtSaver(5u16)));
    v.push(radio("15 minutes", saver_minutes_now(f) == 15u16, MenuSetting::CrtSaver(15u16)));
    v.push(radio("30 minutes", saver_minutes_now(f) == 30u16, MenuSetting::CrtSaver(30u16)));
    v.push(radio("60 minutes", saver_minutes_now(f) == 60u16, MenuSetting::CrtSaver(60u16)));
    v.push(check("Host wake-up", f.host_wake_up, MenuSetting::Toggle(Flag::HostWakeUp)));
    assert(v@.map_values(|i: MenuItem| i@) =~= items_crt_saver(f@, model, session));
    v
}

/// The items of the EnergySaver menu.
pub open spec fn items_energy_saver(f: FeaturesView, model: Model, session: u8) -> Seq<ItemView> {
    seq![
        radio_v("Never"@, f.screen.energy_saver_minutes == 0u16, MenuSetting::EnergySaver(0u16)),
        radio_v("5 minutes"@, f.screen.energy_saver_minutes == 5u16, MenuSetting::EnergySaver(5u16)),
        radio_v("15 minutes"@, f.screen.energy_saver_minutes == 15u16, MenuSetting::EnergySaver(15u16)),
        radio_v("30 minutes"@, f.screen.energy_saver_minutes == 30u16, MenuSetting::EnergySaver(30u16)),
        radio_v("60 minutes"@, f.screen.energy_saver_minutes == 60u16, MenuSetting::EnergySaver(60u16)),
    ]
}

#[verifier::spinoff_prover]
fn menu_energy_saver(f: &Features, model: Model, session: u8) -> (r: Vec<MenuItem>)
    ensures
        r@.map_values(|i: MenuItem| i@) == items_energy_saver(f@, model, session),
{
    let mut v: Vec<MenuItem> = Vec::new();
    v.push(radio("Never", f.energy_saver_minutes == 0u16, MenuSetting::EnergySaver(0u16)));
    v.push(radio("5 minutes", f.energy_saver_minutes == 5u16, MenuSetting::EnergySaver(5u16)));
    v.push(radio("15 minutes", f.energy_saver_minutes == 15u16, MenuSetting::EnergySaver(15u16)));
    v.push(radio("30 minutes", f.energy_saver_minutes == 30u16, MenuSetting::EnergySaver(30u16)));
    v.push(radio("60 minutes", f.energy_saver_minutes == 60u16, MenuSetting::EnergySaver(60u16)));
    assert(v@.map_values(|i: MenuItem| i@) =~= items_energy_saver(f@, model, session));
    v
}

/// The items of the Color menu.
pub open spec fn items_color(f: FeaturesView, model: Model, session: u8) -> Seq<ItemView> {
    seq![
        unavailable_v("Assign colors..."@),
        unavailable_v("Alternate text colors..."@),
        unavailable_v("Define colors..."@),
        when_v(submenu_v("Select color mode"@, Menu::Color), false),
        when_v(submenu_v("ASCII color mode"@, Menu::Color), false),
        when_v(submenu_v("Bold and blink style"@, Menu::Color), false),
        when_v(submenu_v("Erase color"@, Menu::Color), false),
        when_v(submenu_v("Reverse and blank attributes"@, Menu::Color), false),
        fixed_v("Intensity attributes"@, true),
    ]
}

#[verifier::spinoff_prover]
fn menu_color(f: &Features, model: Model, session: u8) -> (r: Vec<MenuItem>)
    ensures
        r@.map_values(|i: MenuItem| i@) == items_color(f@, model, session),
{
    let mut v: Vec<MenuItem> = Vec::new();
    v.push(unavailable("Assign colors..."));
    v.push(unavailable("Alternate text colors..."));
    v.push(unavailable("Define colors..."));
    v.push(when(submenu("Select color mode", Menu::Color), false));
    v.push(when(submenu("ASCII color mode", Menu::Color), false));
    v.push(when(submenu("Bold and blink style", Menu::Color), false));
    v.push(when(submenu("Erase color", Menu::Color), false));
    v.push(when(submenu("Reverse and blank attributes", Menu::Color), false));
    v.push(fixed("Intensity attributes", true));
    assert(v@.map_values(|i: MenuItem| i@) =~= items_color(f@, model, session));
    v
}

/// The items of the TerminalType menu.
pub open spec fn items_terminal_type(f: FeaturesView, model: Model, session: u8) -> Seq<ItemView> {
    seq![
        submenu_v("Emulation mode"@, Menu::Emulation),
        when_v(submenu_v("Terminal ID to host"@, Menu::TerminalId), f.general.terminal_mode != TerminalMode::Vt52),
        submenu_v("VT default char set"@, Menu::CharacterSet),
        when_v(submenu_v("PCTerm character set"@, Menu::CharacterSet), false),
        when_v(check_v("7-bit NRCS characters"@, f.general.national, MenuSetting::Toggle(Flag::National)), mode_level(f.general.terminal_mode) >= 2 && (f.layout.keyboard_language is Some)),
        when_v(check_v("Transmit 7-bit controls"@, !eight_bit_controls(f.general.terminal_mode), MenuSetting::SevenBitControls), mode_level(f.general.terminal_mode) >= 2),
    ]
}

#[verifier::spinoff_prover]
fn menu_terminal_type(f: &Features, model: Model, session: u8) -> (r: Vec<MenuItem>)
    ensures
        r@.map_values(|i: MenuItem| i@) == items_terminal_type(f@, model, session),
{
    let mut v: Vec<MenuItem> = Vec::new();
    v.push(submenu("Emulation mode", Menu::Emulation));
    v.push(when(submenu("Terminal ID to host", Menu::TerminalId), f.terminal_mode != TerminalMode::Vt52));
    v.push(submenu("VT default char set", Menu::CharacterSet));
    v.push(when(submenu("PCTerm character set", Menu::CharacterSet), false));
    v.push(when(check("7-bit NRCS characters", f.national, MenuSetting::Toggle(Flag::National)), mode_level_of(f.terminal_mode) >= 2 && f.keyboard_language.is_some()));
    v.push(when(check("Transmit 7-bit controls", !eight_bit_of(f.terminal_mode), MenuSetting::SevenBitControls), mode_level_of(f.terminal_mode) >= 2));
    assert(v@.map_values(|i: MenuItem| i@) =~= items_terminal_type(f@, model, session));
    v
}

/// The items of the Emulation menu.
pub open spec fn items_emulation(f: FeaturesView, model: Model, session: u8) -> Seq<ItemView> {
    if model == Model::Vt100 {
        seq![
            radio_v("VT100 mode"@, f.general.terminal_mode == TerminalMode::Vt100, MenuSetting::Emulation(TerminalMode::Vt100)),
            radio_v("VT52 mode"@, f.general.terminal_mode == TerminalMode::Vt52, MenuSetting::Emulation(TerminalMode::Vt52)),
        ]
    } else if model == Model::Vt102 {
        seq![
            radio_v("VT100 mode"@, f.general.terminal_mode == TerminalMode::Vt100, MenuSetting::Emulation(TerminalMode::Vt100)),
            radio_v("VT52 mode"@, f.general.terminal_mode == TerminalMode::Vt52, MenuSetting::Emulation(TerminalMode::Vt52)),
        ]
    } else if model == Model::Vt220 {
        seq![
            radio_v("VT200 mode"@, mode_level(f.general.terminal_mode) == 2u8, MenuSetting::Emulation(TerminalMode::Level { level: 2u8, eight_bit: false })),
            radio_v("VT100 mode"@, f.general.terminal_mode == TerminalMode::Vt100, MenuSetting::Emulation(TerminalMode::Vt100)),
            radio_v("VT52 mode"@, f.general.terminal_mode == TerminalMode::Vt52, MenuSetting::Emulation(TerminalMode::Vt52)),
        ]
    } else if model == Model::Vt320 {
        seq![
            radio_v("VT300 mode"@, mode_level(f.general.terminal_mode) == 3u8, MenuSetting::Emulation(TerminalMode::Level { level: 3u8, eight_bit: false })),
            radio_v("VT200 mode"@, mode_level(f.general.terminal_mode) == 2u8, MenuSetting::Emulation(TerminalMode::Level { level: 2u8, eight_bit: false })),
            radio_v("VT100 mode"@, f.general.terminal_mode == TerminalMode::Vt100, MenuSetting::Emulation(TerminalMode::Vt100)),
            radio_v("VT52 mode"@, f.general.terminal_mode == TerminalMode::Vt52, MenuSetting::Emulation(TerminalMode::Vt52)),
        ]
    } else if model == Model::Vt420 {
        seq![
            radio_v("VT400 mode"@, mode_level(f.general.terminal_mode) == 4u8, MenuSetting::Emulation(TerminalMode::Level { level: 4u8, eight_bit: false })),
            radio_v("VT300 mode"@, mode_level(f.general.terminal_mode) == 3u8, MenuSetting::Emulation(TerminalMode::Level { level: 3u8, eight_bit: false })),
            radio_v("VT200 mode"@, mode_level(f.general.terminal_mode) == 2u8, MenuSetting::Emulation(TerminalMode::Level { level: 2u8, eight_bit: false })),
            radio_v("VT100 mode"@, f.general.terminal_mode == TerminalMode::Vt100, MenuSetting::Emulation(TerminalMode::Vt100)),
            radio_v("VT52 mode"@, f.general.terminal_mode == TerminalMode::Vt52, MenuSetting::Emulation(TerminalMode::Vt52)),
        ]
    } else if model == Model::Vt510 {
        seq![
            radio_v("VT510 mode"@, mode_level(f.general.terminal_mode) == 5u8, MenuSetting::Emulation(TerminalMode::Level { level: 5u8, eight_bit: false })),
            radio_v("VT400 mode"@, mode_level(f.general.terminal_mode) == 4u8, MenuSetting::Emulation(TerminalMode::Level { level: 4u8, eight_bit: false })),
            radio_v("VT300 mode"@, mode_level(f.general.terminal_mode) == 3u8, MenuSetting::Emulation(TerminalMode::Level { level: 3u8, eight_bit: false })),
            radio_v("VT200 mode"@, mode_level(f.general.terminal_mode) == 2u8, MenuSetting::Emulation(TerminalMode::Level { level: 2u8, eight_bit: false })),
            radio_v("VT100 mode"@, f.general.terminal_mode == TerminalMode::Vt100, MenuSetting::Emulation(TerminalMode::Vt100)),
            radio_v("VT52 mode"@, f.general.terminal_mode == TerminalMode::Vt52, MenuSetting::Emulation(TerminalMode::Vt52)),
        ]
    } else if model == Model::Vt520 {
        seq![
            radio_v("VT520 mode"@, mode_level(f.general.terminal_mode) == 5u8, MenuSetting::Emulation(TerminalMode::Level { level: 5u8, eight_bit: false })),
            radio_v("VT400 mode"@, mode_level(f.general.terminal_mode) == 4u8, MenuSetting::Emulation(TerminalMode::Level { level: 4u8, eight_bit: false })),
            radio_v("VT300 mode"@, mode_level(f.general.terminal_mode) == 3u8, MenuSetting::Emulation(TerminalMode::Level { level: 3u8, eight_bit: false })),
            radio_v("VT200 mode"@, mode_level(f.general.terminal_mode) == 2u8, MenuSetting::Emulation(TerminalMode::Level { level: 2u8, eight_bit: false })),
            radio_v("VT100 mode"@, f.general.terminal_mode == TerminalMode::Vt100, MenuSetting::Emulation(TerminalMode::Vt100)),
            radio_v("VT52 mode"@, f.general.terminal_mode == TerminalMode::Vt52, MenuSetting::Emulation(TerminalMode::Vt52)),
        ]
    } else {
        seq![
            radio_v("VT525 mode"@, mode_level(f.general.terminal_mode) == 5u8, MenuSetting::Emulation(TerminalMode::Level { level: 5u8, eight_bit: false })),
            radio_v("VT400 mode"@, mode_level(f.general.terminal_mode) == 4u8, MenuSetting::Emulation(TerminalMode::Level { level: 4u8, eight_bit: false })),
            radio_v("VT300 mode"@, mode_level(f.general.terminal_mode) == 3u8, MenuSetting::Emulation(TerminalMode::Level { level: 3u8, eight_bit: false })),
            radio_v("VT200 mode"@, mode_level(f.general.terminal_mode) == 2u8, MenuSetting::Emulation(TerminalMode::Level { level: 2u8, eight_bit: false })),
            radio_v("VT100 mode"@, f.general.terminal_mode == TerminalMode::Vt100, MenuSetting::Emulation(TerminalMode::Vt100)),
            radio_v("VT52 mode"@, f.general.terminal_mode == TerminalMode::Vt52, MenuSetting::Emulation(TerminalMode::Vt52)),
        ]
    }
}

#[verifier::spinoff_prover]
fn menu_emulation(f: &Features, model: Model, session: u8) -> (r: Vec<MenuItem>)
    ensures
        r@.map_values(|i: MenuItem| i@) == items_emulation(f@, model, session),
{
    let mut v: Vec<MenuItem> = Vec::new();
    if model == Model::Vt100 {
        v.push(radio("VT100 mode", f.terminal_mode == TerminalMode::Vt100, MenuSetting::Emulation(TerminalMode::Vt100)));
        v.push(radio("VT52 mode", f.terminal_mode == TerminalMode::Vt52, MenuSetting::Emulation(TerminalMode::Vt52)));
    } else if model == Model::Vt102 {
        v.push(radio("VT100 mode", f.terminal_mode == TerminalMode::Vt100, MenuSetting::Emulation(TerminalMode::Vt100)));
        v.push(radio("VT52 mode", f.terminal_mode == TerminalMode::Vt52, MenuSetting::Emulation(TerminalMode::Vt52)));
    } else if model == Model::Vt220 {
        v.push(radio("VT200 mode", mode_level_of(f.terminal_mode) == 2u8, MenuSetting::Emulation(TerminalMode::Level { level: 2u8, eight_bit: false })));
        v.push(radio("VT100 mode", f.terminal_mode == TerminalMode::Vt100, MenuSetting::Emulation(TerminalMode::Vt100)));
        v.push(radio("VT52 mode", f.terminal_mode == TerminalMode::Vt52, MenuSetting::Emulation(TerminalMode::Vt52)));
    } else if model == Model::Vt320 {
        v.push(radio("VT300 mode", mode_level_of(f.terminal_mode) == 3u8, MenuSetting::Emulation(TerminalMode::Level { level: 3u8, eight_bit: false })));
        v.push(radio("VT200 mode", mode_level_of(f.terminal_mode) == 2u8, MenuSetting::Emulation(TerminalMode::Level { level: 2u8, eight_bit: false })));
        v.push(radio("VT100 mode", f.terminal_mode == TerminalMode::Vt100, MenuSetting::Emulation(TerminalMode::Vt100)));
        v.push(radio("VT52 mode", f.terminal_mode == TerminalMode::Vt52, MenuSetting::Emulation(TerminalMode::Vt52)));
    } else if model == Model::Vt420 {
        v.push(radio("VT400 mode", mode_level_of(f.terminal_mode) == 4u8, MenuSetting::Emulation(TerminalMode::Level { level: 4u8, eight_bit: false })));
        v.push(radio("VT300 mode", mode_level_of(f.terminal_mode) == 3u8, MenuSetting::Emulation(TerminalMode::Level { level: 3u8, eight_bit: false })));
        v.push(radio("VT200 mode", mode_level_of(f.terminal_mode) == 2u8, MenuSetting::Emulation(TerminalMode::Level { level: 2u8, eight_bit: false })));
        v.push(radio("VT100 mode", f.terminal_mode == TerminalMode::Vt100, MenuSetting::Emulation(TerminalMode::Vt100)));
        v.push(radio("VT52 mode", f.terminal_mode == TerminalMode::Vt52, MenuSetting::Emulation(TerminalMode::Vt52)));
    } else if model == Model::Vt510 {
        v.push(radio("VT510 mode", mode_level_of(f.terminal_mode) == 5u8, MenuSetting::Emulation(TerminalMode::Level { level: 5u8, eight_bit: false })));
        v.push(radio("VT400 mode", mode_level_of(f.terminal_mode) == 4u8, MenuSetting::Emulation(TerminalMode::Level { level: 4u8, eight_bit: false })));
        v.push(radio("VT300 mode", mode_level_of(f.terminal_mode) == 3u8, MenuSetting::Emulation(TerminalMode::Level { level: 3u8, eight_bit: false })));
        v.push(radio("VT200 mode", mode_level_of(f.terminal_mode) == 2u8, MenuSetting::Emulation(TerminalMode::Level { level: 2u8, eight_bit: false })));
        v.push(radio("VT100 mode", f.terminal_mode == TerminalMode::Vt100, MenuSetting::Emulation(TerminalMode::Vt100)));
        v.push(radio("VT52 mode", f.terminal_mode == TerminalMode::Vt52, MenuSetting::Emulation(TerminalMode::Vt52)));
    } else if model == Model::Vt520 {
        v.push(radio("VT520 mode", mode_level_of(f.terminal_mode) == 5u8, MenuSetting::Emulation(TerminalMode::Level { level: 5u8, eight_bit: false })));
        v.push(radio("VT400 mode", mode_level_of(f.terminal_mode) == 4u8, MenuSetting::Emulation(TerminalMode::Level { level: 4u8, eight_bit: false })));
        v.push(radio("VT300 mode", mode_level_of(f.terminal_mode) == 3u8, MenuSetting::Emulation(TerminalMode::Level { level: 3u8, eight_bit: false })));
        v.push(radio("VT200 mode", mode_level_of(f.terminal_mode) == 2u8, MenuSetting::Emulation(TerminalMode::Level { level: 2u8, eight_bit: false })));
        v.push(radio("VT100 mode", f.terminal_mode == TerminalMode::Vt100, MenuSetting::Emulation(TerminalMode::Vt100)));
        v.push(radio("VT52 mode", f.terminal_mode == TerminalMode::Vt52, MenuSetting::Emulation(TerminalMode::Vt52)));
    } else {
        v.push(radio("VT525 mode", mode_level_of(f.terminal_mode) == 5u8, MenuSetting::Emulation(TerminalMode::Level { level: 5u8, eight_bit: false })));
        v.push(radio("VT400 mode", mode_level_of(f.terminal_mode) == 4u8, MenuSetting::Emulation(TerminalMode::Level { level: 4u8, eight_bit: false })));
        v.push(radio("VT300 mode", mode_level_of(f.terminal_mode) == 3u8, MenuSetting::Emulation(TerminalMode::Level { level: 3u8, eight_bit: false })));
        v.push(radio("VT200 mode", mode_level_of(f.terminal_mode) == 2u8, MenuSetting::Emulation(TerminalMode::Level { level: 2u8, eight_bit: false })));
        v.push(radio("VT100 mode", f.terminal_mode == TerminalMode::Vt100, MenuSetting::Emulation(TerminalMode::Vt100)));
        v.push(radio("VT52 mode", f.terminal_mode == TerminalMode::Vt52, MenuSetting::Emulation(TerminalMode::Vt52)));
    }
    assert(v@.map_values(|i: MenuItem| i@) =~= items_emulation(f@, model, session));
    v
}

/// The items of the TerminalId menu.
pub open spec fn items_terminal_id(f: FeaturesView, model: Model, session: u8) -> Seq<ItemView> {
    if model == Model::Vt100 {
        seq![
            radio_v("VT100"@, f.general.terminal_id == 10u16, MenuSetting::TerminalId(10u16)),
        ]
    } else if model == Model::Vt102 {
        seq![
            radio_v("VT102"@, f.general.terminal_id == 10u16, MenuSetting::TerminalId(10u16)),
        ]
    } else if model == Model::Vt220 {
        seq![
            radio_v("VT220"@, f.general.terminal_id == 10u16, MenuSetting::TerminalId(10u16)),
        ]
    } else if model == Model::Vt320 {
        seq![
            radio_v("VT320"@, f.general.terminal_id == 10u16, MenuSetting::TerminalId(10u16)),
        ]
    } else if model == Model::Vt420 {
        seq![
            radio_v("VT420"@, f.general.terminal_id == 10u16, MenuSetting::TerminalId(10u16)),
            radio_v("VT100"@, f.general.terminal_id == 0u16, MenuSetting::TerminalId(0u16)),
            radio_v("VT101"@, f.general.terminal_id == 1u16, MenuSetting::TerminalId(1u16)),
            radio_v("VT102"@, f.general.terminal_id == 2u16, MenuSetting::TerminalId(2u16)),
            radio_v("VT220"@, f.general.terminal_id == 5u16, MenuSetting::TerminalId(5u16)),
            radio_v("VT320"@, f.general.terminal_id == 7u16, MenuSetting::TerminalId(7u16)),
        ]
    } else if model == Model::Vt510 {
        seq![
            radio_v("VT510"@, f.general.terminal_id == 10u16, MenuSetting::TerminalId(10u16)),
            radio_v("VT420"@, f.general.terminal_id == 9u16, MenuSetting::TerminalId(9u16)),
            radio_v("VT320"@, f.general.terminal_id == 7u16, MenuSetting::TerminalId(7u16)),
            radio_v("VT220"@, f.general.terminal_id == 5u16, MenuSetting::TerminalId(5u16)),
            radio_v("VT102"@, f.general.terminal_id == 2u16, MenuSetting::TerminalId(2u16)),
            radio_v("VT101"@, f.general.terminal_id == 1u16, MenuSetting::TerminalId(1u16)),
            radio_v("VT100"@, f.general.terminal_id == 0u16, MenuSetting::TerminalId(0u16)),
        ]
    } else if model == Model::Vt520 {
        seq![
            radio_v("VT520"@, f.general.terminal_id == 10u16, MenuSetting::TerminalId(10u16)),
            radio_v("VT420"@, f.general.terminal_id == 9u16, MenuSetting::TerminalId(9u16)),
            radio_v("VT320"@, f.general.terminal_id == 7u16, MenuSetting::TerminalId(7u16)),
            radio_v("VT220"@, f.general.terminal_id == 5u16, MenuSetting::TerminalId(5u16)),
            radio_v("VT102"@, f.general.terminal_id == 2u16, MenuSetting::TerminalId(2u16)),
            radio_v("VT101"@, f.general.terminal_id == 1u16, MenuSetting::TerminalId(1u16)),
            radio_v("VT100"@, f.general.terminal_id == 0u16, MenuSetting::TerminalId(0u16)),
        ]
    } else {
        seq![
            radio_v("VT525"@, f.general.terminal_id == 10u16, MenuSetting::TerminalId(10u16)),
            radio_v("VT420"@, f.general.terminal_id == 9u16, MenuSetting::TerminalId(9u16)),
            radio_v("VT320"@, f.general.terminal_id == 7u16, MenuSetting::TerminalId(7u16)),
            radio_v("VT220"@, f.general.terminal_id == 5u16, MenuSetting::TerminalId(5u16)),
            radio_v("VT102"@, f.general.terminal_id == 2u16, MenuSetting::TerminalId(2u16)),
            radio_v("VT101"@, f.general.terminal_id == 1u16, MenuSetting::TerminalId(1u16)),
            radio_v("VT100"@, f.general.terminal_id == 0u16, MenuSetting::TerminalId(0u16)),
        ]
    }
}

#[verifier::spinoff_prover]
fn menu_terminal_id(f: &Features, model: Model, session: u8) -> (r: Vec<MenuItem>)
    ensures
        r@.map_values(|i: MenuItem| i@) == items_terminal_id(f@, model, session),
{
    let mut v: Vec<MenuItem> = Vec::new();
    if model == Model::Vt100 {
        v.push(radio("VT100", f.terminal_id == 10u16, MenuSetting::TerminalId(10u16)));
    } else if model == Model::Vt102 {
        v.push(radio("VT102", f.terminal_id == 10u16, MenuSetting::TerminalId(10u16)));
    } else if model == Model::Vt220 {
        v.push(radio("VT220", f.terminal_id == 10u16, MenuSetting::TerminalId(10u16)));
    } else if model == Model::Vt320 {
        v.push(radio("VT320", f.terminal_id == 10u16, MenuSetting::TerminalId(10u16)));
    } else if model == Model::Vt420 {
        v.push(radio("VT420", f.terminal_id == 10u16, MenuSetting::TerminalId(10u16)));
        v.push(radio("VT100", f.terminal_id == 0u16, MenuSetting::TerminalId(0u16)));
        v.push(radio("VT101", f.terminal_id == 1u16, MenuSetting::TerminalId(1u16)));
        v.push(radio("VT102", f.terminal_id == 2u16, MenuSetting::TerminalId(2u16)));
        v.push(radio("VT220", f.terminal_id == 5u16, MenuSetting::TerminalId(5u16)));
        v.push(radio("VT320", f.terminal_id == 7u16, MenuSetting::TerminalId(7u16)));
    } else if model == Model::Vt510 {
        v.push(radio("VT510", f.terminal_id == 10u16, MenuSetting::TerminalId(10u16)));
        v.push(radio("VT420", f.terminal_id == 9u16, MenuSetting::TerminalId(9u16)));
        v.push(radio("VT320", f.terminal_id == 7u16, MenuSetting::TerminalId(7u16)));
        v.push(radio("VT220", f.terminal_id == 5u16, MenuSetting::TerminalId(5u16)));
        v.push(radio("VT102", f.terminal_id == 2u16, MenuSetting::TerminalId(2u16)));
        v.push(radio("VT101", f.terminal_id == 1u16, MenuSetting::TerminalId(1u16)));
        v.push(radio("VT100", f.terminal_id == 0u16, MenuSetting::TerminalId(0u16)));
    } else if model == Model::Vt520 {
        v.push(radio("VT520", f.terminal_id == 10u16, MenuSetting::TerminalId(10u16)));
        v.push(radio("VT420", f.terminal_id == 9u16, MenuSetting::TerminalId(9u16)));
        v.push(radio("VT320", f.terminal_id == 7u16, MenuSetting::TerminalId(7u16)));
        v.push(radio("VT220", f.terminal_id == 5u16, MenuSetting::TerminalId(5u16)));
        v.push(radio("VT102", f.terminal_id == 2u16, MenuSetting::TerminalId(2u16)));
        v.push(radio("VT101", f.terminal_id == 1u16, MenuSetting::TerminalId(1u16)));
        v.push(radio("VT100", f.terminal_id == 0u16, MenuSetting::TerminalId(0u16)));
    } else {
        v.push(radio("VT525", f.terminal_id == 10u16, MenuSetting::TerminalId(10u16)));
        v.push(radio("VT420", f.terminal_id == 9u16, MenuSetting::TerminalId(9u16)));
        v.push(radio("VT320", f.terminal_id == 7u16, MenuSetting::TerminalId(7u16)));
        v.push(radio("VT220", f.terminal_id == 5u16, MenuSetting::TerminalId(5u16)));
        v.push(radio("VT102", f.terminal_id == 2u16, MenuSetting::TerminalId(2u16)));
        v.push(radio("VT101", f.terminal_id == 1u16, MenuSetting::TerminalId(1u16)));
        v.push(radio("VT100", f.terminal_id == 0u16, MenuSetting::TerminalId(0u16)));
    }
    assert(v@.map_values(|i: MenuItem| i@) =~= items_terminal_id(f@, model, session));
    v
}

/// The items of the CharacterSet menu.
pub open spec fn items_character_set(f: FeaturesView, model: Model, session: u8) -> Seq<ItemView> {
    seq![
        radio_v("ISO Latin-1"@, f.general.upss == Supplemental::IsoLatin1, MenuSetting::Upss(Supplemental::IsoLatin1)),
        radio_v("DEC Multinational"@, f.general.upss == Supplemental::DecSupplemental, MenuSetting::Upss(Supplemental::DecSupplemental)),
    ]
}

#[verifier::spinoff_prover]
fn menu_character_set(f: &Features, model: Model, session: u8) -> (r: Vec<MenuItem>)
    ensures
        r@.map_values(|i: MenuItem| i@) == items_character_set(f@, model, session),
{
    let mut v: Vec<MenuItem> = Vec::new();
    v.push(radio("ISO Latin-1", f.upss == Supplemental::IsoLatin1, MenuSetting::Upss(Supplemental::IsoLatin1)));
    v.push(radio("DEC Multinational", f.upss == Supplemental::DecSupplemental, MenuSetting::Upss(Supplemental::DecSupplemental)));
    assert(v@.map_values(|i: MenuItem| i@) =~= items_character_set(f@, model, session));
    v
}

/// The items of the AsciiEmulation menu.
pub open spec fn items_ascii_emulation(f: FeaturesView, model: Model, session: u8) -> Seq<ItemView> {
    seq![
        unavailable_v("Data lines"@),
        unavailable_v("Pages"@),
        unavailable_v("Attribute"@),
        unavailable_v("Write protect attributes"@),
        unavailable_v("Page edit"@),
        unavailable_v("Received CR"@),
        unavailable_v("Recognize DEL"@),
        unavailable_v("Enhance"@),
        unavailable_v("Autoscroll"@),
        unavailable_v("Autopage"@),
        unavailable_v("Send ACK"@),
        unavailable_v("Answerback mode"@),
        unavailable_v("TVI page-flip"@),
        unavailable_v("Font load"@),
        unavailable_v("Block mode"@),
        unavailable_v("Block end"@),
    ]
}

#[verifier::spinoff_prover]
fn menu_ascii_emulation(f: &Features, model: Model, session: u8) -> (r: Vec<MenuItem>)
    ensures
        r@.map_values(|i: MenuItem| i@) == items_ascii_emulation(f@, model, session),
{
    let mut v: Vec<MenuItem> = Vec::new();
    v.push(unavailable("Data lines"));
    v.push(unavailable("Pages"));
    v.push(unavailable("Attribute"));
    v.push(unavailable("Write protect attributes"));
    v.push(unavailable("Page edit"));
    v.push(unavailable("Received CR"));
    v.push(unavailable("Recognize DEL"));
    v.push(unavailable("Enhance"));
    v.push(unavailable("Autoscroll"));
    v.push(unavailable("Autopage"));
    v.push(unavailable("Send ACK"));
    v.push(unavailable("Answerback mode"));
    v.push(unavailable("TVI page-flip"));
    v.push(unavailable("Font load"));
    v.push(unavailable("Block mode"));
    v.push(unavailable("Block end"));
    assert(v@.map_values(|i: MenuItem| i@) =~= items_ascii_emulation(f@, model, session));
    v
}

/// The items of the Keyboard menu.
pub open spec fn items_keyboard(f: FeaturesView, model: Model, session: u8) -> Seq<ItemView> {
    seq![
        submenu_v("VT keyboard language"@, Menu::VtLanguage),
        when_v(submenu_v("PC keyboard language"@, Menu::VtLanguage), false),
        unavailable_v("Define key..."@),
        unavailable_v("Save key definitions"@),
        unavailable_v("Recall key definitions"@),
        check_v("Lock key definitions"@, f.general.udk_locked, MenuSetting::Toggle(Flag::UdkLocked)),
        submenu_v("Caps lock function"@, Menu::CapsLock),
        submenu_v("Keyclick volume"@, Menu::Keyclick),
        submenu_v("Warning bell volume"@, Menu::WarningBell),
        submenu_v("Margin bell volume"@, Menu::MarginBell),
        submenu_v("Keyboard encoding"@, Menu::Encoding),
        submenu_v("Auto repeat"@, Menu::AutoRepeat),
        check_v("Data processing keys"@, f.keys.data_processing_keys, MenuSetting::Toggle(Flag::DataProcessingKeys)),
        check_v("Application cursor keys"@, f.general.cursor_keys_application, MenuSetting::Toggle(Flag::CursorKeysApplication)),
        check_v("Application keypad mode"@, f.general.keypad_application, MenuSetting::Toggle(Flag::KeypadApplication)),
        fixed_v("Map PC keyboard to VT"@, false),
        fixed_v("Ignore missing keyboard"@, false),
    ]
}

#[verifier::spinoff_prover]
fn menu_keyboard(f: &Features, model: Model, session: u8) -> (r: Vec<MenuItem>)
    ensures
        r@.map_values(|i: MenuItem| i@) == items_keyboard(f@, model, session),
{
    let mut v: Vec<MenuItem> = Vec::new();
    v.push(submenu("VT keyboard language", Menu::VtLanguage));
    v.push(when(submenu("PC keyboard language", Menu::VtLanguage), false));
    v.push(unavailable("Define key..."));
    v.push(unavailable("Save key definitions"));
    v.push(unavailable("Recall key definitions"));
    v.push(check("Lock key definitions", f.udk_locked, MenuSetting::Toggle(Flag::UdkLocked)));
    v.push(submenu("Caps lock function", Menu::CapsLock));
    v.push(submenu("Keyclick volume", Menu::Keyclick));
    v.push(submenu("Warning bell volume", Menu::WarningBell));
    v.push(submenu("Margin bell volume", Menu::MarginBell));
    v.push(submenu("Keyboard encoding", Menu::Encoding));
    v.push(submenu("Auto repeat", Menu::AutoRepeat));
    v.push(check("Data processing keys", f.data_processing_keys, MenuSetting::Toggle(Flag::DataProcessingKeys)));
    v.push(check("Application cursor keys", f.cursor_keys_application, MenuSetting::Toggle(Flag::CursorKeysApplication)));
    v.push(check("Application keypad mode", f.keypad_application, MenuSetting::Toggle(Flag::KeypadApplication)));
    v.push(fixed("Map PC keyboard to VT", false));
    v.push(fixed("Ignore missing keyboard", false));
    assert(v@.map_values(|i: MenuItem| i@) =~= items_keyboard(f@, model, session));
    v
}

/// The items of the VtLanguage menu.
pub open spec fn items_vt_language(f: FeaturesView, model: Model, session: u8) -> Seq<ItemView> {
    seq![
        radio_v("North American"@, (f.layout.keyboard_language is None), MenuSetting::Keyboard(None)),
        radio_v("British"@, (f.layout.keyboard_language == Some(Nrc::British)), MenuSetting::Keyboard(Some(Nrc::British))),
        radio_v("Dutch"@, (f.layout.keyboard_language == Some(Nrc::Dutch)), MenuSetting::Keyboard(Some(Nrc::Dutch))),
        radio_v("Finnish"@, (f.layout.keyboard_language == Some(Nrc::Finnish)), MenuSetting::Keyboard(Some(Nrc::Finnish))),
        radio_v("French/Belgian"@, (f.layout.keyboard_language == Some(Nrc::French)), MenuSetting::Keyboard(Some(Nrc::French))),
        radio_v("Canadian (French)"@, (f.layout.keyboard_language == Some(Nrc::FrenchCanadian)), MenuSetting::Keyboard(Some(Nrc::FrenchCanadian))),
        radio_v("German"@, (f.layout.keyboard_language == Some(Nrc::German)), MenuSetting::Keyboard(Some(Nrc::German))),
        radio_v("Italian"@, (f.layout.keyboard_language == Some(Nrc::Italian)), MenuSetting::Keyboard(Some(Nrc::Italian))),
        radio_v("Norwegian/Danish"@, (f.layout.keyboard_language == Some(Nrc::NorwegianDanish)), MenuSetting::Keyboard(Some(Nrc::NorwegianDanish))),
        radio_v("Portuguese"@, (f.layout.keyboard_language == Some(Nrc::Portuguese)), MenuSetting::Keyboard(Some(Nrc::Portuguese))),
        radio_v("Spanish"@, (f.layout.keyboard_language == Some(Nrc::Spanish)), MenuSetting::Keyboard(Some(Nrc::Spanish))),
        radio_v("Swedish"@, (f.layout.keyboard_language == Some(Nrc::Swedish)), MenuSetting::Keyboard(Some(Nrc::Swedish))),
        radio_v("Swiss"@, (f.layout.keyboard_language == Some(Nrc::Swiss)), MenuSetting::Keyboard(Some(Nrc::Swiss))),
    ]
}

#[verifier::spinoff_prover]
fn menu_vt_language(f: &Features, model: Model, session: u8) -> (r: Vec<MenuItem>)
    ensures
        r@.map_values(|i: MenuItem| i@) == items_vt_language(f@, model, session),
{
    let mut v: Vec<MenuItem> = Vec::new();
    v.push(radio("North American", lang_is(f.keyboard_language, None), MenuSetting::Keyboard(None)));
    v.push(radio("British", lang_is(f.keyboard_language, Some(Nrc::British)), MenuSetting::Keyboard(Some(Nrc::British))));
    v.push(radio("Dutch", lang_is(f.keyboard_language, Some(Nrc::Dutch)), MenuSetting::Keyboard(Some(Nrc::Dutch))));
    v.push(radio("Finnish", lang_is(f.keyboard_language, Some(Nrc::Finnish)), MenuSetting::Keyboard(Some(Nrc::Finnish))));
    v.push(radio("French/Belgian", lang_is(f.keyboard_language, Some(Nrc::French)), MenuSetting::Keyboard(Some(Nrc::French))));
    v.push(radio("Canadian (French)", lang_is(f.keyboard_language, Some(Nrc::FrenchCanadian)), MenuSetting::Keyboard(Some(Nrc::FrenchCanadian))));
    v.push(radio("German", lang_is(f.keyboard_language, Some(Nrc::German)), MenuSetting::Keyboard(Some(Nrc::German))));
    v.push(radio("Italian", lang_is(f.keyboard_language, Some(Nrc::Italian)), MenuSetting::Keyboard(Some(Nrc::Italian))));
    v.push(radio("Norwegian/Danish", lang_is(f.keyboard_language, Some(Nrc::NorwegianDanish)), MenuSetting::Keyboard(Some(Nrc::NorwegianDanish))));
    v.push(radio("Portuguese", lang_is(f.keyboard_language, Some(Nrc::Portuguese)), MenuSetting::Keyboard(Some(Nrc::Portuguese))));
    v.push(radio("Spanish", lang_is(f.keyboard_language, Some(Nrc::Spanish)), MenuSetting::Keyboard(Some(Nrc::Spanish))));
    v.push(radio("Swedish", lang_is(f.keyboard_language, Some(Nrc::Swedish)), MenuSetting::Keyboard(Some(Nrc::Swedish))));
    v.push(radio("Swiss", lang_is(f.keyboard_language, Some(Nrc::Swiss)), MenuSetting::Keyboard(Some(Nrc::Swiss))));
    assert(v@.map_values(|i: MenuItem| i@) =~= items_vt_language(f@, model, session));
    v
}

/// The items of the CapsLock menu.
pub open spec fn items_caps_lock(f: FeaturesView, model: Model, session: u8) -> Seq<ItemView> {
    seq![
        radio_v("Caps lock"@, !f.keys.shift_lock, MenuSetting::ShiftLock(false)),
        radio_v("Shift lock"@, f.keys.shift_lock, MenuSetting::ShiftLock(true)),
        when_v(radio_v("Reverse lock"@, false, MenuSetting::Nothing), false),
    ]
}

#[verifier::spinoff_prover]
fn menu_caps_lock(f: &Features, model: Model, session: u8) -> (r: Vec<MenuItem>)
    ensures
        r@.map_values(|i: MenuItem| i@) == items_caps_lock(f@, model, session),
{
    let mut v: Vec<MenuItem> = Vec::new();
    v.push(radio("Caps lock", !f.shift_lock, MenuSetting::ShiftLock(false)));
    v.push(radio("Shift lock", f.shift_lock, MenuSetting::ShiftLock(true)));
    v.push(when(radio("Reverse lock", false, MenuSetting::Nothing), false));
    assert(v@.map_values(|i: MenuItem| i@) =~= items_caps_lock(f@, model, session));
    v
}

/// The items of the Keyclick menu.
pub open spec fn items_keyclick(f: FeaturesView, model: Model, session: u8) -> Seq<ItemView> {
    seq![
        radio_v("High"@, f.keys.keyclick == Volume::High, MenuSetting::Keyclick(Volume::High)),
        radio_v("Low"@, f.keys.keyclick == Volume::Low, MenuSetting::Keyclick(Volume::Low)),
        radio_v("Off"@, f.keys.keyclick == Volume::Off, MenuSetting::Keyclick(Volume::Off)),
    ]
}

#[verifier::spinoff_prover]
fn menu_keyclick(f: &Features, model: Model, session: u8) -> (r: Vec<MenuItem>)
    ensures
        r@.map_values(|i: MenuItem| i@) == items_keyclick(f@, model, session),
{
    let mut v: Vec<MenuItem> = Vec::new();
    v.push(radio("High", f.keyclick == Volume::High, MenuSetting::Keyclick(Volume::High)));
    v.push(radio("Low", f.keyclick == Volume::Low, MenuSetting::Keyclick(Volume::Low)));
    v.push(radio("Off", f.keyclick == Volume::Off, MenuSetting::Keyclick(Volume::Off)));
    assert(v@.map_values(|i: MenuItem| i@) =~= items_keyclick(f@, model, session));
    v
}

/// The items of the WarningBell menu.
pub open spec fn items_warning_bell(f: FeaturesView, model: Model, session: u8) -> Seq<ItemView> {
    seq![
        radio_v("High"@, f.keys.warning_bell == Volume::High, MenuSetting::WarningBell(Volume::High)),
        radio_v("Low"@, f.keys.warning_bell == Volume::Low, MenuSetting::WarningBell(Volume::Low)),
        radio_v("Off"@, f.keys.warning_bell == Volume::Off, MenuSetting::WarningBell(Volume::Off)),
    ]
}

#[verifier::spinoff_prover]
fn menu_warning_bell(f: &Features, model: Model, session: u8) -> (r: Vec<MenuItem>)
    ensures
        r@.map_values(|i: MenuItem| i@) == items_warning_bell(f@, model, session),
{
    let mut v: Vec<MenuItem> = Vec::new();
    v.push(radio("High", f.warning_bell == Volume::High, MenuSetting::WarningBell(Volume::High)));
    v.push(radio("Low", f.warning_bell == Volume::Low, MenuSetting::WarningBell(Volume::Low)));
    v.push(radio("Off", f.warning_bell == Volume::Off, MenuSetting::WarningBell(Volume::Off)));
    assert(v@.map_values(|i: MenuItem| i@) =~= items_warning_bell(f@, model, session));
    v
}

/// The items of the MarginBell menu.
pub open spec fn items_margin_bell(f: FeaturesView, model: Model, session: u8) -> Seq<ItemView> {
    seq![
        radio_v("High"@, f.keys.margin_bell == Volume::High, MenuSetting::MarginBell(Volume::High)),
        radio_v("Low"@, f.keys.margin_bell == Volume::Low, MenuSetting::MarginBell(Volume::Low)),
        radio_v("Off"@, f.keys.margin_bell == Volume::Off, MenuSetting::MarginBell(Volume::Off)),
    ]
}

#[verifier::spinoff_prover]
fn menu_margin_bell(f: &Features, model: Model, session: u8) -> (r: Vec<MenuItem>)
    ensures
        r@.map_values(|i: MenuItem| i@) == items_margin_bell(f@, model, session),
{
    let mut v: Vec<MenuItem> = Vec::new();
    v.push(radio("High", f.margin_bell == Volume::High, MenuSetting::MarginBell(Volume::High)));
    v.push(radio("Low", f.margin_bell == Volume::Low, MenuSetting::MarginBell(Volume::Low)));
    v.push(radio("Off", f.margin_bell == Volume::Off, MenuSetting::MarginBell(Volume::Off)));
    assert(v@.map_values(|i: MenuItem| i@) =~= items_margin_bell(f@, model, session));
    v
}

/// The items of the Encoding menu.
pub open spec fn items_encoding(f: FeaturesView, model: Model, session: u8) -> Seq<ItemView> {
    seq![
        radio_v("Character (ASCII)"@, !f.keys.position_mode, MenuSetting::PositionMode(false)),
        when_v(radio_v("Scancode"@, false, MenuSetting::Nothing), false),
        radio_v("Key position"@, f.keys.position_mode, MenuSetting::PositionMode(true)),
    ]
}

#[verifier::spinoff_prover]
fn menu_encoding(f: &Features, model: Model, session: u8) -> (r: Vec<MenuItem>)
    ensures
        r@.map_values(|i: MenuItem| i@) == items_encoding(f@, model, session),
{
    let mut v: Vec<MenuItem> = Vec::new();
    v.push(radio("Character (ASCII)", !f.position_mode, MenuSetting::PositionMode(false)));
    v.push(when(radio("Scancode", false, MenuSetting::Nothing), false));
    v.push(radio("Key position", f.position_mode, MenuSetting::PositionMode(true)));
    assert(v@.map_values(|i: MenuItem| i@) =~= items_encoding(f@, model, session));
    v
}

/// The items of the AutoRepeat menu.
pub open spec fn items_auto_repeat(f: FeaturesView, model: Model, session: u8) -> Seq<ItemView> {
    seq![
        radio_v("Fast (30/sec)"@, f.keys.auto_repeat && f.keys.auto_repeat_rate == 30u8, MenuSetting::AutoRepeat(Some(30u8))),
        radio_v("Slow (10/sec)"@, f.keys.auto_repeat && f.keys.auto_repeat_rate == 10u8, MenuSetting::AutoRepeat(Some(10u8))),
        radio_v("Off"@, !f.keys.auto_repeat, MenuSetting::AutoRepeat(None)),
    ]
}

#[verifier::spinoff_prover]
fn menu_auto_repeat(f: &Features, model: Model, session: u8) -> (r: Vec<MenuItem>)
    ensures
        r@.map_values(|i: MenuItem| i@) == items_auto_repeat(f@, model, session),
{
    let mut v: Vec<MenuItem> = Vec::new();
    v.push(radio("Fast (30/sec)", f.auto_repeat && f.auto_repeat_rate == 30u8, MenuSetting::AutoRepeat(Some(30u8))));
    v.push(radio("Slow (10/sec)", f.auto_repeat && f.auto_repeat_rate == 10u8, MenuSetting::AutoRepeat(Some(10u8))));
    v.push(radio("Off", !f.auto_repeat, MenuSetting::AutoRepeat(None)));
    assert(v@.map_values(|i: MenuItem| i@) =~= items_auto_repeat(f@, model, session));
    v
}

/// The items of the Communication menu.
pub open spec fn items_communication(f: FeaturesView, model: Model, session: u8) -> Seq<ItemView> {
    seq![
        unavailable_v("Port select..."@),
        submenu_v("Word size"@, Menu::WordSize),
        submenu_v("Parity"@, Menu::Parity),
        submenu_v("Stop bits"@, Menu::StopBits),
        submenu_v("Transmit speed"@, Menu::TransmitSpeed),
        submenu_v("Receive speed"@, Menu::ReceiveSpeed),
        submenu_v("Transmit flow control"@, Menu::TransmitFlow),
        submenu_v("Receive flow control"@, Menu::ReceiveFlow),
        submenu_v("Flow control threshold"@, Menu::Threshold),
        submenu_v("Transmit rate limit"@, Menu::TransmitRate),
        submenu_v("Fkey rate limit"@, Menu::FkeyRate),
        check_v("Ignore Null character"@, f.modem.ignore_null, MenuSetting::Toggle(Flag::IgnoreNull)),
        check_v("Local echo"@, f.modem.local_echo, MenuSetting::Toggle(Flag::LocalEcho)),
        check_v("Half duplex"@, f.modem.half_duplex, MenuSetting::Toggle(Flag::HalfDuplex)),
        check_v("Auto answerback"@, f.modem.auto_answerback, MenuSetting::Toggle(Flag::AutoAnswerback)),
        cmd_v("Answerback message..."@, Command::Answerback),
        check_v("Answerback concealed"@, f.modem.conceal_answerback, MenuSetting::ConcealAnswerback),
    ]
}

#[verifier::spinoff_prover]
fn menu_communication(f: &Features, model: Model, session: u8) -> (r: Vec<MenuItem>)
    ensures
        r@.map_values(|i: MenuItem| i@) == items_communication(f@, model, session),
{
    let mut v: Vec<MenuItem> = Vec::new();
    v.push(unavailable("Port select..."));
    v.push(submenu("Word size", Menu::WordSize));
    v.push(submenu("Parity", Menu::Parity));
    v.push(submenu("Stop bits", Menu::StopBits));
    v.push(submenu("Transmit speed", Menu::TransmitSpeed));
    v.push(submenu("Receive speed", Menu::ReceiveSpeed));
    v.push(submenu("Transmit flow control", Menu::TransmitFlow));
    v.push(submenu("Receive flow control", Menu::ReceiveFlow));
    v.push(submenu("Flow control threshold", Menu::Threshold));
    v.push(submenu("Transmit rate limit", Menu::TransmitRate));
    v.push(submenu("Fkey rate limit", Menu::FkeyRate));
    v.push(check("Ignore Null character", f.ignore_null, MenuSetting::Toggle(Flag::IgnoreNull)));
    v.push(check("Local echo", f.local_echo, MenuSetting::Toggle(Flag::LocalEcho)));
    v.push(check("Half duplex", f.half_duplex, MenuSetting::Toggle(Flag::HalfDuplex)));
    v.push(check("Auto answerback", f.auto_answerback, MenuSetting::Toggle(Flag::AutoAnswerback)));
    v.push(cmd("Answerback message...", Command::Answerback));
    v.push(check("Answerback concealed", f.conceal_answerback, MenuSetting::ConcealAnswerback));
    assert(v@.map_values(|i: MenuItem| i@) =~= items_communication(f@, model, session));
    v
}

/// The items of the WordSize menu.
pub open spec fn items_word_size(f: FeaturesView, model: Model, session: u8) -> Seq<ItemView> {
    seq![
        radio_v("8 bits"@, !f.line.seven_bit_data, MenuSetting::SevenBitData(false)),
        radio_v("7 bits"@, f.line.seven_bit_data, MenuSetting::SevenBitData(true)),
    ]
}

#[verifier::spinoff_prover]
fn menu_word_size(f: &Features, model: Model, session: u8) -> (r: Vec<MenuItem>)
    ensures
        r@.map_values(|i: MenuItem| i@) == items_word_size(f@, model, session),
{
    let mut v: Vec<MenuItem> = Vec::new();
    v.push(radio("8 bits", !f.seven_bit_data, MenuSetting::SevenBitData(false)));
    v.push(radio("7 bits", f.seven_bit_data, MenuSetting::SevenBitData(true)));
    assert(v@.map_values(|i: MenuItem| i@) =~= items_word_size(f@, model, session));
    v
}

/// The items of the Parity menu.
pub open spec fn items_parity(f: FeaturesView, model: Model, session: u8) -> Seq<ItemView> {
    seq![
        radio_v("None"@, f.line.parity == Parity::NoParity, MenuSetting::Parity(Parity::NoParity)),
        radio_v("Even"@, f.line.parity == Parity::Even, MenuSetting::Parity(Parity::Even)),
        radio_v("Odd"@, f.line.parity == Parity::Odd, MenuSetting::Parity(Parity::Odd)),
        radio_v("Even, unchecked"@, f.line.parity == Parity::EvenUnchecked, MenuSetting::Parity(Parity::EvenUnchecked)),
        radio_v("Odd, unchecked"@, f.line.parity == Parity::OddUnchecked, MenuSetting::Parity(Parity::OddUnchecked)),
        radio_v("Mark"@, f.line.parity == Parity::Mark, MenuSetting::Parity(Parity::Mark)),
        radio_v("Space"@, f.line.parity == Parity::Space, MenuSetting::Parity(Parity::Space)),
    ]
}

#[verifier::spinoff_prover]
fn menu_parity(f: &Features, model: Model, session: u8) -> (r: Vec<MenuItem>)
    ensures
        r@.map_values(|i: MenuItem| i@) == items_parity(f@, model, session),
{
    let mut v: Vec<MenuItem> = Vec::new();
    v.push(radio("None", f.parity == Parity::NoParity, MenuSetting::Parity(Parity::NoParity)));
    v.push(radio("Even", f.parity == Parity::Even, MenuSetting::Parity(Parity::Even)));
    v.push(radio("Odd", f.parity == Parity::Odd, MenuSetting::Parity(Parity::Odd)));
    v.push(radio("Even, unchecked", f.parity == Parity::EvenUnchecked, MenuSetting::Parity(Parity::EvenUnchecked)));
    v.push(radio("Odd, unchecked", f.parity == Parity::OddUnchecked, MenuSetting::Parity(Parity::OddUnchecked)));
    v.push(radio("Mark", f.parity == Parity::Mark, MenuSetting::Parity(Parity::Mark)));
    v.push(radio("Space", f.parity == Parity::Space, MenuSetting::Parity(Parity::Space)));
    assert(v@.map_values(|i: MenuItem| i@) =~= items_parity(f@, model, session));
    v
}

/// The items of the StopBits menu.
pub open spec fn items_stop_bits(f: FeaturesView, model: Model, session: u8) -> Seq<ItemView> {
    seq![
        radio_v("1 bit"@, !f.line.two_stop_bits, MenuSetting::TwoStopBits(false)),
        radio_v("2 bits"@, f.line.two_stop_bits, MenuSetting::TwoStopBits(true)),
    ]
}

#[verifier::spinoff_prover]
fn menu_stop_bits(f: &Features, model: Model, session: u8) -> (r: Vec<MenuItem>)
    ensures
        r@.map_values(|i: MenuItem| i@) == items_stop_bits(f@, model, session),
{
    let mut v: Vec<MenuItem> = Vec::new();
    v.push(radio("1 bit", !f.two_stop_bits, MenuSetting::TwoStopBits(false)));
    v.push(radio("2 bits", f.two_stop_bits, MenuSetting::TwoStopBits(true)));
    assert(v@.map_values(|i: MenuItem| i@) =~= items_stop_bits(f@, model, session));
    v
}

/// The items of the TransmitSpeed menu.
pub open spec fn items_transmit_speed(f: FeaturesView, model: Model, session: u8) -> Seq<ItemView> {
    if max_level(model) >= 5 {
        seq![
            radio_v("115.2K baud"@, f.line.transmit_speed == 115200u32, MenuSetting::TransmitSpeed(115200u32)),
            radio_v(" 76.8K baud"@, f.line.transmit_speed == 76800u32, MenuSetting::TransmitSpeed(76800u32)),
            radio_v(" 57.6K baud"@, f.line.transmit_speed == 57600u32, MenuSetting::TransmitSpeed(57600u32)),
            radio_v(" 38.4K baud"@, f.line.transmit_speed == 38400u32, MenuSetting::TransmitSpeed(38400u32)),
            radio_v(" 19.2K baud"@, f.line.transmit_speed == 19200u32, MenuSetting::TransmitSpeed(19200u32)),
            radio_v("  9600 baud"@, f.line.transmit_speed == 9600u32, MenuSetting::TransmitSpeed(9600u32)),
            radio_v("  4800 baud"@, f.line.transmit_speed == 4800u32, MenuSetting::TransmitSpeed(4800u32)),
            radio_v("  2400 baud"@, f.line.transmit_speed == 2400u32, MenuSetting::TransmitSpeed(2400u32)),
            radio_v("  1200 baud"@, f.line.transmit_speed == 1200u32, MenuSetting::TransmitSpeed(1200u32)),
            radio_v("   600 baud"@, f.line.transmit_speed == 600u32, MenuSetting::TransmitSpeed(600u32)),
            radio_v("   300 baud"@, f.line.transmit_speed == 300u32, MenuSetting::TransmitSpeed(300u32)),
        ]
    } else {
        seq![
            radio_v(" 38.4K baud"@, f.line.transmit_speed == 38400u32, MenuSetting::TransmitSpeed(38400u32)),
            radio_v(" 19.2K baud"@, f.line.transmit_speed == 19200u32, MenuSetting::TransmitSpeed(19200u32)),
            radio_v("  9600 baud"@, f.line.transmit_speed == 9600u32, MenuSetting::TransmitSpeed(9600u32)),
            radio_v("  4800 baud"@, f.line.transmit_speed == 4800u32, MenuSetting::TransmitSpeed(4800u32)),
            radio_v("  2400 baud"@, f.line.transmit_speed == 2400u32, MenuSetting::TransmitSpeed(2400u32)),
            radio_v("  1200 baud"@, f.line.transmit_speed == 1200u32, MenuSetting::TransmitSpeed(1200u32)),
            radio_v("   600 baud"@, f.line.transmit_speed == 600u32, MenuSetting::TransmitSpeed(600u32)),
            radio_v("   300 baud"@, f.line.transmit_speed == 300u32, MenuSetting::TransmitSpeed(300u32)),
        ]
    }
}

#[verifier::spinoff_prover]
fn menu_transmit_speed(f: &Features, model: Model, session: u8) -> (r: Vec<MenuItem>)
    ensures
        r@.map_values(|i: MenuItem| i@) == items_transmit_speed(f@, model, session),
{
    let mut v: Vec<MenuItem> = Vec::new();
    if model.max_level() >= 5 {
        v.push(radio("115.2K baud", f.transmit_speed == 115200u32, MenuSetting::TransmitSpeed(115200u32)));
        v.push(radio(" 76.8K baud", f.transmit_speed == 76800u32, MenuSetting::TransmitSpeed(76800u32)));
        v.push(radio(" 57.6K baud", f.transmit_speed == 57600u32, MenuSetting::TransmitSpeed(57600u32)));
        v.push(radio(" 38.4K baud", f.transmit_speed == 38400u32, MenuSetting::TransmitSpeed(38400u32)));
        v.push(radio(" 19.2K baud", f.transmit_speed == 19200u32, MenuSetting::TransmitSpeed(19200u32)));
        v.push(radio("  9600 baud", f.transmit_speed == 9600u32, MenuSetting::TransmitSpeed(9600u32)));
        v.push(radio("  4800 baud", f.transmit_speed == 4800u32, MenuSetting::TransmitSpeed(4800u32)));
        v.push(radio("  2400 baud", f.transmit_speed == 2400u32, MenuSetting::TransmitSpeed(2400u32)));
        v.push(radio("  1200 baud", f.transmit_speed == 1200u32, MenuSetting::TransmitSpeed(1200u32)));
        v.push(radio("   600 baud", f.transmit_speed == 600u32, MenuSetting::TransmitSpeed(600u32)));
        v.push(radio("   300 baud", f.transmit_speed == 300u32, MenuSetting::TransmitSpeed(300u32)));
    } else {
        v.push(radio(" 38.4K baud", f.transmit_speed == 38400u32, MenuSetting::TransmitSpeed(38400u32)));
        v.push(radio(" 19.2K baud", f.transmit_speed == 19200u32, MenuSetting::TransmitSpeed(19200u32)));
        v.push(radio("  9600 baud", f.transmit_speed == 9600u32, MenuSetting::TransmitSpeed(9600u32)));
        v.push(radio("  4800 baud", f.transmit_speed == 4800u32, MenuSetting::TransmitSpeed(4800u32)));
        v.push(radio("  2400 baud", f.transmit_speed == 2400u32, MenuSetting::TransmitSpeed(2400u32)));
        v.push(radio("  1200 baud", f.transmit_speed == 1200u32, MenuSetting::TransmitSpeed(1200u32)));
        v.push(radio("   600 baud", f.transmit_speed == 600u32, MenuSetting::TransmitSpeed(600u32)));
        v.push(radio("   300 baud", f.transmit_speed == 300u32, MenuSetting::TransmitSpeed(300u32)));
    }
    assert(v@.map_values(|i: MenuItem| i@) =~= items_transmit_speed(f@, model, session));
    v
}

/// The items of the ReceiveSpeed menu.
pub open spec fn items_receive_speed(f: FeaturesView, model: Model, session: u8) -> Seq<ItemView> {
    if max_level(model) >= 5 {
        seq![
            radio_v("Transmit speed"@, (f.line.receive_speed is None), MenuSetting::ReceiveSpeed(None)),
            radio_v("115.2K baud"@, (f.line.receive_speed == Some(115200u32)), MenuSetting::ReceiveSpeed(Some(115200u32))),
            radio_v(" 76.8K baud"@, (f.line.receive_speed == Some(76800u32)), MenuSetting::ReceiveSpeed(Some(76800u32))),
            radio_v(" 57.6K baud"@, (f.line.receive_speed == Some(57600u32)), MenuSetting::ReceiveSpeed(Some(57600u32))),
            radio_v(" 38.4K baud"@, (f.line.receive_speed == Some(38400u32)), MenuSetting::ReceiveSpeed(Some(38400u32))),
            radio_v(" 19.2K baud"@, (f.line.receive_speed == Some(19200u32)), MenuSetting::ReceiveSpeed(Some(19200u32))),
            radio_v("  9600 baud"@, (f.line.receive_speed == Some(9600u32)), MenuSetting::ReceiveSpeed(Some(9600u32))),
            radio_v("  4800 baud"@, (f.line.receive_speed == Some(4800u32)), MenuSetting::ReceiveSpeed(Some(4800u32))),
            radio_v("  2400 baud"@, (f.line.receive_speed == Some(2400u32)), MenuSetting::ReceiveSpeed(Some(2400u32))),
            radio_v("  1200 baud"@, (f.line.receive_speed == Some(1200u32)), MenuSetting::ReceiveSpeed(Some(1200u32))),
            radio_v("   600 baud"@, (f.line.receive_speed == Some(600u32)), MenuSetting::ReceiveSpeed(Some(600u32))),
            radio_v("   300 baud"@, (f.line.receive_speed == Some(300u32)), MenuSetting::ReceiveSpeed(Some(300u32))),
        ]
    } else {
        seq![
            radio_v("Transmit speed"@, (f.line.receive_speed is None), MenuSetting::ReceiveSpeed(None)),
            radio_v(" 38.4K baud"@, (f.line.receive_speed == Some(38400u32)), MenuSetting::ReceiveSpeed(Some(38400u32))),
            radio_v(" 19.2K baud"@, (f.line.receive_speed == Some(19200u32)), MenuSetting::ReceiveSpeed(Some(19200u32))),
            radio_v("  9600 baud"@, (f.line.receive_speed == Some(9600u32)), MenuSetting::ReceiveSpeed(Some(9600u32))),
            radio_v("  4800 baud"@, (f.line.receive_speed == Some(4800u32)), MenuSetting::ReceiveSpeed(Some(4800u32))),
            radio_v("  2400 baud"@, (f.line.receive_speed == Some(2400u32)), MenuSetting::ReceiveSpeed(Some(2400u32))),
            radio_v("  1200 baud"@, (f.line.receive_speed == Some(1200u32)), MenuSetting::ReceiveSpeed(Some(1200u32))),
            radio_v("   600 baud"@, (f.line.receive_speed == Some(600u32)), MenuSetting::ReceiveSpeed(Some(600u32))),
            radio_v("   300 baud"@, (f.line.receive_speed == Some(300u32)), MenuSetting::ReceiveSpeed(Some(300u32))),
        ]
    }
}

#[verifier::spinoff_prover]
fn menu_receive_speed(f: &Features, model: Model, session: u8) -> (r: Vec<MenuItem>)
    ensures
        r@.map_values(|i: MenuItem| i@) == items_receive_speed(f@, model, session),
{
    let mut v: Vec<MenuItem> = Vec::new();
    if model.max_level() >= 5 {
        v.push(radio("Transmit speed", f.receive_speed.is_none(), MenuSetting::ReceiveSpeed(None)));
        v.push(radio("115.2K baud", opt_is(f.receive_speed, 115200u32), MenuSetting::ReceiveSpeed(Some(115200u32))));
        v.push(radio(" 76.8K baud", opt_is(f.receive_speed, 76800u32), MenuSetting::ReceiveSpeed(Some(76800u32))));
        v.push(radio(" 57.6K baud", opt_is(f.receive_speed, 57600u32), MenuSetting::ReceiveSpeed(Some(57600u32))));
        v.push(radio(" 38.4K baud", opt_is(f.receive_speed, 38400u32), MenuSetting::ReceiveSpeed(Some(38400u32))));
        v.push(radio(" 19.2K baud", opt_is(f.receive_speed, 19200u32), MenuSetting::ReceiveSpeed(Some(19200u32))));
        v.push(radio("  9600 baud", opt_is(f.receive_speed, 9600u32), MenuSetting::ReceiveSpeed(Some(9600u32))));
        v.push(radio("  4800 baud", opt_is(f.receive_speed, 4800u32), MenuSetting::ReceiveSpeed(Some(4800u32))));
        v.push(radio("  2400 baud", opt_is(f.receive_speed, 2400u32), MenuSetting::ReceiveSpeed(Some(2400u32))));
        v.push(radio("  1200 baud", opt_is(f.receive_speed, 1200u32), MenuSetting::ReceiveSpeed(Some(1200u32))));
        v.push(radio("   600 baud", opt_is(f.receive_speed, 600u32), MenuSetting::ReceiveSpeed(Some(600u32))));
        v.push(radio("   300 baud", opt_is(f.receive_speed, 300u32), MenuSetting::ReceiveSpeed(Some(300u32))));
    } else {
        v.push(radio("Transmit speed", f.receive_speed.is_none(), MenuSetting::ReceiveSpeed(None)));
        v.push(radio(" 38.4K baud", opt_is(f.receive_speed, 38400u32), MenuSetting::ReceiveSpeed(Some(38400u32))));
        v.push(radio(" 19.2K baud", opt_is(f.receive_speed, 19200u32), MenuSetting::ReceiveSpeed(Some(19200u32))));
        v.push(radio("  9600 baud", opt_is(f.receive_speed, 9600u32), MenuSetting::ReceiveSpeed(Some(9600u32))));
        v.push(radio("  4800 baud", opt_is(f.receive_speed, 4800u32), MenuSetting::ReceiveSpeed(Some(4800u32))));
        v.push(radio("  2400 baud", opt_is(f.receive_speed, 2400u32), MenuSetting::ReceiveSpeed(Some(2400u32))));
        v.push(radio("  1200 baud", opt_is(f.receive_speed, 1200u32), MenuSetting::ReceiveSpeed(Some(1200u32))));
        v.push(radio("   600 baud", opt_is(f.receive_speed, 600u32), MenuSetting::ReceiveSpeed(Some(600u32))));
        v.push(radio("   300 baud", opt_is(f.receive_speed, 300u32), MenuSetting::ReceiveSpeed(Some(300u32))));
    }
    assert(v@.map_values(|i: MenuItem| i@) =~= items_receive_speed(f@, model, session));
    v
}

/// The items of the TransmitFlow menu.
pub open spec fn items_transmit_flow(f: FeaturesView, model: Model, session: u8) -> Seq<ItemView> {
    seq![
        radio_v("None"@, f.line.transmit_flow == 0u8, MenuSetting::TransmitFlow(0u8)),
        radio_v("XON/XOFF"@, f.line.transmit_flow == 1u8, MenuSetting::TransmitFlow(1u8)),
        radio_v("DSR"@, f.line.transmit_flow == 2u8, MenuSetting::TransmitFlow(2u8)),
        radio_v("Both"@, f.line.transmit_flow == 3u8, MenuSetting::TransmitFlow(3u8)),
    ]
}

#[verifier::spinoff_prover]
fn menu_transmit_flow(f: &Features, model: Model, session: u8) -> (r: Vec<MenuItem>)
    ensures
        r@.map_values(|i: MenuItem| i@) == items_transmit_flow(f@, model, session),
{
    let mut v: Vec<MenuItem> = Vec::new();
    v.push(radio("None", f.transmit_flow == 0u8, MenuSetting::TransmitFlow(0u8)));
    v.push(radio("XON/XOFF", f.transmit_flow == 1u8, MenuSetting::TransmitFlow(1u8)));
    v.push(radio("DSR", f.transmit_flow == 2u8, MenuSetting::TransmitFlow(2u8)));
    v.push(radio("Both", f.transmit_flow == 3u8, MenuSetting::TransmitFlow(3u8)));
    assert(v@.map_values(|i: MenuItem| i@) =~= items_transmit_flow(f@, model, session));
    v
}

/// The items of the ReceiveFlow menu.
pub open spec fn items_receive_flow(f: FeaturesView, model: Model, session: u8) -> Seq<ItemView> {
    seq![
        radio_v("None"@, f.line.receive_flow == 0u8, MenuSetting::ReceiveFlow(0u8)),
        radio_v("XON/XOFF or XPC"@, f.line.receive_flow == 1u8, MenuSetting::ReceiveFlow(1u8)),
        radio_v("DTR"@, f.line.receive_flow == 2u8, MenuSetting::ReceiveFlow(2u8)),
        radio_v("Both"@, f.line.receive_flow == 3u8, MenuSetting::ReceiveFlow(3u8)),
    ]
}

#[verifier::spinoff_prover]
fn menu_receive_flow(f: &Features, model: Model, session: u8) -> (r: Vec<MenuItem>)
    ensures
        r@.map_values(|i: MenuItem| i@) == items_receive_flow(f@, model, session),
{
    let mut v: Vec<MenuItem> = Vec::new();
    v.push(radio("None", f.receive_flow == 0u8, MenuSetting::ReceiveFlow(0u8)));
    v.push(radio("XON/XOFF or XPC", f.receive_flow == 1u8, MenuSetting::ReceiveFlow(1u8)));
    v.push(radio("DTR", f.receive_flow == 2u8, MenuSetting::ReceiveFlow(2u8)));
    v.push(radio("Both", f.receive_flow == 3u8, MenuSetting::ReceiveFlow(3u8)));
    assert(v@.map_values(|i: MenuItem| i@) =~= items_receive_flow(f@, model, session));
    v
}

/// The items of the Threshold menu.
pub open spec fn items_threshold(f: FeaturesView, model: Model, session: u8) -> Seq<ItemView> {
    seq![
        radio_v("Low (64)"@, !f.line.flow_threshold_high, MenuSetting::ThresholdHigh(false)),
        radio_v("High (768)"@, f.line.flow_threshold_high, MenuSetting::ThresholdHigh(true)),
    ]
}

#[verifier::spinoff_prover]
fn menu_threshold(f: &Features, model: Model, session: u8) -> (r: Vec<MenuItem>)
    ensures
        r@.map_values(|i: MenuItem| i@) == items_threshold(f@, model, session),
{
    let mut v: Vec<MenuItem> = Vec::new();
    v.push(radio("Low (64)", !f.flow_threshold_high, MenuSetting::ThresholdHigh(false)));
    v.push(radio("High (768)", f.flow_threshold_high, MenuSetting::ThresholdHigh(true)));
    assert(v@.map_values(|i: MenuItem| i@) =~= items_threshold(f@, model, session));
    v
}

/// The items of the TransmitRate menu.
pub open spec fn items_transmit_rate(f: FeaturesView, model: Model, session: u8) -> Seq<ItemView> {
    seq![
        radio_v("None"@, !f.modem.limited_transmit, MenuSetting::TransmitRate(0u8)),
        radio_v("150 cps"@, f.modem.limited_transmit && f.line.transmit_rate == 1u8, MenuSetting::TransmitRate(1u8)),
        radio_v(" 50 cps"@, f.modem.limited_transmit && f.line.transmit_rate == 2u8, MenuSetting::TransmitRate(2u8)),
        radio_v(" 30 cps"@, f.modem.limited_transmit && f.line.transmit_rate == 3u8, MenuSetting::TransmitRate(3u8)),
    ]
}

#[verifier::spinoff_prover]
fn menu_transmit_rate(f: &Features, model: Model, session: u8) -> (r: Vec<MenuItem>)
    ensures
        r@.map_values(|i: MenuItem| i@) == items_transmit_rate(f@, model, session),
{
    let mut v: Vec<MenuItem> = Vec::new();
    v.push(radio("None", !f.limited_transmit, MenuSetting::TransmitRate(0u8)));
    v.push(radio("150 cps", f.limited_transmit && f.transmit_rate == 1u8, MenuSetting::TransmitRate(1u8)));
    v.push(radio(" 50 cps", f.limited_transmit && f.transmit_rate == 2u8, MenuSetting::TransmitRate(2u8)));
    v.push(radio(" 30 cps", f.limited_transmit && f.transmit_rate == 3u8, MenuSetting::TransmitRate(3u8)));
    assert(v@.map_values(|i: MenuItem| i@) =~= items_transmit_rate(f@, model, session));
    v
}

/// The items of the FkeyRate menu.
pub open spec fn items_fkey_rate(f: FeaturesView, model: Model, session: u8) -> Seq<ItemView> {
    seq![
        radio_v("None"@, f.line.fkey_rate == 0u8, MenuSetting::FkeyRate(0u8)),
        radio_v("150 cps"@, f.line.fkey_rate == 1u8, MenuSetting::FkeyRate(1u8)),
        radio_v(" 50 cps"@, f.line.fkey_rate == 2u8, MenuSetting::FkeyRate(2u8)),
        radio_v(" 30 cps"@, f.line.fkey_rate == 3u8, MenuSetting::FkeyRate(3u8)),
    ]
}

#[verifier::spinoff_prover]
fn menu_fkey_rate(f: &Features, model: Model, session: u8) -> (r: Vec<MenuItem>)
    ensures
        r@.map_values(|i: MenuItem| i@) == items_fkey_rate(f@, model, session),
{
    let mut v: Vec<MenuItem> = Vec::new();
    v.push(radio("None", f.fkey_rate == 0u8, MenuSetting::FkeyRate(0u8)));
    v.push(radio("150 cps", f.fkey_rate == 1u8, MenuSetting::FkeyRate(1u8)));
    v.push(radio(" 50 cps", f.fkey_rate == 2u8, MenuSetting::FkeyRate(2u8)));
    v.push(radio(" 30 cps", f.fkey_rate == 3u8, MenuSetting::FkeyRate(3u8)));
    assert(v@.map_values(|i: MenuItem| i@) =~= items_fkey_rate(f@, model, session));
    v
}

/// The items of the Modem menu.
pub open spec fn items_modem(f: FeaturesView, model: Model, session: u8) -> Seq<ItemView> {
    seq![
        check_v("Enable modem control"@, f.modem.modem_control, MenuSetting::Toggle(Flag::ModemControl)),
        when_v(submenu_v("Disconnect delay"@, Menu::Disconnect), f.modem.modem_control),
        when_v(submenu_v("Modem high speed"@, Menu::ModemHigh), f.modem.modem_control),
        when_v(submenu_v("Modem low speed"@, Menu::ModemLow), f.modem.modem_control),
    ]
}

#[verifier::spinoff_prover]
fn menu_modem(f: &Features, model: Model, session: u8) -> (r: Vec<MenuItem>)
    ensures
        r@.map_values(|i: MenuItem| i@) == items_modem(f@, model, session),
{
    let mut v: Vec<MenuItem> = Vec::new();
    v.push(check("Enable modem control", f.modem_control, MenuSetting::Toggle(Flag::ModemControl)));
    v.push(when(submenu("Disconnect delay", Menu::Disconnect), f.modem_control));
    v.push(when(submenu("Modem high speed", Menu::ModemHigh), f.modem_control));
    v.push(when(submenu("Modem low speed", Menu::ModemLow), f.modem_control));
    assert(v@.map_values(|i: MenuItem| i@) =~= items_modem(f@, model, session));
    v
}

/// The items of the Disconnect menu.
pub open spec fn items_disconnect(f: FeaturesView, model: Model, session: u8) -> Seq<ItemView> {
    seq![
        radio_v("2 seconds"@, f.modem.disconnect == 0u8, MenuSetting::Disconnect(0u8)),
        radio_v("60 ms"@, f.modem.disconnect == 1u8, MenuSetting::Disconnect(1u8)),
        radio_v("No disconnect"@, f.modem.disconnect == 2u8, MenuSetting::Disconnect(2u8)),
    ]
}

#[verifier::spinoff_prover]
fn menu_disconnect(f: &Features, model: Model, session: u8) -> (r: Vec<MenuItem>)
    ensures
        r@.map_values(|i: MenuItem| i@) == items_disconnect(f@, model, session),
{
    let mut v: Vec<MenuItem> = Vec::new();
    v.push(radio("2 seconds", f.disconnect == 0u8, MenuSetting::Disconnect(0u8)));
    v.push(radio("60 ms", f.disconnect == 1u8, MenuSetting::Disconnect(1u8)));
    v.push(radio("No disconnect", f.disconnect == 2u8, MenuSetting::Disconnect(2u8)));
    assert(v@.map_values(|i: MenuItem| i@) =~= items_disconnect(f@, model, session));
    v
}

/// The items of the ModemHigh menu.
pub open spec fn items_modem_high(f: FeaturesView, model: Model, session: u8) -> Seq<ItemView> {
    if max_level(model) >= 5 {
        seq![
            radio_v("Ignore"@, (f.modem.modem_high_speed is None), MenuSetting::ModemHigh(None)),
            radio_v("115.2K baud"@, (f.modem.modem_high_speed == Some(115200u32)), MenuSetting::ModemHigh(Some(115200u32))),
            radio_v(" 76.8K baud"@, (f.modem.modem_high_speed == Some(76800u32)), MenuSetting::ModemHigh(Some(76800u32))),
            radio_v(" 57.6K baud"@, (f.modem.modem_high_speed == Some(57600u32)), MenuSetting::ModemHigh(Some(57600u32))),
            radio_v(" 38.4K baud"@, (f.modem.modem_high_speed == Some(38400u32)), MenuSetting::ModemHigh(Some(38400u32))),
            radio_v(" 19.2K baud"@, (f.modem.modem_high_speed == Some(19200u32)), MenuSetting::ModemHigh(Some(19200u32))),
            radio_v("  9600 baud"@, (f.modem.modem_high_speed == Some(9600u32)), MenuSetting::ModemHigh(Some(9600u32))),
            radio_v("  4800 baud"@, (f.modem.modem_high_speed == Some(4800u32)), MenuSetting::ModemHigh(Some(4800u32))),
            radio_v("  2400 baud"@, (f.modem.modem_high_speed == Some(2400u32)), MenuSetting::ModemHigh(Some(2400u32))),
            radio_v("  1200 baud"@, (f.modem.modem_high_speed == Some(1200u32)), MenuSetting::ModemHigh(Some(1200u32))),
            radio_v("   600 baud"@, (f.modem.modem_high_speed == Some(600u32)), MenuSetting::ModemHigh(Some(600u32))),
            radio_v("   300 baud"@, (f.modem.modem_high_speed == Some(300u32)), MenuSetting::ModemHigh(Some(300u32))),
        ]
    } else {
        seq![
            radio_v("Ignore"@, (f.modem.modem_high_speed is None), MenuSetting::ModemHigh(None)),
            radio_v(" 38.4K baud"@, (f.modem.modem_high_speed == Some(38400u32)), MenuSetting::ModemHigh(Some(38400u32))),
            radio_v(" 19.2K baud"@, (f.modem.modem_high_speed == Some(19200u32)), MenuSetting::ModemHigh(Some(19200u32))),
            radio_v("  9600 baud"@, (f.modem.modem_high_speed == Some(9600u32)), MenuSetting::ModemHigh(Some(9600u32))),
            radio_v("  4800 baud"@, (f.modem.modem_high_speed == Some(4800u32)), MenuSetting::ModemHigh(Some(4800u32))),
            radio_v("  2400 baud"@, (f.modem.modem_high_speed == Some(2400u32)), MenuSetting::ModemHigh(Some(2400u32))),
            radio_v("  1200 baud"@, (f.modem.modem_high_speed == Some(1200u32)), MenuSetting::ModemHigh(Some(1200u32))),
            radio_v("   600 baud"@, (f.modem.modem_high_speed == Some(600u32)), MenuSetting::ModemHigh(Some(600u32))),
            radio_v("   300 baud"@, (f.modem.modem_high_speed == Some(300u32)), MenuSetting::ModemHigh(Some(300u32))),
        ]
    }
}

#[verifier::spinoff_prover]
fn menu_modem_high(f: &Features, model: Model, session: u8) -> (r: Vec<MenuItem>)
    ensures
        r@.map_values(|i: MenuItem| i@) == items_modem_high(f@, model, session),
{
    let mut v: Vec<MenuItem> = Vec::new();
    if model.max_level() >= 5 {
        v.push(radio("Ignore", f.modem_high_speed.is_none(), MenuSetting::ModemHigh(None)));
        v.push(radio("115.2K baud", opt_is(f.modem_high_speed, 115200u32), MenuSetting::ModemHigh(Some(115200u32))));
        v.push(radio(" 76.8K baud", opt_is(f.modem_high_speed, 76800u32), MenuSetting::ModemHigh(Some(76800u32))));
        v.push(radio(" 57.6K baud", opt_is(f.modem_high_speed, 57600u32), MenuSetting::ModemHigh(Some(57600u32))));
        v.push(radio(" 38.4K baud", opt_is(f.modem_high_speed, 38400u32), MenuSetting::ModemHigh(Some(38400u32))));
        v.push(radio(" 19.2K baud", opt_is(f.modem_high_speed, 19200u32), MenuSetting::ModemHigh(Some(19200u32))));
        v.push(radio("  9600 baud", opt_is(f.modem_high_speed, 9600u32), MenuSetting::ModemHigh(Some(9600u32))));
        v.push(radio("  4800 baud", opt_is(f.modem_high_speed, 4800u32), MenuSetting::ModemHigh(Some(4800u32))));
        v.push(radio("  2400 baud", opt_is(f.modem_high_speed, 2400u32), MenuSetting::ModemHigh(Some(2400u32))));
        v.push(radio("  1200 baud", opt_is(f.modem_high_speed, 1200u32), MenuSetting::ModemHigh(Some(1200u32))));
        v.push(radio("   600 baud", opt_is(f.modem_high_speed, 600u32), MenuSetting::ModemHigh(Some(600u32))));
        v.push(radio("   300 baud", opt_is(f.modem_high_speed, 300u32), MenuSetting::ModemHigh(Some(300u32))));
    } else {
        v.push(radio("Ignore", f.modem_high_speed.is_none(), MenuSetting::ModemHigh(None)));
        v.push(radio(" 38.4K baud", opt_is(f.modem_high_speed, 38400u32), MenuSetting::ModemHigh(Some(38400u32))));
        v.push(radio(" 19.2K baud", opt_is(f.modem_high_speed, 19200u32), MenuSetting::ModemHigh(Some(19200u32))));
        v.push(radio("  9600 baud", opt_is(f.modem_high_speed, 9600u32), MenuSetting::ModemHigh(Some(9600u32))));
        v.push(radio("  4800 baud", opt_is(f.modem_high_speed, 4800u32), MenuSetting::ModemHigh(Some(4800u32))));
        v.push(radio("  2400 baud", opt_is(f.modem_high_speed, 2400u32), MenuSetting::ModemHigh(Some(2400u32))));
        v.push(radio("  1200 baud", opt_is(f.modem_high_speed, 1200u32), MenuSetting::ModemHigh(Some(1200u32))));
        v.push(radio("   600 baud", opt_is(f.modem_high_speed, 600u32), MenuSetting::ModemHigh(Some(600u32))));
        v.push(radio("   300 baud", opt_is(f.modem_high_speed, 300u32), MenuSetting::ModemHigh(Some(300u32))));
    }
    assert(v@.map_values(|i: MenuItem| i@) =~= items_modem_high(f@, model, session));
    v
}

/// The items of the ModemLow menu.
pub open spec fn items_modem_low(f: FeaturesView, model: Model, session: u8) -> Seq<ItemView> {
    if max_level(model) >= 5 {
        seq![
            radio_v("Ignore"@, (f.modem.modem_low_speed is None), MenuSetting::ModemLow(None)),
            radio_v("115.2K baud"@, (f.modem.modem_low_speed == Some(115200u32)), MenuSetting::ModemLow(Some(115200u32))),
            radio_v(" 76.8K baud"@, (f.modem.modem_low_speed == Some(76800u32)), MenuSetting::ModemLow(Some(76800u32))),
            radio_v(" 57.6K baud"@, (f.modem.modem_low_speed == Some(57600u32)), MenuSetting::ModemLow(Some(57600u32))),
            radio_v(" 38.4K baud"@, (f.modem.modem_low_speed == Some(38400u32)), MenuSetting::ModemLow(Some(38400u32))),
            radio_v(" 19.2K baud"@, (f.modem.modem_low_speed == Some(19200u32)), MenuSetting::ModemLow(Some(19200u32))),
            radio_v("  9600 baud"@, (f.modem.modem_low_speed == Some(9600u32)), MenuSetting::ModemLow(Some(9600u32))),
            radio_v("  4800 baud"@, (f.modem.modem_low_speed == Some(4800u32)), MenuSetting::ModemLow(Some(4800u32))),
            radio_v("  2400 baud"@, (f.modem.modem_low_speed == Some(2400u32)), MenuSetting::ModemLow(Some(2400u32))),
            radio_v("  1200 baud"@, (f.modem.modem_low_speed == Some(1200u32)), MenuSetting::ModemLow(Some(1200u32))),
            radio_v("   600 baud"@, (f.modem.modem_low_speed == Some(600u32)), MenuSetting::ModemLow(Some(600u32))),
            radio_v("   300 baud"@, (f.modem.modem_low_speed == Some(300u32)), MenuSetting::ModemLow(Some(300u32))),
        ]
    } else {
        seq![
            radio_v("Ignore"@, (f.modem.modem_low_speed is None), MenuSetting::ModemLow(None)),
            radio_v(" 38.4K baud"@, (f.modem.modem_low_speed == Some(38400u32)), MenuSetting::ModemLow(Some(38400u32))),
            radio_v(" 19.2K baud"@, (f.modem.modem_low_speed == Some(19200u32)), MenuSetting::ModemLow(Some(19200u32))),
            radio_v("  9600 baud"@, (f.modem.modem_low_speed == Some(9600u32)), MenuSetting::ModemLow(Some(9600u32))),
            radio_v("  4800 baud"@, (f.modem.modem_low_speed == Some(4800u32)), MenuSetting::ModemLow(Some(4800u32))),
            radio_v("  2400 baud"@, (f.modem.modem_low_speed == Some(2400u32)), MenuSetting::ModemLow(Some(2400u32))),
            radio_v("  1200 baud"@, (f.modem.modem_low_speed == Some(1200u32)), MenuSetting::ModemLow(Some(1200u32))),
            radio_v("   600 baud"@, (f.modem.modem_low_speed == Some(600u32)), MenuSetting::ModemLow(Some(600u32))),
            radio_v("   300 baud"@, (f.modem.modem_low_speed == Some(300u32)), MenuSetting::ModemLow(Some(300u32))),
        ]
    }
}

#[verifier::spinoff_prover]
fn menu_modem_low(f: &Features, model: Model, session: u8) -> (r: Vec<MenuItem>)
    ensures
        r@.map_values(|i: MenuItem| i@) == items_modem_low(f@, model, session),
{
    let mut v: Vec<MenuItem> = Vec::new();
    if model.max_level() >= 5 {
        v.push(radio("Ignore", f.modem_low_speed.is_none(), MenuSetting::ModemLow(None)));
        v.push(radio("115.2K baud", opt_is(f.modem_low_speed, 115200u32), MenuSetting::ModemLow(Some(115200u32))));
        v.push(radio(" 76.8K baud", opt_is(f.modem_low_speed, 76800u32), MenuSetting::ModemLow(Some(76800u32))));
        v.push(radio(" 57.6K baud", opt_is(f.modem_low_speed, 57600u32), MenuSetting::ModemLow(Some(57600u32))));
        v.push(radio(" 38.4K baud", opt_is(f.modem_low_speed, 38400u32), MenuSetting::ModemLow(Some(38400u32))));
        v.push(radio(" 19.2K baud", opt_is(f.modem_low_speed, 19200u32), MenuSetting::ModemLow(Some(19200u32))));
        v.push(radio("  9600 baud", opt_is(f.modem_low_speed, 9600u32), MenuSetting::ModemLow(Some(9600u32))));
        v.push(radio("  4800 baud", opt_is(f.modem_low_speed, 4800u32), MenuSetting::ModemLow(Some(4800u32))));
        v.push(radio("  2400 baud", opt_is(f.modem_low_speed, 2400u32), MenuSetting::ModemLow(Some(2400u32))));
        v.push(radio("  1200 baud", opt_is(f.modem_low_speed, 1200u32), MenuSetting::ModemLow(Some(1200u32))));
        v.push(radio("   600 baud", opt_is(f.modem_low_speed, 600u32), MenuSetting::ModemLow(Some(600u32))));
        v.push(radio("   300 baud", opt_is(f.modem_low_speed, 300u32), MenuSetting::ModemLow(Some(300u32))));
    } else {
        v.push(radio("Ignore", f.modem_low_speed.is_none(), MenuSetting::ModemLow(None)));
        v.push(radio(" 38.4K baud", opt_is(f.modem_low_speed, 38400u32), MenuSetting::ModemLow(Some(38400u32))));
        v.push(radio(" 19.2K baud", opt_is(f.modem_low_speed, 19200u32), MenuSetting::ModemLow(Some(19200u32))));
        v.push(radio("  9600 baud", opt_is(f.modem_low_speed, 9600u32), MenuSetting::ModemLow(Some(9600u32))));
        v.push(radio("  4800 baud", opt_is(f.modem_low_speed, 4800u32), MenuSetting::ModemLow(Some(4800u32))));
        v.push(radio("  2400 baud", opt_is(f.modem_low_speed, 2400u32), MenuSetting::ModemLow(Some(2400u32))));
        v.push(radio("  1200 baud", opt_is(f.modem_low_speed, 1200u32), MenuSetting::ModemLow(Some(1200u32))));
        v.push(radio("   600 baud", opt_is(f.modem_low_speed, 600u32), MenuSetting::ModemLow(Some(600u32))));
        v.push(radio("   300 baud", opt_is(f.modem_low_speed, 300u32), MenuSetting::ModemLow(Some(300u32))));
    }
    assert(v@.map_values(|i: MenuItem| i@) =~= items_modem_low(f@, model, session));
    v
}

/// The items of the Printer menu.
pub open spec fn items_printer(f: FeaturesView, model: Model, session: u8) -> Seq<ItemView> {
    seq![
        unavailable_v("Port select..."@),
        unavailable_v("Print mode"@),
        unavailable_v("Printer type"@),
        unavailable_v("DEC/ISO char sets"@),
        unavailable_v("PC character sets"@),
        unavailable_v("Print extent"@),
        unavailable_v("Print terminator"@),
        separator_v(),
        unavailable_v("Serial print speed"@),
        unavailable_v("2-way communication"@),
        unavailable_v("Transmit flow control"@),
        unavailable_v("Receive flow control"@),
        unavailable_v("Word size"@),
        unavailable_v("Parity"@),
        unavailable_v("Stop bits"@),
    ]
}

#[verifier::spinoff_prover]
fn menu_printer(f: &Features, model: Model, session: u8) -> (r: Vec<MenuItem>)
    ensures
        r@.map_values(|i: MenuItem| i@) == items_printer(f@, model, session),
{
    let mut v: Vec<MenuItem> = Vec::new();
    v.push(unavailable("Port select..."));
    v.push(unavailable("Print mode"));
    v.push(unavailable("Printer type"));
    v.push(unavailable("DEC/ISO char sets"));
    v.push(unavailable("PC character sets"));
    v.push(unavailable("Print extent"));
    v.push(unavailable("Print terminator"));
    v.push(separator());
    v.push(unavailable("Serial print speed"));
    v.push(unavailable("2-way communication"));
    v.push(unavailable("Transmit flow control"));
    v.push(unavailable("Receive flow control"));
    v.push(unavailable("Word size"));
    v.push(unavailable("Parity"));
    v.push(unavailable("Stop bits"));
    assert(v@.map_values(|i: MenuItem| i@) =~= items_printer(f@, model, session));
    v
}

/// The items of the Language menu.
pub open spec fn items_language(f: FeaturesView, model: Model, session: u8) -> Seq<ItemView> {
    seq![
        when_v(radio_v("English"@, true, MenuSetting::Nothing), true),
        when_v(radio_v("French"@, false, MenuSetting::Nothing), false),
        when_v(radio_v("German"@, false, MenuSetting::Nothing), false),
        when_v(radio_v("Italian"@, false, MenuSetting::Nothing), false),
        when_v(radio_v("Spanish"@, false, MenuSetting::Nothing), false),
    ]
}

#[verifier::spinoff_prover]
fn menu_language(f: &Features, model: Model, session: u8) -> (r: Vec<MenuItem>)
    ensures
        r@.map_values(|i: MenuItem| i@) == items_language(f@, model, session),
{
    let mut v: Vec<MenuItem> = Vec::new();
    v.push(when(radio("English", true, MenuSetting::Nothing), true));
    v.push(when(radio("French", false, MenuSetting::Nothing), false));
    v.push(when(radio("German", false, MenuSetting::Nothing), false));
    v.push(when(radio("Italian", false, MenuSetting::Nothing), false));
    v.push(when(radio("Spanish", false, MenuSetting::Nothing), false));
    assert(v@.map_values(|i: MenuItem| i@) =~= items_language(f@, model, session));
    v
}

/// The items of a menu.
pub open spec fn menu_items_spec(menu: Menu, f: FeaturesView, model: Model, session: u8) -> Seq<ItemView> {
    match menu {
        Menu::Main => items_main(f, model, session),
        Menu::Actions => items_actions(f, model, session),
        Menu::Session => items_session(f, model, session),
        Menu::SelectSession => items_select_session(f, model, session),
        Menu::UpdateSession => items_update_session(f, model, session),
        Menu::Display => items_display(f, model, session),
        Menu::LinesPerScreen => items_lines_per_screen(f, model, session),
        Menu::LinesPerPage => items_lines_per_page(f, model, session),
        Menu::Columns => items_columns(f, model, session),
        Menu::Status => items_status(f, model, session),
        Menu::Scrolling => items_scrolling(f, model, session),
        Menu::Background => items_background(f, model, session),
        Menu::CursorDisplay => items_cursor_display(f, model, session),
        Menu::CursorCoupling => items_cursor_coupling(f, model, session),
        Menu::WritingDirection => items_writing_direction(f, model, session),
        Menu::Zero => items_zero(f, model, session),
        Menu::CrtSaver => items_crt_saver(f, model, session),
        Menu::EnergySaver => items_energy_saver(f, model, session),
        Menu::Color => items_color(f, model, session),
        Menu::TerminalType => items_terminal_type(f, model, session),
        Menu::Emulation => items_emulation(f, model, session),
        Menu::TerminalId => items_terminal_id(f, model, session),
        Menu::CharacterSet => items_character_set(f, model, session),
        Menu::AsciiEmulation => items_ascii_emulation(f, model, session),
        Menu::Keyboard => items_keyboard(f, model, session),
        Menu::VtLanguage => items_vt_language(f, model, session),
        Menu::CapsLock => items_caps_lock(f, model, session),
        Menu::Keyclick => items_keyclick(f, model, session),
        Menu::WarningBell => items_warning_bell(f, model, session),
        Menu::MarginBell => items_margin_bell(f, model, session),
        Menu::Encoding => items_encoding(f, model, session),
        Menu::AutoRepeat => items_auto_repeat(f, model, session),
        Menu::Communication => items_communication(f, model, session),
        Menu::WordSize => items_word_size(f, model, session),
        Menu::Parity => items_parity(f, model, session),
        Menu::StopBits => items_stop_bits(f, model, session),
        Menu::TransmitSpeed => items_transmit_speed(f, model, session),
        Menu::ReceiveSpeed => items_receive_speed(f, model, session),
        Menu::TransmitFlow => items_transmit_flow(f, model, session),
        Menu::ReceiveFlow => items_receive_flow(f, model, session),
        Menu::Threshold => items_threshold(f, model, session),
        Menu::TransmitRate => items_transmit_rate(f, model, session),
        Menu::FkeyRate => items_fkey_rate(f, model, session),
        Menu::Modem => items_modem(f, model, session),
        Menu::Disconnect => items_disconnect(f, model, session),
        Menu::ModemHigh => items_modem_high(f, model, session),
        Menu::ModemLow => items_modem_low(f, model, session),
        Menu::Printer => items_printer(f, model, session),
        Menu::Language => items_language(f, model, session),
    }
}

/// The items of a menu, for these features, model and session.
pub fn menu_items(menu: Menu, f: &Features, model: Model, session: u8) -> (r: Vec<MenuItem>)
    ensures
        r@.map_values(|i: MenuItem| i@) == menu_items_spec(menu, f@, model, session),
{
    match menu {
        Menu::Main => menu_main(f, model, session),
        Menu::Actions => menu_actions(f, model, session),
        Menu::Session => menu_session(f, model, session),
        Menu::SelectSession => menu_select_session(f, model, session),
        Menu::UpdateSession => menu_update_session(f, model, session),
        Menu::Display => menu_display(f, model, session),
        Menu::LinesPerScreen => menu_lines_per_screen(f, model, session),
        Menu::LinesPerPage => menu_lines_per_page(f, model, session),
        Menu::Columns => menu_columns(f, model, session),
        Menu::Status => menu_status(f, model, session),
        Menu::Scrolling => menu_scrolling(f, model, session),
        Menu::Background => menu_background(f, model, session),
        Menu::CursorDisplay => menu_cursor_display(f, model, session),
        Menu::CursorCoupling => menu_cursor_coupling(f, model, session),
        Menu::WritingDirection => menu_writing_direction(f, model, session),
        Menu::Zero => menu_zero(f, model, session),
        Menu::CrtSaver => menu_crt_saver(f, model, session),
        Menu::EnergySaver => menu_energy_saver(f, model, session),
        Menu::Color => menu_color(f, model, session),
        Menu::TerminalType => menu_terminal_type(f, model, session),
        Menu::Emulation => menu_emulation(f, model, session),
        Menu::TerminalId => menu_terminal_id(f, model, session),
        Menu::CharacterSet => menu_character_set(f, model, session),
        Menu::AsciiEmulation => menu_ascii_emulation(f, model, session),
        Menu::Keyboard => menu_keyboard(f, model, session),
        Menu::VtLanguage => menu_vt_language(f, model, session),
        Menu::CapsLock => menu_caps_lock(f, model, session),
        Menu::Keyclick => menu_keyclick(f, model, session),
        Menu::WarningBell => menu_warning_bell(f, model, session),
        Menu::MarginBell => menu_margin_bell(f, model, session),
        Menu::Encoding => menu_encoding(f, model, session),
        Menu::AutoRepeat => menu_auto_repeat(f, model, session),
        Menu::Communication => menu_communication(f, model, session),
        Menu::WordSize => menu_word_size(f, model, session),
        Menu::Parity => menu_parity(f, model, session),
        Menu::StopBits => menu_stop_bits(f, model, session),
        Menu::TransmitSpeed => menu_transmit_speed(f, model, session),
        Menu::ReceiveSpeed => menu_receive_speed(f, model, session),
        Menu::TransmitFlow => menu_transmit_flow(f, model, session),
        Menu::ReceiveFlow => menu_receive_flow(f, model, session),
        Menu::Threshold => menu_threshold(f, model, session),
        Menu::TransmitRate => menu_transmit_rate(f, model, session),
        Menu::FkeyRate => menu_fkey_rate(f, model, session),
        Menu::Modem => menu_modem(f, model, session),
        Menu::Disconnect => menu_disconnect(f, model, session),
        Menu::ModemHigh => menu_modem_high(f, model, session),
        Menu::ModemLow => menu_modem_low(f, model, session),
        Menu::Printer => menu_printer(f, model, session),
        Menu::Language => menu_language(f, model, session),
    }
}

/// Whether the cursor can rest on an item.
pub open spec fn selectable(i: ItemView) -> bool {
    i.enabled && !(i.kind is Separator)
}

#[verifier::spinoff_prover]
proof fn lemma_len_main(f: FeaturesView, g: FeaturesView, model: Model, s: u8, t: u8)
    ensures
        items_main(f, model, s).len() == items_main(g, model, t).len(),
        0 < items_main(f, model, s).len() < 23,
        forall|i: int| 0 <= i < items_main(f, model, s).len() ==> (#[trigger] items_main(f, model, s)[i]).label.len() < 40,
{
    reveal_strlit("ASCII emulation");
    reveal_strlit("Actions");
    reveal_strlit("Color");
    reveal_strlit("Communication");
    reveal_strlit("Display");
    reveal_strlit("Exit Set-Up");
    reveal_strlit("Keyboard");
    reveal_strlit("Modem");
    reveal_strlit("On-line");
    reveal_strlit("Printer");
    reveal_strlit("Restore settings");
    reveal_strlit("Save settings");
    reveal_strlit("Session");
    reveal_strlit("Set-Up language");
    reveal_strlit("Tabs...");
    reveal_strlit("Terminal type");
}

#[verifier::spinoff_prover]
proof fn lemma_len_actions(f: FeaturesView, g: FeaturesView, model: Model, s: u8, t: u8)
    ensures
        items_actions(f, model, s).len() == items_actions(g, model, t).len(),
        0 < items_actions(f, model, s).len() < 23,
        forall|i: int| 0 <= i < items_actions(f, model, s).len() ==> (#[trigger] items_actions(f, model, s)[i]).label.len() < 40,
{
    reveal_strlit("Banner message...");
    reveal_strlit("Calculator");
    reveal_strlit("Clear communications");
    reveal_strlit("Clear display");
    reveal_strlit("Clock");
    reveal_strlit("Reset this session");
    reveal_strlit("Restore factory defaults");
    reveal_strlit("Show character sets");
}

#[verifier::spinoff_prover]
proof fn lemma_len_session(f: FeaturesView, g: FeaturesView, model: Model, s: u8, t: u8)
    ensures
        items_session(f, model, s).len() == items_session(g, model, t).len(),
        0 < items_session(f, model, s).len() < 23,
        forall|i: int| 0 <= i < items_session(f, model, s).len() ==> (#[trigger] items_session(f, model, s)[i]).label.len() < 40,
{
    reveal_strlit("Copy settings from");
    reveal_strlit("Pages per session...");
    reveal_strlit("Restore settings for all");
    reveal_strlit("Save settings for all");
    reveal_strlit("Select session");
    reveal_strlit("Session name...");
    reveal_strlit("Soft char sets/session");
    reveal_strlit("Update session");
}

#[verifier::spinoff_prover]
proof fn lemma_len_select_session(f: FeaturesView, g: FeaturesView, model: Model, s: u8, t: u8)
    ensures
        items_select_session(f, model, s).len() == items_select_session(g, model, t).len(),
        0 < items_select_session(f, model, s).len() < 23,
        forall|i: int| 0 <= i < items_select_session(f, model, s).len() ==> (#[trigger] items_select_session(f, model, s)[i]).label.len() < 40,
{
    reveal_strlit("Session 1");
    reveal_strlit("Session 2");
    reveal_strlit("Session 3");
    reveal_strlit("Session 4");
}

#[verifier::spinoff_prover]
proof fn lemma_len_update_session(f: FeaturesView, g: FeaturesView, model: Model, s: u8, t: u8)
    ensures
        items_update_session(f, model, s).len() == items_update_session(g, model, t).len(),
        0 < items_update_session(f, model, s).len() < 23,
        forall|i: int| 0 <= i < items_update_session(f, model, s).len() ==> (#[trigger] items_update_session(f, model, s)[i]).label.len() < 40,
{
    reveal_strlit("At regular intervals");
    reveal_strlit("Only when active");
    reveal_strlit("When available");
}

#[verifier::spinoff_prover]
proof fn lemma_len_display(f: FeaturesView, g: FeaturesView, model: Model, s: u8, t: u8)
    ensures
        items_display(f, model, s).len() == items_display(g, model, t).len(),
        0 < items_display(f, model, s).len() < 23,
        forall|i: int| 0 <= i < items_display(f, model, s).len() ==> (#[trigger] items_display(f, model, s)[i]).label.len() < 40,
{
    reveal_strlit("Auto wrap");
    reveal_strlit("CRT saver");
    reveal_strlit("Columns per page");
    reveal_strlit("Cursor coupling");
    reveal_strlit("Cursor display");
    reveal_strlit("Energy saver");
    reveal_strlit("Framed windows");
    reveal_strlit("Lines per page");
    reveal_strlit("Lines per screen");
    reveal_strlit("Lock user preferences");
    reveal_strlit("New line mode");
    reveal_strlit("Overscan");
    reveal_strlit("Save lines off top");
    reveal_strlit("Screen alignment...");
    reveal_strlit("Screen background");
    reveal_strlit("Scrolling mode");
    reveal_strlit("Show control characters");
    reveal_strlit("Status display");
    reveal_strlit("Writing direction");
    reveal_strlit("Zero font");
}

#[verifier::spinoff_prover]
proof fn lemma_len_lines_per_screen(f: FeaturesView, g: FeaturesView, model: Model, s: u8, t: u8)
    ensures
        items_lines_per_screen(f, model, s).len() == items_lines_per_screen(g, model, t).len(),
        0 < items_lines_per_screen(f, model, s).len() < 23,
        forall|i: int| 0 <= i < items_lines_per_screen(f, model, s).len() ==> (#[trigger] items_lines_per_screen(f, model, s)[i]).label.len() < 40,
{
    reveal_strlit("24 lines");
    reveal_strlit("36 lines");
    reveal_strlit("48 lines");
    reveal_strlit("Auto resize");
}

#[verifier::spinoff_prover]
proof fn lemma_len_lines_per_page(f: FeaturesView, g: FeaturesView, model: Model, s: u8, t: u8)
    ensures
        items_lines_per_page(f, model, s).len() == items_lines_per_page(g, model, t).len(),
        0 < items_lines_per_page(f, model, s).len() < 23,
        forall|i: int| 0 <= i < items_lines_per_page(f, model, s).len() ==> (#[trigger] items_lines_per_page(f, model, s)[i]).label.len() < 40,
{
    reveal_strlit("144 lines x 1 page");
    reveal_strlit("24 lines x 3 pages");
    reveal_strlit("25 lines x 2 pages");
    reveal_strlit("36 lines x 2 pages");
    reveal_strlit("41 lines x 1 page");
    reveal_strlit("42 lines x 1 page");
    reveal_strlit("48 lines x 1 page");
    reveal_strlit("52 lines x 1 page");
    reveal_strlit("53 lines x 1 page");
    reveal_strlit("72 lines x 1 page");
}

#[verifier::spinoff_prover]
proof fn lemma_len_columns(f: FeaturesView, g: FeaturesView, model: Model, s: u8, t: u8)
    ensures
        items_columns(f, model, s).len() == items_columns(g, model, t).len(),
        0 < items_columns(f, model, s).len() < 23,
        forall|i: int| 0 <= i < items_columns(f, model, s).len() ==> (#[trigger] items_columns(f, model, s)[i]).label.len() < 40,
{
    reveal_strlit("132 columns");
    reveal_strlit("80 columns");
    reveal_strlit("Clear on change");
}

#[verifier::spinoff_prover]
proof fn lemma_len_status(f: FeaturesView, g: FeaturesView, model: Model, s: u8, t: u8)
    ensures
        items_status(f, model, s).len() == items_status(g, model, t).len(),
        0 < items_status(f, model, s).len() < 23,
        forall|i: int| 0 <= i < items_status(f, model, s).len() ==> (#[trigger] items_status(f, model, s)[i]).label.len() < 40,
{
    reveal_strlit("Host writable");
    reveal_strlit("Local status");
    reveal_strlit("None");
}

#[verifier::spinoff_prover]
proof fn lemma_len_scrolling(f: FeaturesView, g: FeaturesView, model: Model, s: u8, t: u8)
    ensures
        items_scrolling(f, model, s).len() == items_scrolling(g, model, t).len(),
        0 < items_scrolling(f, model, s).len() < 23,
        forall|i: int| 0 <= i < items_scrolling(f, model, s).len() ==> (#[trigger] items_scrolling(f, model, s)[i]).label.len() < 40,
{
    reveal_strlit("Fast smooth");
    reveal_strlit("Jump");
    reveal_strlit("Slow smooth");
}

#[verifier::spinoff_prover]
proof fn lemma_len_background(f: FeaturesView, g: FeaturesView, model: Model, s: u8, t: u8)
    ensures
        items_background(f, model, s).len() == items_background(g, model, t).len(),
        0 < items_background(f, model, s).len() < 23,
        forall|i: int| 0 <= i < items_background(f, model, s).len() ==> (#[trigger] items_background(f, model, s)[i]).label.len() < 40,
{
    reveal_strlit("Dark");
    reveal_strlit("Light");
}

#[verifier::spinoff_prover]
proof fn lemma_len_cursor_display(f: FeaturesView, g: FeaturesView, model: Model, s: u8, t: u8)
    ensures
        items_cursor_display(f, model, s).len() == items_cursor_display(g, model, t).len(),
        0 < items_cursor_display(f, model, s).len() < 23,
        forall|i: int| 0 <= i < items_cursor_display(f, model, s).len() ==> (#[trigger] items_cursor_display(f, model, s)[i]).label.len() < 40,
{
    reveal_strlit("Blink");
    reveal_strlit("Block");
    reveal_strlit("Enable cursor");
    reveal_strlit("Underline");
}

#[verifier::spinoff_prover]
proof fn lemma_len_cursor_coupling(f: FeaturesView, g: FeaturesView, model: Model, s: u8, t: u8)
    ensures
        items_cursor_coupling(f, model, s).len() == items_cursor_coupling(g, model, t).len(),
        0 < items_cursor_coupling(f, model, s).len() < 23,
        forall|i: int| 0 <= i < items_cursor_coupling(f, model, s).len() ==> (#[trigger] items_cursor_coupling(f, model, s)[i]).label.len() < 40,
{
    reveal_strlit("Page coupling");
    reveal_strlit("Vertical coupling");
}

#[verifier::spinoff_prover]
proof fn lemma_len_writing_direction(f: FeaturesView, g: FeaturesView, model: Model, s: u8, t: u8)
    ensures
        items_writing_direction(f, model, s).len() == items_writing_direction(g, model, t).len(),
        0 < items_writing_direction(f, model, s).len() < 23,
        forall|i: int| 0 <= i < items_writing_direction(f, model, s).len() ==> (#[trigger] items_writing_direction(f, model, s)[i]).label.len() < 40,
{
    reveal_strlit("Left to right");
    reveal_strlit("Right to left");
}

#[verifier::spinoff_prover]
proof fn lemma_len_zero(f: FeaturesView, g: FeaturesView, model: Model, s: u8, t: u8)
    ensures
        items_zero(f, model, s).len() == items_zero(g, model, t).len(),
        0 < items_zero(f, model, s).len() < 23,
        forall|i: int| 0 <= i < items_zero(f, model, s).len() ==> (#[trigger] items_zero(f, model, s)[i]).label.len() < 40,
{
    reveal_strlit("Dotted zero");
    reveal_strlit("Oval zero");
    reveal_strlit("Slashed zero");
}

#[verifier::spinoff_prover]
proof fn lemma_len_crt_saver(f: FeaturesView, g: FeaturesView, model: Model, s: u8, t: u8)
    ensures
        items_crt_saver(f, model, s).len() == items_crt_saver(g, model, t).len(),
        0 < items_crt_saver(f, model, s).len() < 23,
        forall|i: int| 0 <= i < items_crt_saver(f, model, s).len() ==> (#[trigger] items_crt_saver(f, model, s)[i]).label.len() < 40,
{
    reveal_strlit("15 minutes");
    reveal_strlit("30 minutes");
    reveal_strlit("5 minutes");
    reveal_strlit("60 minutes");
    reveal_strlit("Host wake-up");
    reveal_strlit("Never");
}

#[verifier::spinoff_prover]
proof fn lemma_len_energy_saver(f: FeaturesView, g: FeaturesView, model: Model, s: u8, t: u8)
    ensures
        items_energy_saver(f, model, s).len() == items_energy_saver(g, model, t).len(),
        0 < items_energy_saver(f, model, s).len() < 23,
        forall|i: int| 0 <= i < items_energy_saver(f, model, s).len() ==> (#[trigger] items_energy_saver(f, model, s)[i]).label.len() < 40,
{
    reveal_strlit("15 minutes");
    reveal_strlit("30 minutes");
    reveal_strlit("5 minutes");
    reveal_strlit("60 minutes");
    reveal_strlit("Never");
}

#[verifier::spinoff_prover]
proof fn lemma_len_color(f: FeaturesView, g: FeaturesView, model: Model, s: u8, t: u8)
    ensures
        items_color(f, model, s).len() == items_color(g, model, t).len(),
        0 < items_color(f, model, s).len() < 23,
        forall|i: int| 0 <= i < items_color(f, model, s).len() ==> (#[trigger] items_color(f, model, s)[i]).label.len() < 40,
{
    reveal_strlit("ASCII color mode");
    reveal_strlit("Alternate text colors...");
    reveal_strlit("Assign colors...");
    reveal_strlit("Bold and blink style");
    reveal_strlit("Define colors...");
    reveal_strlit("Erase color");
    reveal_strlit("Intensity attributes");
    reveal_strlit("Reverse and blank attributes");
    reveal_strlit("Select color mode");
}

#[verifier::spinoff_prover]
proof fn lemma_len_terminal_type(f: FeaturesView, g: FeaturesView, model: Model, s: u8, t: u8)
    ensures
        items_terminal_type(f, model, s).len() == items_terminal_type(g, model, t).len(),
        0 < items_terminal_type(f, model, s).len() < 23,
        forall|i: int| 0 <= i < items_terminal_type(f, model, s).len() ==> (#[trigger] items_terminal_type(f, model, s)[i]).label.len() < 40,
{
    reveal_strlit("7-bit NRCS characters");
    reveal_strlit("Emulation mode");
    reveal_strlit("PCTerm character set");
    reveal_strlit("Terminal ID to host");
    reveal_strlit("Transmit 7-bit controls");
    reveal_strlit("VT default char set");
}

#[verifier::spinoff_prover]
proof fn lemma_len_emulation(f: FeaturesView, g: FeaturesView, model: Model, s: u8, t: u8)
    ensures
        items_emulation(f, model, s).len() == items_emulation(g, model, t).len(),
        0 < items_emulation(f, model, s).len() < 23,
        forall|i: int| 0 <= i < items_emulation(f, model, s).len() ==> (#[trigger] items_emulation(f, model, s)[i]).label.len() < 40,
{
    reveal_strlit("VT100 mode");
    reveal_strlit("VT200 mode");
    reveal_strlit("VT300 mode");
    reveal_strlit("VT400 mode");
    reveal_strlit("VT510 mode");
    reveal_strlit("VT52 mode");
    reveal_strlit("VT520 mode");
    reveal_strlit("VT525 mode");
}

#[verifier::spinoff_prover]
proof fn lemma_len_terminal_id(f: FeaturesView, g: FeaturesView, model: Model, s: u8, t: u8)
    ensures
        items_terminal_id(f, model, s).len() == items_terminal_id(g, model, t).len(),
        0 < items_terminal_id(f, model, s).len() < 23,
        forall|i: int| 0 <= i < items_terminal_id(f, model, s).len() ==> (#[trigger] items_terminal_id(f, model, s)[i]).label.len() < 40,
{
    reveal_strlit("VT100");
    reveal_strlit("VT101");
    reveal_strlit("VT102");
    reveal_strlit("VT220");
    reveal_strlit("VT320");
    reveal_strlit("VT420");
    reveal_strlit("VT510");
    reveal_strlit("VT520");
    reveal_strlit("VT525");
}

#[verifier::spinoff_prover]
proof fn lemma_len_character_set(f: FeaturesView, g: FeaturesView, model: Model, s: u8, t: u8)
    ensures
        items_character_set(f, model, s).len() == items_character_set(g, model, t).len(),
        0 < items_character_set(f, model, s).len() < 23,
        forall|i: int| 0 <= i < items_character_set(f, model, s).len() ==> (#[trigger] items_character_set(f, model, s)[i]).label.len() < 40,
{
    reveal_strlit("DEC Multinational");
    reveal_strlit("ISO Latin-1");
}

#[verifier::spinoff_prover]
proof fn lemma_len_ascii_emulation(f: FeaturesView, g: FeaturesView, model: Model, s: u8, t: u8)
    ensures
        items_ascii_emulation(f, model, s).len() == items_ascii_emulation(g, model, t).len(),
        0 < items_ascii_emulation(f, model, s).len() < 23,
        forall|i: int| 0 <= i < items_ascii_emulation(f, model, s).len() ==> (#[trigger] items_ascii_emulation(f, model, s)[i]).label.len() < 40,
{
    reveal_strlit("Answerback mode");
    reveal_strlit("Attribute");
    reveal_strlit("Autopage");
    reveal_strlit("Autoscroll");
    reveal_strlit("Block end");
    reveal_strlit("Block mode");
    reveal_strlit("Data lines");
    reveal_strlit("Enhance");
    reveal_strlit("Font load");
    reveal_strlit("Page edit");
    reveal_strlit("Pages");
    reveal_strlit("Received CR");
    reveal_strlit("Recognize DEL");
    reveal_strlit("Send ACK");
    reveal_strlit("TVI page-flip");
    reveal_strlit("Write protect attributes");
}

#[verifier::spinoff_prover]
proof fn lemma_len_keyboard(f: FeaturesView, g: FeaturesView, model: Model, s: u8, t: u8)
    ensures
        items_keyboard(f, model, s).len() == items_keyboard(g, model, t).len(),
        0 < items_keyboard(f, model, s).len() < 23,
        forall|i: int| 0 <= i < items_keyboard(f, model, s).len() ==> (#[trigger] items_keyboard(f, model, s)[i]).label.len() < 40,
{
    reveal_strlit("Application cursor keys");
    reveal_strlit("Application keypad mode");
    reveal_strlit("Auto repeat");
    reveal_strlit("Caps lock function");
    reveal_strlit("Data processing keys");
    reveal_strlit("Define key...");
    reveal_strlit("Ignore missing keyboard");
    reveal_strlit("Keyboard encoding");
    reveal_strlit("Keyclick volume");
    reveal_strlit("Lock key definitions");
    reveal_strlit("Map PC keyboard to VT");
    reveal_strlit("Margin bell volume");
    reveal_strlit("PC keyboard language");
    reveal_strlit("Recall key definitions");
    reveal_strlit("Save key definitions");
    reveal_strlit("VT keyboard language");
    reveal_strlit("Warning bell volume");
}

#[verifier::spinoff_prover]
proof fn lemma_len_vt_language(f: FeaturesView, g: FeaturesView, model: Model, s: u8, t: u8)
    ensures
        items_vt_language(f, model, s).len() == items_vt_language(g, model, t).len(),
        0 < items_vt_language(f, model, s).len() < 23,
        forall|i: int| 0 <= i < items_vt_language(f, model, s).len() ==> (#[trigger] items_vt_language(f, model, s)[i]).label.len() < 40,
{
    reveal_strlit("British");
    reveal_strlit("Canadian (French)");
    reveal_strlit("Dutch");
    reveal_strlit("Finnish");
    reveal_strlit("French/Belgian");
    reveal_strlit("German");
    reveal_strlit("Italian");
    reveal_strlit("North American");
    reveal_strlit("Norwegian/Danish");
    reveal_strlit("Portuguese");
    reveal_strlit("Spanish");
    reveal_strlit("Swedish");
    reveal_strlit("Swiss");
}

#[verifier::spinoff_prover]
proof fn lemma_len_caps_lock(f: FeaturesView, g: FeaturesView, model: Model, s: u8, t: u8)
    ensures
        items_caps_lock(f, model, s).len() == items_caps_lock(g, model, t).len(),
        0 < items_caps_lock(f, model, s).len() < 23,
        forall|i: int| 0 <= i < items_caps_lock(f, model, s).len() ==> (#[trigger] items_caps_lock(f, model, s)[i]).label.len() < 40,
{
    reveal_strlit("Caps lock");
    reveal_strlit("Reverse lock");
    reveal_strlit("Shift lock");
}

#[verifier::spinoff_prover]
proof fn lemma_len_keyclick(f: FeaturesView, g: FeaturesView, model: Model, s: u8, t: u8)
    ensures
        items_keyclick(f, model, s).len() == items_keyclick(g, model, t).len(),
        0 < items_keyclick(f, model, s).len() < 23,
        forall|i: int| 0 <= i < items_keyclick(f, model, s).len() ==> (#[trigger] items_keyclick(f, model, s)[i]).label.len() < 40,
{
    reveal_strlit("High");
    reveal_strlit("Low");
    reveal_strlit("Off");
}

#[verifier::spinoff_prover]
proof fn lemma_len_warning_bell(f: FeaturesView, g: FeaturesView, model: Model, s: u8, t: u8)
    ensures
        items_warning_bell(f, model, s).len() == items_warning_bell(g, model, t).len(),
        0 < items_warning_bell(f, model, s).len() < 23,
        forall|i: int| 0 <= i < items_warning_bell(f, model, s).len() ==> (#[trigger] items_warning_bell(f, model, s)[i]).label.len() < 40,
{
    reveal_strlit("High");
    reveal_strlit("Low");
    reveal_strlit("Off");
}

#[verifier::spinoff_prover]
proof fn lemma_len_margin_bell(f: FeaturesView, g: FeaturesView, model: Model, s: u8, t: u8)
    ensures
        items_margin_bell(f, model, s).len() == items_margin_bell(g, model, t).len(),
        0 < items_margin_bell(f, model, s).len() < 23,
        forall|i: int| 0 <= i < items_margin_bell(f, model, s).len() ==> (#[trigger] items_margin_bell(f, model, s)[i]).label.len() < 40,
{
    reveal_strlit("High");
    reveal_strlit("Low");
    reveal_strlit("Off");
}

#[verifier::spinoff_prover]
proof fn lemma_len_encoding(f: FeaturesView, g: FeaturesView, model: Model, s: u8, t: u8)
    ensures
        items_encoding(f, model, s).len() == items_encoding(g, model, t).len(),
        0 < items_encoding(f, model, s).len() < 23,
        forall|i: int| 0 <= i < items_encoding(f, model, s).len() ==> (#[trigger] items_encoding(f, model, s)[i]).label.len() < 40,
{
    reveal_strlit("Character (ASCII)");
    reveal_strlit("Key position");
    reveal_strlit("Scancode");
}

#[verifier::spinoff_prover]
proof fn lemma_len_auto_repeat(f: FeaturesView, g: FeaturesView, model: Model, s: u8, t: u8)
    ensures
        items_auto_repeat(f, model, s).len() == items_auto_repeat(g, model, t).len(),
        0 < items_auto_repeat(f, model, s).len() < 23,
        forall|i: int| 0 <= i < items_auto_repeat(f, model, s).len() ==> (#[trigger] items_auto_repeat(f, model, s)[i]).label.len() < 40,
{
    reveal_strlit("Fast (30/sec)");
    reveal_strlit("Off");
    reveal_strlit("Slow (10/sec)");
}

#[verifier::spinoff_prover]
proof fn lemma_len_communication(f: FeaturesView, g: FeaturesView, model: Model, s: u8, t: u8)
    ensures
        items_communication(f, model, s).len() == items_communication(g, model, t).len(),
        0 < items_communication(f, model, s).len() < 23,
        forall|i: int| 0 <= i < items_communication(f, model, s).len() ==> (#[trigger] items_communication(f, model, s)[i]).label.len() < 40,
{
    reveal_strlit("Answerback concealed");
    reveal_strlit("Answerback message...");
    reveal_strlit("Auto answerback");
    reveal_strlit("Fkey rate limit");
    reveal_strlit("Flow control threshold");
    reveal_strlit("Half duplex");
    reveal_strlit("Ignore Null character");
    reveal_strlit("Local echo");
    reveal_strlit("Parity");
    reveal_strlit("Port select...");
    reveal_strlit("Receive flow control");
    reveal_strlit("Receive speed");
    reveal_strlit("Stop bits");
    reveal_strlit("Transmit flow control");
    reveal_strlit("Transmit rate limit");
    reveal_strlit("Transmit speed");
    reveal_strlit("Word size");
}

#[verifier::spinoff_prover]
proof fn lemma_len_word_size(f: FeaturesView, g: FeaturesView, model: Model, s: u8, t: u8)
    ensures
        items_word_size(f, model, s).len() == items_word_size(g, model, t).len(),
        0 < items_word_size(f, model, s).len() < 23,
        forall|i: int| 0 <= i < items_word_size(f, model, s).len() ==> (#[trigger] items_word_size(f, model, s)[i]).label.len() < 40,
{
    reveal_strlit("7 bits");
    reveal_strlit("8 bits");
}

#[verifier::spinoff_prover]
proof fn lemma_len_parity(f: FeaturesView, g: FeaturesView, model: Model, s: u8, t: u8)
    ensures
        items_parity(f, model, s).len() == items_parity(g, model, t).len(),
        0 < items_parity(f, model, s).len() < 23,
        forall|i: int| 0 <= i < items_parity(f, model, s).len() ==> (#[trigger] items_parity(f, model, s)[i]).label.len() < 40,
{
    reveal_strlit("Even");
    reveal_strlit("Even, unchecked");
    reveal_strlit("Mark");
    reveal_strlit("None");
    reveal_strlit("Odd");
    reveal_strlit("Odd, unchecked");
    reveal_strlit("Space");
}

#[verifier::spinoff_prover]
proof fn lemma_len_stop_bits(f: FeaturesView, g: FeaturesView, model: Model, s: u8, t: u8)
    ensures
        items_stop_bits(f, model, s).len() == items_stop_bits(g, model, t).len(),
        0 < items_stop_bits(f, model, s).len() < 23,
        forall|i: int| 0 <= i < items_stop_bits(f, model, s).len() ==> (#[trigger] items_stop_bits(f, model, s)[i]).label.len() < 40,
{
    reveal_strlit("1 bit");
    reveal_strlit("2 bits");
}

#[verifier::spinoff_prover]
proof fn lemma_len_transmit_speed(f: FeaturesView, g: FeaturesView, model: Model, s: u8, t: u8)
    ensures
        items_transmit_speed(f, model, s).len() == items_transmit_speed(g, model, t).len(),
        0 < items_transmit_speed(f, model, s).len() < 23,
        forall|i: int| 0 <= i < items_transmit_speed(f, model, s).len() ==> (#[trigger] items_transmit_speed(f, model, s)[i]).label.len() < 40,
{
    reveal_strlit("   300 baud");
    reveal_strlit("   600 baud");
    reveal_strlit("  1200 baud");
    reveal_strlit("  2400 baud");
    reveal_strlit("  4800 baud");
    reveal_strlit("  9600 baud");
    reveal_strlit(" 19.2K baud");
    reveal_strlit(" 38.4K baud");
    reveal_strlit(" 57.6K baud");
    reveal_strlit(" 76.8K baud");
    reveal_strlit("115.2K baud");
}

#[verifier::spinoff_prover]
proof fn lemma_len_receive_speed(f: FeaturesView, g: FeaturesView, model: Model, s: u8, t: u8)
    ensures
        items_receive_speed(f, model, s).len() == items_receive_speed(g, model, t).len(),
        0 < items_receive_speed(f, model, s).len() < 23,
        forall|i: int| 0 <= i < items_receive_speed(f, model, s).len() ==> (#[trigger] items_receive_speed(f, model, s)[i]).label.len() < 40,
{
    reveal_strlit("   300 baud");
    reveal_strlit("   600 baud");
    reveal_strlit("  1200 baud");
    reveal_strlit("  2400 baud");
    reveal_strlit("  4800 baud");
    reveal_strlit("  9600 baud");
    reveal_strlit(" 19.2K baud");
    reveal_strlit(" 38.4K baud");
    reveal_strlit(" 57.6K baud");
    reveal_strlit(" 76.8K baud");
    reveal_strlit("115.2K baud");
    reveal_strlit("Transmit speed");
}

#[verifier::spinoff_prover]
proof fn lemma_len_transmit_flow(f: FeaturesView, g: FeaturesView, model: Model, s: u8, t: u8)
    ensures
        items_transmit_flow(f, model, s).len() == items_transmit_flow(g, model, t).len(),
        0 < items_transmit_flow(f, model, s).len() < 23,
        forall|i: int| 0 <= i < items_transmit_flow(f, model, s).len() ==> (#[trigger] items_transmit_flow(f, model, s)[i]).label.len() < 40,
{
    reveal_strlit("Both");
    reveal_strlit("DSR");
    reveal_strlit("None");
    reveal_strlit("XON/XOFF");
}

#[verifier::spinoff_prover]
proof fn lemma_len_receive_flow(f: FeaturesView, g: FeaturesView, model: Model, s: u8, t: u8)
    ensures
        items_receive_flow(f, model, s).len() == items_receive_flow(g, model, t).len(),
        0 < items_receive_flow(f, model, s).len() < 23,
        forall|i: int| 0 <= i < items_receive_flow(f, model, s).len() ==> (#[trigger] items_receive_flow(f, model, s)[i]).label.len() < 40,
{
    reveal_strlit("Both");
    reveal_strlit("DTR");
    reveal_strlit("None");
    reveal_strlit("XON/XOFF or XPC");
}

#[verifier::spinoff_prover]
proof fn lemma_len_threshold(f: FeaturesView, g: FeaturesView, model: Model, s: u8, t: u8)
    ensures
        items_threshold(f, model, s).len() == items_threshold(g, model, t).len(),
        0 < items_threshold(f, model, s).len() < 23,
        forall|i: int| 0 <= i < items_threshold(f, model, s).len() ==> (#[trigger] items_threshold(f, model, s)[i]).label.len() < 40,
{
    reveal_strlit("High (768)");
    reveal_strlit("Low (64)");
}

#[verifier::spinoff_prover]
proof fn lemma_len_transmit_rate(f: FeaturesView, g: FeaturesView, model: Model, s: u8, t: u8)
    ensures
        items_transmit_rate(f, model, s).len() == items_transmit_rate(g, model, t).len(),
        0 < items_transmit_rate(f, model, s).len() < 23,
        forall|i: int| 0 <= i < items_transmit_rate(f, model, s).len() ==> (#[trigger] items_transmit_rate(f, model, s)[i]).label.len() < 40,
{
    reveal_strlit(" 30 cps");
    reveal_strlit(" 50 cps");
    reveal_strlit("150 cps");
    reveal_strlit("None");
}

#[verifier::spinoff_prover]
proof fn lemma_len_fkey_rate(f: FeaturesView, g: FeaturesView, model: Model, s: u8, t: u8)
    ensures
        items_fkey_rate(f, model, s).len() == items_fkey_rate(g, model, t).len(),
        0 < items_fkey_rate(f, model, s).len() < 23,
        forall|i: int| 0 <= i < items_fkey_rate(f, model, s).len() ==> (#[trigger] items_fkey_rate(f, model, s)[i]).label.len() < 40,
{
    reveal_strlit(" 30 cps");
    reveal_strlit(" 50 cps");
    reveal_strlit("150 cps");
    reveal_strlit("None");
}

#[verifier::spinoff_prover]
proof fn lemma_len_modem(f: FeaturesView, g: FeaturesView, model: Model, s: u8, t: u8)
    ensures
        items_modem(f, model, s).len() == items_modem(g, model, t).len(),
        0 < items_modem(f, model, s).len() < 23,
        forall|i: int| 0 <= i < items_modem(f, model, s).len() ==> (#[trigger] items_modem(f, model, s)[i]).label.len() < 40,
{
    reveal_strlit("Disconnect delay");
    reveal_strlit("Enable modem control");
    reveal_strlit("Modem high speed");
    reveal_strlit("Modem low speed");
}

#[verifier::spinoff_prover]
proof fn lemma_len_disconnect(f: FeaturesView, g: FeaturesView, model: Model, s: u8, t: u8)
    ensures
        items_disconnect(f, model, s).len() == items_disconnect(g, model, t).len(),
        0 < items_disconnect(f, model, s).len() < 23,
        forall|i: int| 0 <= i < items_disconnect(f, model, s).len() ==> (#[trigger] items_disconnect(f, model, s)[i]).label.len() < 40,
{
    reveal_strlit("2 seconds");
    reveal_strlit("60 ms");
    reveal_strlit("No disconnect");
}

#[verifier::spinoff_prover]
proof fn lemma_len_modem_high(f: FeaturesView, g: FeaturesView, model: Model, s: u8, t: u8)
    ensures
        items_modem_high(f, model, s).len() == items_modem_high(g, model, t).len(),
        0 < items_modem_high(f, model, s).len() < 23,
        forall|i: int| 0 <= i < items_modem_high(f, model, s).len() ==> (#[trigger] items_modem_high(f, model, s)[i]).label.len() < 40,
{
    reveal_strlit("   300 baud");
    reveal_strlit("   600 baud");
    reveal_strlit("  1200 baud");
    reveal_strlit("  2400 baud");
    reveal_strlit("  4800 baud");
    reveal_strlit("  9600 baud");
    reveal_strlit(" 19.2K baud");
    reveal_strlit(" 38.4K baud");
    reveal_strlit(" 57.6K baud");
    reveal_strlit(" 76.8K baud");
    reveal_strlit("115.2K baud");
    reveal_strlit("Ignore");
}

#[verifier::spinoff_prover]
proof fn lemma_len_modem_low(f: FeaturesView, g: FeaturesView, model: Model, s: u8, t: u8)
    ensures
        items_modem_low(f, model, s).len() == items_modem_low(g, model, t).len(),
        0 < items_modem_low(f, model, s).len() < 23,
        forall|i: int| 0 <= i < items_modem_low(f, model, s).len() ==> (#[trigger] items_modem_low(f, model, s)[i]).label.len() < 40,
{
    reveal_strlit("   300 baud");
    reveal_strlit("   600 baud");
    reveal_strlit("  1200 baud");
    reveal_strlit("  2400 baud");
    reveal_strlit("  4800 baud");
    reveal_strlit("  9600 baud");
    reveal_strlit(" 19.2K baud");
    reveal_strlit(" 38.4K baud");
    reveal_strlit(" 57.6K baud");
    reveal_strlit(" 76.8K baud");
    reveal_strlit("115.2K baud");
    reveal_strlit("Ignore");
}

#[verifier::spinoff_prover]
proof fn lemma_len_printer(f: FeaturesView, g: FeaturesView, model: Model, s: u8, t: u8)
    ensures
        items_printer(f, model, s).len() == items_printer(g, model, t).len(),
        0 < items_printer(f, model, s).len() < 23,
        forall|i: int| 0 <= i < items_printer(f, model, s).len() ==> (#[trigger] items_printer(f, model, s)[i]).label.len() < 40,
{
    reveal_strlit("2-way communication");
    reveal_strlit("DEC/ISO char sets");
    reveal_strlit("PC character sets");
    reveal_strlit("Parity");
    reveal_strlit("Port select...");
    reveal_strlit("Print extent");
    reveal_strlit("Print mode");
    reveal_strlit("Print terminator");
    reveal_strlit("Printer type");
    reveal_strlit("Receive flow control");
    reveal_strlit("Serial print speed");
    reveal_strlit("Stop bits");
    reveal_strlit("Transmit flow control");
    reveal_strlit("Word size");
}

#[verifier::spinoff_prover]
proof fn lemma_len_language(f: FeaturesView, g: FeaturesView, model: Model, s: u8, t: u8)
    ensures
        items_language(f, model, s).len() == items_language(g, model, t).len(),
        0 < items_language(f, model, s).len() < 23,
        forall|i: int| 0 <= i < items_language(f, model, s).len() ==> (#[trigger] items_language(f, model, s)[i]).label.len() < 40,
{
    reveal_strlit("English");
    reveal_strlit("French");
    reveal_strlit("German");
    reveal_strlit("Italian");
    reveal_strlit("Spanish");
}

/// Every menu has items, as many for any features and session.
proof fn lemma_items_len(menu: Menu, f: FeaturesView, g: FeaturesView, model: Model, s: u8, t: u8)
    ensures
        menu_items_spec(menu, f, model, s).len() == menu_items_spec(menu, g, model, t).len(),
        0 < menu_items_spec(menu, f, model, s).len() < 23,
        forall|i: int| 0 <= i < menu_items_spec(menu, f, model, s).len() ==> (#[trigger] menu_items_spec(menu, f, model, s)[i]).label.len() < 40,
{
    match menu {
        Menu::Main => lemma_len_main(f, g, model, s, t),
        Menu::Actions => lemma_len_actions(f, g, model, s, t),
        Menu::Session => lemma_len_session(f, g, model, s, t),
        Menu::SelectSession => lemma_len_select_session(f, g, model, s, t),
        Menu::UpdateSession => lemma_len_update_session(f, g, model, s, t),
        Menu::Display => lemma_len_display(f, g, model, s, t),
        Menu::LinesPerScreen => lemma_len_lines_per_screen(f, g, model, s, t),
        Menu::LinesPerPage => lemma_len_lines_per_page(f, g, model, s, t),
        Menu::Columns => lemma_len_columns(f, g, model, s, t),
        Menu::Status => lemma_len_status(f, g, model, s, t),
        Menu::Scrolling => lemma_len_scrolling(f, g, model, s, t),
        Menu::Background => lemma_len_background(f, g, model, s, t),
        Menu::CursorDisplay => lemma_len_cursor_display(f, g, model, s, t),
        Menu::CursorCoupling => lemma_len_cursor_coupling(f, g, model, s, t),
        Menu::WritingDirection => lemma_len_writing_direction(f, g, model, s, t),
        Menu::Zero => lemma_len_zero(f, g, model, s, t),
        Menu::CrtSaver => lemma_len_crt_saver(f, g, model, s, t),
        Menu::EnergySaver => lemma_len_energy_saver(f, g, model, s, t),
        Menu::Color => lemma_len_color(f, g, model, s, t),
        Menu::TerminalType => lemma_len_terminal_type(f, g, model, s, t),
        Menu::Emulation => lemma_len_emulation(f, g, model, s, t),
        Menu::TerminalId => lemma_len_terminal_id(f, g, model, s, t),
        Menu::CharacterSet => lemma_len_character_set(f, g, model, s, t),
        Menu::AsciiEmulation => lemma_len_ascii_emulation(f, g, model, s, t),
        Menu::Keyboard => lemma_len_keyboard(f, g, model, s, t),
        Menu::VtLanguage => lemma_len_vt_language(f, g, model, s, t),
        Menu::CapsLock => lemma_len_caps_lock(f, g, model, s, t),
        Menu::Keyclick => lemma_len_keyclick(f, g, model, s, t),
        Menu::WarningBell => lemma_len_warning_bell(f, g, model, s, t),
        Menu::MarginBell => lemma_len_margin_bell(f, g, model, s, t),
        Menu::Encoding => lemma_len_encoding(f, g, model, s, t),
        Menu::AutoRepeat => lemma_len_auto_repeat(f, g, model, s, t),
        Menu::Communication => lemma_len_communication(f, g, model, s, t),
        Menu::WordSize => lemma_len_word_size(f, g, model, s, t),
        Menu::Parity => lemma_len_parity(f, g, model, s, t),
        Menu::StopBits => lemma_len_stop_bits(f, g, model, s, t),
        Menu::TransmitSpeed => lemma_len_transmit_speed(f, g, model, s, t),
        Menu::ReceiveSpeed => lemma_len_receive_speed(f, g, model, s, t),
        Menu::TransmitFlow => lemma_len_transmit_flow(f, g, model, s, t),
        Menu::ReceiveFlow => lemma_len_receive_flow(f, g, model, s, t),
        Menu::Threshold => lemma_len_threshold(f, g, model, s, t),
        Menu::TransmitRate => lemma_len_transmit_rate(f, g, model, s, t),
        Menu::FkeyRate => lemma_len_fkey_rate(f, g, model, s, t),
        Menu::Modem => lemma_len_modem(f, g, model, s, t),
        Menu::Disconnect => lemma_len_disconnect(f, g, model, s, t),
        Menu::ModemHigh => lemma_len_modem_high(f, g, model, s, t),
        Menu::ModemLow => lemma_len_modem_low(f, g, model, s, t),
        Menu::Printer => lemma_len_printer(f, g, model, s, t),
        Menu::Language => lemma_len_language(f, g, model, s, t),
    }
}

/// The next (or previous) selectable item, trying the `k`-th item after
/// (or before) `at` and on round the menu; `at` when there is none.
pub open spec fn step_from(items: Seq<ItemView>, at: nat, forward: bool, k: nat) -> nat
    decreases items.len() + 1 - k,
{
    let n = items.len();
    if k == 0 || k > n {
        at
    } else {
        let i: int = if forward { ((at + k) % n) as int } else { (at + n - k) % (n as int) };
        if selectable(items[i]) {
            i as nat
        } else {
            step_from(items, at, forward, k + 1)
        }
    }
}

/// The first item from `k` on that is a selected radio button and can be
/// chosen; -1 for none.
pub open spec fn first_on(items: Seq<ItemView>, k: nat) -> int
    decreases items.len() - k,
{
    if k >= items.len() {
        -1
    } else if selectable(items[k as int]) && items[k as int].kind matches ItemKind::Radio(true, _) {
        k as int
    } else {
        first_on(items, k + 1)
    }
}

/// The first item from `k` on that can be chosen; -1 for none.
pub open spec fn first_selectable(items: Seq<ItemView>, k: nat) -> int
    decreases items.len() - k,
{
    if k >= items.len() {
        -1
    } else if selectable(items[k as int]) {
        k as int
    } else {
        first_selectable(items, k + 1)
    }
}

/// Whether a menu has check boxes.
pub open spec fn has_checks(items: Seq<ItemView>) -> bool {
    exists|i: int| 0 <= i < items.len() && #[trigger] items[i].kind is Check
}

/// An open dialog box, as values.
pub ghost enum DialogView {
    /// Focus: 0 the message, 1 OK, 2 Cancel.
    Answerback { text: Seq<u8>, focus: u8 },
    /// Focus: 0 the ruler, then the OK, Cancel, Set 8 column tabs and
    /// Clear all tabs buttons.
    Tabs { tabs: Seq<bool>, col: usize, focus: u8 },
}

/// An open dialog box.
#[derive(Debug, Clone)]
pub enum Dialog {
    Answerback { text: Vec<u8>, focus: u8 },
    Tabs { tabs: Vec<bool>, col: usize, focus: u8 },
}

impl View for Dialog {
    type V = DialogView;

    open spec fn view(&self) -> DialogView {
        match self {
            Dialog::Answerback { text, focus } => DialogView::Answerback { text: text@, focus: *focus },
            Dialog::Tabs { tabs, col, focus } => DialogView::Tabs { tabs: tabs@, col: *col, focus: *focus },
        }
    }
}

/// An open VT500 Set-Up, as values.
pub ghost struct MenusView {
    pub model: Model,
    pub version: Seq<char>,
    pub features: FeaturesView,
    pub session: u8,
    /// The open menus from the main menu down, each with its cursor.
    pub path: Seq<(Menu, usize)>,
    pub dialog: Option<DialogView>,
    pub message: Option<Seq<char>>,
    pub clear_display: bool,
    pub aligning: bool,
}

/// An open VT500 Set-Up.
#[derive(Debug, Clone)]
pub struct Menus {
    model: Model,
    version: String,
    features: Features,
    session: u8,
    path: Vec<(Menu, usize)>,
    dialog: Option<Dialog>,
    message: Option<&'static str>,
    clear_display: bool,
    aligning: bool,
}

pub open spec fn opt_dialog_view(d: Option<Dialog>) -> Option<DialogView> {
    match d {
        Some(d) => Some(d@),
        None => None,
    }
}

pub open spec fn opt_str_view(m: Option<&'static str>) -> Option<Seq<char>> {
    match m {
        Some(m) => Some(m@),
        None => None,
    }
}

impl View for Menus {
    type V = MenusView;

    closed spec fn view(&self) -> MenusView {
        MenusView {
            model: self.model,
            version: self.version@,
            features: self.features@,
            session: self.session,
            path: self.path@,
            dialog: opt_dialog_view(self.dialog),
            message: opt_str_view(self.message),
            clear_display: self.clear_display,
            aligning: self.aligning,
        }
    }
}

/// The items of a menu of the open Set-Up.
pub open spec fn items_of(v: MenusView, menu: Menu) -> Seq<ItemView> {
    menu_items_spec(menu, v.features, v.model, v.session)
}

/// The line width of the features.
pub open spec fn menu_cols(f: FeaturesView) -> nat {
    if f.display.columns_132 { 132 } else { 80 }
}

/// An open Set-Up can take keys: the main menu is open, every cursor is on
/// an item of its menu, and a dialog's focus and column are in range.
pub open spec fn cursors_ok(v: MenusView) -> bool {
    forall|i: int| 0 <= i < v.path.len() ==> (#[trigger] v.path[i]).1 < items_of(v, v.path[i].0).len()
}

pub open spec fn menus_ok(v: MenusView) -> bool {
    &&& 1 <= v.path.len()
    &&& cursors_ok(v)
    &&& match v.dialog {
        Some(DialogView::Answerback { focus, .. }) => focus <= 2,
        Some(DialogView::Tabs { tabs, col, focus }) => (tabs.len() == 80 || tabs.len() == 132) && col < tabs.len()
            && focus <= 4,
        None => true,
    }
}

/// A newly opened Set-Up: the main menu, its cursor on the first item.
pub open spec fn menus_initial(model: Model, version: Seq<char>, features: FeaturesView) -> MenusView {
    MenusView {
        model,
        version,
        features,
        session: 1,
        path: seq![(Menu::Main, 0usize)],
        dialog: None,
        message: None,
        clear_display: false,
        aligning: false,
    }
}

/// The Set-Up with `menu` opened from the last open menu: the cursor on
/// its current setting, or its first item that can be chosen; a message
/// when it has none.
pub open spec fn opened(v: MenusView, menu: Menu) -> MenusView {
    let items = items_of(v, menu);
    let a = first_on(items, 0);
    let b = first_selectable(items, 0);
    if a >= 0 {
        MenusView { path: v.path.push((menu, a as usize)), ..v }
    } else if b >= 0 {
        MenusView { path: v.path.push((menu, b as usize)), ..v }
    } else {
        MenusView { message: Some("Not available"@), ..v }
    }
}

/// The Set-Up with a setting chosen.
pub open spec fn with_setting(v: MenusView, s: MenuSetting) -> MenusView {
    MenusView { features: setting_applied(v.features, s), ..v }
}

/// The Set-Up with the last open menu closed.
pub open spec fn closed_last(v: MenusView) -> MenusView {
    MenusView { path: v.path.drop_last(), ..v }
}

/// Choosing an item.
pub open spec fn activated(v: MenusView, enabled: bool, kind: ItemKind) -> (MenusView, Outcome) {
    if !enabled {
        (v, Outcome::Redraw)
    } else {
        match kind {
            ItemKind::Sub(m) => (opened(v, m), Outcome::Redraw),
            ItemKind::Check(_, s) => (with_setting(v, s), Outcome::Redraw),
            ItemKind::Radio(_, s) => {
                let w = with_setting(v, s);
                let menu = w.path.last().0;
                // A choice closes its menu, unless check boxes share it.
                if w.path.len() > 1 && !has_checks(items_of(w, menu)) {
                    (closed_last(w), Outcome::Redraw)
                } else {
                    (w, Outcome::Redraw)
                }
            },
            ItemKind::Do(c) => match c {
                Command::Action(a) => (v, Outcome::Action(a)),
                Command::ClearDisplay => (MenusView { clear_display: true, message: Some("Done"@), ..v }, Outcome::Redraw),
                Command::Exit => (v, Outcome::Exit),
                Command::Align => (MenusView { aligning: true, ..v }, Outcome::Redraw),
                Command::Answerback => (
                    MenusView {
                        dialog: Some(
                            DialogView::Answerback {
                                text: if v.features.modem.conceal_answerback { Seq::empty() } else { v.features.modem.answerback },
                                focus: 0,
                            },
                        ),
                        ..v
                    },
                    Outcome::Redraw,
                ),
                Command::Tabs => (
                    MenusView {
                        dialog: Some(
                            DialogView::Tabs {
                                tabs: tabs_resized(v.features.layout.tabs, menu_cols(v.features)),
                                col: 0,
                                focus: 0,
                            },
                        ),
                        ..v
                    },
                    Outcome::Redraw,
                ),
                Command::Unavailable => (v, Outcome::Redraw),
            },
            ItemKind::Separator => (v, Outcome::Redraw),
        }
    }
}

/// A byte added to an answerback message of at most 30.
pub open spec fn answerback_pushed(text: Seq<u8>, b: u8) -> Seq<u8> {
    if text.len() < 30 { text.push(b) } else { text }
}

/// The answerback message accepted.
pub open spec fn answerback_accepted(v: MenusView, text: Seq<u8>) -> MenusView {
    MenusView {
        features: FeaturesView {
            modem: ModemView { answerback: text, conceal_answerback: false, ..v.features.modem },
            ..v.features
        },
        ..v
    }
}

/// A key in the answerback dialog; `v` has the dialog closed.
pub open spec fn answerback_input(v: MenusView, text: Seq<u8>, focus: u8, input: Input) -> (MenusView, Outcome) {
    let keep = |t: Seq<u8>, fo: u8| (MenusView { dialog: Some(DialogView::Answerback { text: t, focus: fo }), ..v }, Outcome::Redraw);
    match input {
        Input::SetUp => (answerback_accepted(v, text), Outcome::Exit),
        Input::Enter => if focus == 1 {
            (answerback_accepted(v, text), Outcome::Redraw)
        } else if focus == 2 {
            (v, Outcome::Redraw)
        } else {
            keep(answerback_pushed(text, 13), focus)
        },
        Input::Tab => if focus == 0 {
            keep(answerback_pushed(text, 9), focus)
        } else if focus == 1 {
            keep(text, 2)
        } else {
            keep(text, 0)
        },
        Input::Text(typed) => if focus == 0 { keep(typed_text(text, typed@), focus) } else { keep(text, focus) },
        Input::Backspace => if focus == 0 { keep(popped(text), focus) } else { keep(text, focus) },
        Input::Down => if focus == 0 { keep(text, 1) } else { keep(text, focus) },
        Input::Up => keep(text, 0),
        Input::Left => if focus == 2 { keep(text, 1) } else { keep(text, focus) },
        Input::Right => if focus == 1 { keep(text, 2) } else { keep(text, focus) },
    }
}

/// A message without its last byte.
pub open spec fn popped(t: Seq<u8>) -> Seq<u8> {
    if t.len() > 0 { t.drop_last() } else { t }
}

/// The Set-Up with the tab stops accepted.
pub open spec fn tabs_accepted(v: MenusView, tabs: Seq<bool>) -> MenusView {
    MenusView { features: FeaturesView { layout: LayoutView { tabs, ..v.features.layout }, ..v.features }, ..v }
}

/// A key in the tabs dialog; `v` has the dialog closed.
pub open spec fn tabs_input(v: MenusView, tabs: Seq<bool>, col: usize, focus: u8, input: Input) -> (MenusView, Outcome) {
    let cols = tabs.len();
    let row = cols / 2;
    let keep = |t: Seq<bool>, c: usize, fo: u8| (MenusView { dialog: Some(DialogView::Tabs { tabs: t, col: c, focus: fo }), ..v }, Outcome::Redraw);
    match input {
        Input::SetUp => (tabs_accepted(v, tabs), Outcome::Exit),
        Input::Enter => if focus == 0 {
            // No tab stop in column 1.
            keep(if col > 0 { tabs.update(col as int, !tabs[col as int]) } else { tabs }, col, focus)
        } else if focus == 1 {
            (tabs_accepted(v, tabs), Outcome::Redraw)
        } else if focus == 2 {
            (v, Outcome::Redraw)
        } else if focus == 3 {
            keep(default_tabs_spec(cols), col, focus)
        } else {
            keep(Seq::new(cols, |i: int| false), col, focus)
        },
        _ => {
            let m = tabs_moved(cols, col, focus, input);
            keep(tabs, m.0, m.1)
        },
    }
}

/// The column and focus after an arrow or Tab key in the tabs dialog.
pub open spec fn tabs_moved(cols: nat, col: usize, focus: u8, input: Input) -> (usize, u8) {
    let row = cols / 2;
    match input {
        Input::Left => if focus == 0 {
            (((col + cols - 1) % (cols as int)) as usize, focus)
        } else {
            (col, if focus - 1 >= 1 { (focus - 1) as u8 } else { 1u8 })
        },
        Input::Right => if focus == 0 {
            (((col + 1) % (cols as int)) as usize, focus)
        } else {
            (col, if focus + 1 <= 4 { (focus + 1) as u8 } else { 4u8 })
        },
        Input::Down => if focus == 0 && col + row < cols {
            ((col + row) as usize, focus)
        } else if focus == 0 {
            (col, 1u8)
        } else {
            (col, focus)
        },
        Input::Up => if focus == 0 {
            (if col >= row { (col - row) as usize } else { 0usize }, focus)
        } else {
            (col, 0u8)
        },
        Input::Tab => (col, ((focus + 1) % 5) as u8),
        _ => (col, focus),
    }
}

/// What a key does to an open Set-Up. Every key clears the last message.
pub open spec fn menus_input(v0: MenusView, input: Input) -> (MenusView, Outcome) {
    let v = MenusView { message: None, ..v0 };
    if v.aligning {
        (MenusView { aligning: false, ..v }, Outcome::Redraw)
    } else {
        match v.dialog {
            Some(DialogView::Answerback { text, focus }) => answerback_input(MenusView { dialog: None, ..v }, text, focus, input),
            Some(DialogView::Tabs { tabs, col, focus }) => tabs_input(MenusView { dialog: None, ..v }, tabs, col, focus, input),
            None => {
                let depth = v.path.len() - 1;
                let menu = v.path[depth].0;
                let at = v.path[depth].1;
                let items = items_of(v, menu);
                match input {
                    Input::SetUp => (v, Outcome::Exit),
                    Input::Up => (MenusView { path: v.path.update(depth, (menu, step_from(items, at as nat, false, 1) as usize)), ..v }, Outcome::Redraw),
                    Input::Down | Input::Tab => (MenusView { path: v.path.update(depth, (menu, step_from(items, at as nat, true, 1) as usize)), ..v }, Outcome::Redraw),
                    Input::Left => if depth > 0 { (closed_last(v), Outcome::Redraw) } else { (v, Outcome::Redraw) },
                    Input::Right => if at < items.len() && items[at as int].kind is Sub {
                        (opened(v, items[at as int].kind->Sub_0), Outcome::Redraw)
                    } else {
                        (v, Outcome::Redraw)
                    },
                    Input::Enter => if at < items.len() { activated(v, items[at as int].enabled, items[at as int].kind) } else { (v, Outcome::Redraw) },
                    Input::Backspace | Input::Text(_) => (v, Outcome::Redraw),
                }
            },
        }
    }
}

/// The cursors stay on items when the features or the session change.
proof fn lemma_cursors_kept(v: MenusView, w: MenusView)
    requires
        cursors_ok(v),
        w.path == v.path,
        w.model == v.model,
    ensures
        cursors_ok(w),
{
    assert forall|i: int| 0 <= i < w.path.len() implies (#[trigger] w.path[i]).1 < items_of(w, w.path[i].0).len() by {
        assert(v.path[i] == w.path[i]);
        lemma_items_len(w.path[i].0, v.features, w.features, v.model, v.session, w.session);
    }
}

pub open spec fn item_views(s: Seq<MenuItem>) -> Seq<ItemView> {
    s.map_values(|i: MenuItem| i@)
}

fn is_selectable(i: &MenuItem) -> (r: bool)
    ensures
        r == selectable(i@),
{
    i.enabled && !matches!(i.kind, ItemKind::Separator)
}

/// The next (or previous) selectable item, round the menu.
fn step(items: &Vec<MenuItem>, at: usize, forward: bool) -> (r: usize)
    requires
        0 < items@.len() < 64,
        at < items@.len(),
    ensures
        r == step_from(item_views(items@), at as nat, forward, 1),
        r < items@.len(),
{
    let n = items.len();
    let ghost vs = item_views(items@);
    let mut k: usize = 1;
    while k <= n
        invariant
            1 <= k <= n + 1,
            n == items@.len(),
            0 < n < 64,
            at < n,
            vs == item_views(items@),
            step_from(vs, at as nat, forward, k as nat) == step_from(vs, at as nat, forward, 1),
        decreases n + 1 - k,
    {
        let i = if forward { (at + k) % n } else { (at + n - k) % n };
        if is_selectable(&items[i]) {
            return i;
        }
        k = k + 1;
    }
    at
}

/// The first selected radio button that can be chosen, else the first item
/// that can be chosen.
fn cursor_start(items: &Vec<MenuItem>) -> (r: Option<usize>)
    ensures
        first_on(item_views(items@), 0) >= 0 ==> r == Some(first_on(item_views(items@), 0) as usize),
        first_on(item_views(items@), 0) < 0 && first_selectable(item_views(items@), 0) >= 0 ==> r == Some(
            first_selectable(item_views(items@), 0) as usize,
        ),
        first_on(item_views(items@), 0) < 0 && first_selectable(item_views(items@), 0) < 0 ==> r is None,
        r matches Some(i) ==> i < items@.len(),
{
    let ghost vs = item_views(items@);
    let mut k: usize = 0;
    while k < items.len()
        invariant
            k <= items@.len(),
            vs == item_views(items@),
            first_on(vs, k as nat) == first_on(vs, 0),
        decreases items@.len() - k,
    {
        if is_selectable(&items[k]) && matches!(items[k].kind, ItemKind::Radio(true, _)) {
            return Some(k);
        }
        k = k + 1;
    }
    let mut k: usize = 0;
    while k < items.len()
        invariant
            k <= items@.len(),
            vs == item_views(items@),
            first_on(vs, 0) < 0,
            first_selectable(vs, k as nat) == first_selectable(vs, 0),
        decreases items@.len() - k,
    {
        if is_selectable(&items[k]) {
            return Some(k);
        }
        k = k + 1;
    }
    None
}

/// Whether a menu has check boxes.
fn any_check(items: &Vec<MenuItem>) -> (r: bool)
    ensures
        r == has_checks(item_views(items@)),
{
    let ghost vs = item_views(items@);
    let mut k: usize = 0;
    while k < items.len()
        invariant
            k <= items@.len(),
            vs == item_views(items@),
            forall|j: int| 0 <= j < k ==> !(#[trigger] vs[j].kind is Check),
        decreases items@.len() - k,
    {
        if matches!(items[k].kind, ItemKind::Check(..)) {
            assert(vs[k as int].kind is Check);
            return true;
        }
        k = k + 1;
    }
    false
}

impl Menus {
    /// Opens the menus for `model` with `features`; `version` is the
    /// firmware version the summary line shows.
    pub fn new(model: Model, version: &str, features: Features) -> (r: Menus)
        ensures
            r@ == menus_initial(model, version@, features@),
            menus_ok(r@),
    {
        let mut path: Vec<(Menu, usize)> = Vec::new();
        path.push((Menu::Main, 0));
        let r = Menus {
            model,
            version: label_string(version),
            features,
            session: 1,
            path,
            dialog: None,
            message: None,
            clear_display: false,
            aligning: false,
        };
        proof {
            lemma_items_len(Menu::Main, r@.features, r@.features, model, 1, 1);
            assert(r@.path =~= seq![(Menu::Main, 0usize)]);
        }
        r
    }

    /// The session Set-Up was opened in, shown by the summary line.
    pub fn set_session(&mut self, session: u8)
        requires
            menus_ok(old(self)@),
        ensures
            final(self)@ == (MenusView { session, ..old(self)@ }),
            menus_ok(final(self)@),
    {
        self.session = session;
        proof {
            lemma_cursors_kept(old(self)@, self@);
        }
    }

    pub fn features(&self) -> (r: &Features)
        ensures
            r@ == self@.features,
    {
        &self.features
    }

    /// Replaces the features shown, after an action changed them.
    pub fn set_features(&mut self, features: Features)
        requires
            menus_ok(old(self)@),
        ensures
            final(self)@ == (MenusView { features: features@, ..old(self)@ }),
            menus_ok(final(self)@),
    {
        self.features = features;
        proof {
            lemma_cursors_kept(old(self)@, self@);
        }
    }

    /// True if Clear Display was chosen: clear the page on leaving.
    pub fn clear_display_on_exit(&self) -> (r: bool)
        ensures
            r == self@.clear_display,
    {
        self.clear_display
    }

    /// The last status message ("Done"), until the next key.
    pub fn message(&self) -> (r: Option<&'static str>)
        ensures
            opt_str_view(r) == self@.message,
    {
        self.message
    }

    /// Reports that an action finished.
    pub fn done(&mut self)
        ensures
            final(self)@ == (MenusView { message: Some("Done"@), ..old(self)@ }),
    {
        self.message = Some("Done");
    }

    /// The open menus from the main menu down, each with its cursor.
    pub fn path(&self) -> (r: Vec<(Menu, usize)>)
        ensures
            r@ == self@.path,
    {
        let mut r: Vec<(Menu, usize)> = Vec::new();
        let mut i: usize = 0;
        while i < self.path.len()
            invariant
                i <= self.path@.len(),
                r@ == self.path@.subrange(0, i as int),
            decreases self.path@.len() - i,
        {
            r.push(self.path[i]);
            i = i + 1;
            assert(r@ =~= self.path@.subrange(0, i as int));
        }
        assert(self.path@.subrange(0, i as int) =~= self.path@);
        r
    }

    fn open(&mut self, menu: Menu)
        requires
            menus_ok(old(self)@),
        ensures
            final(self)@ == opened(old(self)@, menu),
            menus_ok(final(self)@),
    {
        let items = menu_items(menu, &self.features, self.model, self.session);
        proof {
            lemma_items_len(menu, self@.features, self@.features, self.model, self.session, self.session);
        }
        match cursor_start(&items) {
            Some(at) => {
                self.path.push((menu, at));
                proof {
                    assert forall|i: int| 0 <= i < self@.path.len() implies (#[trigger] self@.path[i]).1 < items_of(self@, self@.path[i].0).len() by {
                        if i < old(self)@.path.len() {
                            assert(self@.path[i] == old(self)@.path[i]);
                        }
                    }
                }
            },
            None => {
                self.message = Some("Not available");
            },
        }
    }
}

/// `tabs` resized to `cols` columns, none past the old end.
fn tabs_resized_of(tabs: &Vec<bool>, cols: usize) -> (r: Vec<bool>)
    ensures
        r@ == tabs_resized(tabs@, cols as nat),
{
    let mut r: Vec<bool> = Vec::new();
    let mut i: usize = 0;
    while i < cols
        invariant
            i <= cols,
            r@ =~= tabs_resized(tabs@, cols as nat).take(i as int),
        decreases cols - i,
    {
        let t = if i < tabs.len() { tabs[i] } else { false };
        r.push(t);
        i = i + 1;
        assert(r@ =~= tabs_resized(tabs@, cols as nat).take(i as int));
    }
    assert(r@ =~= tabs_resized(tabs@, cols as nat));
    r
}

/// No tab stops on a line `cols` wide.
fn no_tabs(cols: usize) -> (r: Vec<bool>)
    ensures
        r@ == Seq::new(cols as nat, |i: int| false),
{
    let mut r: Vec<bool> = Vec::new();
    let mut i: usize = 0;
    while i < cols
        invariant
            i <= cols,
            r@ =~= Seq::new(i as nat, |j: int| false),
        decreases cols - i,
    {
        r.push(false);
        i = i + 1;
        assert(r@ =~= Seq::new(i as nat, |j: int| false));
    }
    r
}

fn pushed_answerback(text: Vec<u8>, b: u8) -> (r: Vec<u8>)
    ensures
        r@ == answerback_pushed(text@, b),
{
    let mut text = text;
    if text.len() < 30 {
        text.push(b);
    }
    text
}

fn popped_of(text: Vec<u8>) -> (r: Vec<u8>)
    ensures
        r@ == popped(text@),
{
    let mut text = text;
    if text.len() > 0 {
        text.pop();
    }
    text
}

fn features_with_answerback(f: &mut Features, text: Vec<u8>)
    ensures
        final(f)@ == (FeaturesView {
            modem: ModemView { answerback: text@, conceal_answerback: false, ..old(f)@.modem },
            ..old(f)@
        }),
{
    let mut taken = Features::factory(Model::Vt520);
    std::mem::swap(&mut taken, f);
    let mut rd = reading_of(taken);
    rd.modem.answerback = text;
    rd.modem.conceal_answerback = false;
    *f = features_of(rd);
}

fn features_with_tabs(f: &mut Features, tabs: Vec<bool>)
    ensures
        final(f)@ == (FeaturesView { layout: LayoutView { tabs: tabs@, ..old(f)@.layout }, ..old(f)@ }),
{
    let mut taken = Features::factory(Model::Vt520);
    std::mem::swap(&mut taken, f);
    let mut rd = reading_of(taken);
    rd.layout.tabs = tabs;
    *f = features_of(rd);
}

fn tabs_move(cols: usize, col: usize, focus: u8, input: &Input) -> (r: (usize, u8))
    requires
        cols == 80 || cols == 132,
        col < cols,
        focus <= 4,
    ensures
        r == tabs_moved(cols as nat, col, focus, *input),
        r.0 < cols,
        r.1 <= 4,
{
    let row = cols / 2;
    match input {
        Input::Left => if focus == 0 {
            ((col + cols - 1) % cols, focus)
        } else {
            (col, if focus - 1 >= 1 { focus - 1 } else { 1 })
        },
        Input::Right => if focus == 0 {
            ((col + 1) % cols, focus)
        } else {
            (col, if focus + 1 <= 4 { focus + 1 } else { 4 })
        },
        Input::Down => if focus == 0 && col + row < cols {
            (col + row, focus)
        } else if focus == 0 {
            (col, 1)
        } else {
            (col, focus)
        },
        Input::Up => if focus == 0 {
            (if col >= row { col - row } else { 0 }, focus)
        } else {
            (col, 0)
        },
        Input::Tab => (col, (focus + 1) % 5),
        _ => (col, focus),
    }
}

impl Menus {
    fn accept_answerback(&mut self, text: Vec<u8>)
        requires
            menus_ok(old(self)@),
        ensures
            final(self)@ == answerback_accepted(old(self)@, text@),
            menus_ok(final(self)@),
    {
        features_with_answerback(&mut self.features, text);
        proof {
            lemma_cursors_kept(old(self)@, self@);
        }
    }

    fn accept_tabs(&mut self, tabs: Vec<bool>)
        requires
            menus_ok(old(self)@),
        ensures
            final(self)@ == tabs_accepted(old(self)@, tabs@),
            menus_ok(final(self)@),
    {
        features_with_tabs(&mut self.features, tabs);
        proof {
            lemma_cursors_kept(old(self)@, self@);
        }
    }

    fn answerback_key(&mut self, text: Vec<u8>, focus: u8, input: Input) -> (r: Outcome)
        requires
            menus_ok(old(self)@),
            old(self)@.dialog is None,
            focus <= 2,
        ensures
            (final(self)@, r) == answerback_input(old(self)@, text@, focus, input),
            menus_ok(final(self)@),
    {
        let (text, focus) = match input {
            Input::SetUp => {
                self.accept_answerback(text);
                return Outcome::Exit;
            },
            Input::Enter => {
                if focus == 1 {
                    self.accept_answerback(text);
                    return Outcome::Redraw;
                } else if focus == 2 {
                    return Outcome::Redraw;
                } else {
                    (pushed_answerback(text, 13), focus)
                }
            },
            Input::Tab => {
                if focus == 0 {
                    (pushed_answerback(text, 9), focus)
                } else if focus == 1 {
                    (text, 2)
                } else {
                    (text, 0)
                }
            },
            Input::Text(typed) => {
                if focus == 0 {
                    (add_typed(text, typed.as_str()), focus)
                } else {
                    (text, focus)
                }
            },
            Input::Backspace => {
                if focus == 0 {
                    (popped_of(text), focus)
                } else {
                    (text, focus)
                }
            },
            Input::Down => if focus == 0 { (text, 1) } else { (text, focus) },
            Input::Up => (text, 0),
            Input::Left => if focus == 2 { (text, 1) } else { (text, focus) },
            Input::Right => if focus == 1 { (text, 2) } else { (text, focus) },
        };
        self.dialog = Some(Dialog::Answerback { text, focus });
        Outcome::Redraw
    }

    #[verifier::spinoff_prover]
    #[verifier::rlimit(60)]
    fn tabs_key(&mut self, tabs: Vec<bool>, col: usize, focus: u8, input: Input) -> (r: Outcome)
        requires
            menus_ok(old(self)@),
            old(self)@.dialog is None,
            tabs@.len() == 80 || tabs@.len() == 132,
            col < tabs@.len(),
            focus <= 4,
        ensures
            (final(self)@, r) == tabs_input(old(self)@, tabs@, col, focus, input),
            menus_ok(final(self)@),
    {
        let cols = tabs.len();
        let row = cols / 2;
        let mut tabs = tabs;
        let (col, focus) = match input {
            Input::SetUp => {
                self.accept_tabs(tabs);
                return Outcome::Exit;
            },
            Input::Enter => {
                if focus == 0 {
                    if col > 0 {
                        let t = tabs[col];
                        tabs.set(col, !t);
                    }
                    (col, focus)
                } else if focus == 1 {
                    self.accept_tabs(tabs);
                    return Outcome::Redraw;
                } else if focus == 2 {
                    return Outcome::Redraw;
                } else if focus == 3 {
                    tabs = default_tabs(cols);
                    (col, focus)
                } else {
                    tabs = no_tabs(cols);
                    (col, focus)
                }
            },
            _ => tabs_move(cols, col, focus, &input),
        };
        self.dialog = Some(Dialog::Tabs { tabs, col, focus });
        Outcome::Redraw
    }

    #[verifier::spinoff_prover]
    #[verifier::rlimit(60)]
    fn activate(&mut self, enabled: bool, kind: ItemKind) -> (r: Outcome)
        requires
            menus_ok(old(self)@),
            old(self)@.dialog is None,
        ensures
            (final(self)@, r) == activated(old(self)@, enabled, kind),
            menus_ok(final(self)@),
    {
        if !enabled {
            return Outcome::Redraw;
        }
        match kind {
            ItemKind::Sub(m) => {
                self.open(m);
                Outcome::Redraw
            },
            ItemKind::Check(_, s) => {
                apply_setting(&mut self.features, s);
                proof {
                    lemma_cursors_kept(old(self)@, self@);
                }
                Outcome::Redraw
            },
            ItemKind::Radio(_, s) => {
                self.choose_radio(s);
                Outcome::Redraw
            },
            ItemKind::Do(c) => self.command(c),
            ItemKind::Separator => Outcome::Redraw,
        }
    }

    fn choose_radio(&mut self, s: MenuSetting)
        requires
            menus_ok(old(self)@),
            old(self)@.dialog is None,
        ensures
            final(self)@ == activated(old(self)@, true, ItemKind::Radio(true, s)).0,
            menus_ok(final(self)@),
    {
        apply_setting(&mut self.features, s);
        proof {
            lemma_cursors_kept(old(self)@, self@);
        }
        {
                let n = self.path.len();
                let menu = self.path[n - 1].0;
                let items = menu_items(menu, &self.features, self.model, self.session);
                let checks = any_check(&items);
                if n > 1 && !checks {
                    self.path.pop();
                    proof {
                        assert forall|i: int| 0 <= i < self@.path.len() implies (#[trigger] self@.path[i]).1 < items_of(self@, self@.path[i].0).len() by {
                            assert(self@.path[i] == old(self)@.path[i]);
                            lemma_items_len(self@.path[i].0, old(self)@.features, self@.features, self.model, self.session, self.session);
                        }
                    }
                }
        }
    }

    #[verifier::spinoff_prover]
    #[verifier::rlimit(60)]
    fn command(&mut self, c: Command) -> (r: Outcome)
        requires
            menus_ok(old(self)@),
            old(self)@.dialog is None,
        ensures
            (final(self)@, r) == activated(old(self)@, true, ItemKind::Do(c)),
            menus_ok(final(self)@),
    {
        match c {
                Command::Action(a) => Outcome::Action(a),
                Command::ClearDisplay => {
                    self.clear_display = true;
                    self.message = Some("Done");
                    Outcome::Redraw
                },
                Command::Exit => Outcome::Exit,
                Command::Align => {
                    self.aligning = true;
                    Outcome::Redraw
                },
                Command::Answerback => {
                    let text = if self.features.conceal_answerback {
                        Vec::new()
                    } else {
                        self.features.answerback.clone()
                    };
                    self.dialog = Some(Dialog::Answerback { text, focus: 0 });
                    Outcome::Redraw
                },
                Command::Tabs => {
                    let cols: usize = if self.features.columns_132 { 132 } else { 80 };
                    let tabs = tabs_resized_of(&self.features.tabs, cols);
                    self.dialog = Some(Dialog::Tabs { tabs, col: 0, focus: 0 });
                    Outcome::Redraw
                },
                Command::Unavailable => Outcome::Redraw,
        }
    }

    /// Handles a key. Every key clears the last message.
    pub fn input(&mut self, input: Input) -> (r: Outcome)
        requires
            menus_ok(old(self)@),
        ensures
            (final(self)@, r) == menus_input(old(self)@, input),
            menus_ok(final(self)@),
    {
        self.message = None;
        if self.aligning {
            self.aligning = false;
            return Outcome::Redraw;
        }
        let mut dialog: Option<Dialog> = None;
        std::mem::swap(&mut dialog, &mut self.dialog);
        match dialog {
            Some(Dialog::Answerback { text, focus }) => {
                return self.answerback_key(text, focus, input);
            },
            Some(Dialog::Tabs { tabs, col, focus }) => {
                return self.tabs_key(tabs, col, focus, input);
            },
            None => {},
        }
        let depth = self.path.len() - 1;
        let (menu, at) = self.path[depth];
        let items = menu_items(menu, &self.features, self.model, self.session);
        proof {
            lemma_items_len(menu, self@.features, self@.features, self.model, self.session, self.session);
            assert(self@.path[depth as int] == (menu, at));
        }
        match input {
            Input::SetUp => Outcome::Exit,
            Input::Up => {
                let to = step(&items, at, false);
                self.path.set(depth, (menu, to));
                proof {
                    assert forall|i: int| 0 <= i < self@.path.len() implies (#[trigger] self@.path[i]).1 < items_of(self@, self@.path[i].0).len() by {
                        if i != depth {
                            assert(self@.path[i] == old(self)@.path[i]);
                        }
                    }
                }
                Outcome::Redraw
            },
            Input::Down | Input::Tab => {
                let to = step(&items, at, true);
                self.path.set(depth, (menu, to));
                proof {
                    assert forall|i: int| 0 <= i < self@.path.len() implies (#[trigger] self@.path[i]).1 < items_of(self@, self@.path[i].0).len() by {
                        if i != depth {
                            assert(self@.path[i] == old(self)@.path[i]);
                        }
                    }
                }
                Outcome::Redraw
            },
            Input::Left => {
                if depth > 0 {
                    self.path.pop();
                    proof {
                        assert forall|i: int| 0 <= i < self@.path.len() implies (#[trigger] self@.path[i]).1 < items_of(self@, self@.path[i].0).len() by {
                            assert(self@.path[i] == old(self)@.path[i]);
                        }
                    }
                }
                Outcome::Redraw
            },
            Input::Right => {
                if at < items.len() {
                    if let ItemKind::Sub(child) = items[at].kind {
                        self.open(child);
                    }
                }
                Outcome::Redraw
            },
            Input::Enter => {
                if at < items.len() {
                    let enabled = items[at].enabled;
                    let kind = items[at].kind;
                    self.activate(enabled, kind)
                } else {
                    Outcome::Redraw
                }
            },
            Input::Backspace | Input::Text(_) => Outcome::Redraw,
        }
    }
}

/// The parity letter of the summary line.
pub open spec fn parity_letter(p: Parity) -> char {
    match p {
        Parity::NoParity => 'N',
        Parity::Even | Parity::EvenUnchecked => 'E',
        Parity::Odd | Parity::OddUnchecked => 'O',
        Parity::Mark => 'M',
        Parity::Space => 'S',
    }
}

/// A model's name in capitals.
pub open spec fn model_label(m: Model) -> Seq<char> {
    match m {
        Model::Vt100 => "VT100"@,
        Model::Vt102 => "VT102"@,
        Model::Vt220 => "VT220"@,
        Model::Vt320 => "VT320"@,
        Model::Vt420 => "VT420"@,
        Model::Vt510 => "VT510"@,
        Model::Vt520 => "VT520"@,
        Model::Vt525 => "VT525"@,
    }
}

fn model_label_of(m: Model) -> (r: &'static str)
    ensures
        r@ == model_label(m),
{
    match m {
        Model::Vt100 => "VT100",
        Model::Vt102 => "VT102",
        Model::Vt220 => "VT220",
        Model::Vt320 => "VT320",
        Model::Vt420 => "VT420",
        Model::Vt510 => "VT510",
        Model::Vt520 => "VT520",
        Model::Vt525 => "VT525",
    }
}

/// The name of an operating level: the model's own name for VT500 mode.
pub open spec fn mode_label(mode: TerminalMode, model: Model) -> Seq<char> {
    match mode {
        TerminalMode::Vt52 => "VT52"@,
        TerminalMode::Vt100 => "VT100"@,
        TerminalMode::Level { level, .. } => if level == 5 { model_label(model) } else { "VT"@ + dec(level as nat) + "00"@ },
    }
}

fn push_mode_label(out: &mut Vec<char>, mode: TerminalMode, model: Model)
    ensures
        final(out)@ == old(out)@ + mode_label(mode, model),
{
    match mode {
        TerminalMode::Vt52 => push_str(out, "VT52"),
        TerminalMode::Vt100 => push_str(out, "VT100"),
        TerminalMode::Level { level, .. } => {
            if level == 5 {
                push_str(out, model_label_of(model));
            } else {
                push_str(out, "VT");
                push_dec(out, level as u64);
                push_str(out, "00");
                assert(out@ =~= old(out)@ + mode_label(mode, model));
            }
        },
    }
}

/// The keyboard language as the summary line names it.
pub open spec fn keyboard_short(k: Option<Nrc>) -> Seq<char> {
    match k {
        None => "North American"@,
        Some(Nrc::British) => "British"@,
        Some(Nrc::Dutch) => "Dutch"@,
        Some(Nrc::Finnish) => "Finnish"@,
        Some(Nrc::French) => "French/Belgian"@,
        Some(Nrc::FrenchCanadian) => "Canadian (French)"@,
        Some(Nrc::German) => "German"@,
        Some(Nrc::Italian) => "Italian"@,
        Some(Nrc::NorwegianDanish) => "Norwegian/Danish"@,
        Some(Nrc::Portuguese) => "Portuguese"@,
        Some(Nrc::Spanish) => "Spanish"@,
        Some(Nrc::Swedish) => "Swedish"@,
        Some(Nrc::Swiss) => "Swiss"@,
    }
}

fn keyboard_short_of(k: Option<Nrc>) -> (r: &'static str)
    ensures
        r@ == keyboard_short(k),
{
    match k {
        None => "North American",
        Some(Nrc::British) => "British",
        Some(Nrc::Dutch) => "Dutch",
        Some(Nrc::Finnish) => "Finnish",
        Some(Nrc::French) => "French/Belgian",
        Some(Nrc::FrenchCanadian) => "Canadian (French)",
        Some(Nrc::German) => "German",
        Some(Nrc::Italian) => "Italian",
        Some(Nrc::NorwegianDanish) => "Norwegian/Danish",
        Some(Nrc::Portuguese) => "Portuguese",
        Some(Nrc::Spanish) => "Spanish",
        Some(Nrc::Swedish) => "Swedish",
        Some(Nrc::Swiss) => "Swiss",
    }
}

/// `text` written over `line` from column `col`, cut at its end.
pub open spec fn put_text(line: Seq<char>, col: nat, text: Seq<char>) -> Seq<char> {
    Seq::new(line.len(), |j: int| if col <= j < col + text.len() { text[j - col] } else { line[j] })
}

/// `n` spaces.
pub open spec fn spaces(n: nat) -> Seq<char> {
    Seq::new(n, |i: int| ' ')
}

/// The communication settings of the summary line: speed, parity, data
/// bits and stop bits.
pub open spec fn line_settings(f: FeaturesView) -> Seq<char> {
    dec(f.line.transmit_speed as nat) + seq![
        parity_letter(f.line.parity),
        if f.line.seven_bit_data { '7' } else { '8' },
        if f.line.two_stop_bits { '2' } else { '1' },
    ]
}

/// The Set-Up summary line (2.1.6): the session and port, the
/// communication settings, the default character set, the keyboard, the
/// emulation and the firmware version; a message in its place until the
/// next key.
pub open spec fn summary_line_text(v: MenusView) -> Seq<char> {
    let cols = menu_cols(v.features);
    match v.message {
        Some(m) => seq![' '] + m + spaces(if m.len() < cols - 1 { (cols - 1 - m.len()) as nat } else { 0 }),
        None => {
            let f = v.features;
            let l1 = put_text(spaces(cols), 1, "S"@ + dec(v.session as nat) + "=comm1"@);
            let l2 = put_text(l1, 14, line_settings(f));
            let l3 = put_text(
                l2,
                27,
                if f.general.upss == Supplemental::IsoLatin1 { "ISO Latin-1"@ } else { "DEC Multinational"@ },
            );
            let l4 = put_text(l3, 46, keyboard_short(f.layout.keyboard_language));
            let l5 = put_text(l4, 64, mode_label(f.general.terminal_mode, v.model));
            let version = "V"@ + v.version;
            put_text(l5, if cols >= version.len() + 1 { (cols - (version.len() + 1)) as nat } else { 0 }, version)
        },
    }
}

fn put(line: &mut Vec<char>, col: usize, text: &Vec<char>)
    ensures
        final(line)@ == put_text(old(line)@, col as nat, text@),
{
    let mut i: usize = 0;
    while i < text.len()
        invariant
            i <= text@.len(),
            line@ == put_text(old(line)@, col as nat, text@.take(i as int)),
        decreases text@.len() - i,
    {
        if col < line.len() && i < line.len() - col {
            line.set(col + i, text[i]);
        }
        i = i + 1;
        assert(line@ =~= put_text(old(line)@, col as nat, text@.take(i as int)));
    }
    assert(text@.take(i as int) =~= text@);
}

fn spaces_of(n: usize) -> (r: Vec<char>)
    ensures
        r@ == spaces(n as nat),
{
    let mut r: Vec<char> = Vec::new();
    let mut i: usize = 0;
    while i < n
        invariant
            i <= n,
            r@ == spaces(i as nat),
        decreases n - i,
    {
        r.push(' ');
        i = i + 1;
        assert(r@ =~= spaces(i as nat));
    }
    r
}

impl Menus {
    fn cols(&self) -> (r: usize)
        ensures
            r == menu_cols(self@.features),
    {
        if self.features.columns_132 { 132 } else { 80 }
    }

    /// The Set-Up summary line, in place of the status line.
    pub fn summary_line(&self) -> (r: String)
        ensures
            r@ == summary_line_text(self@),
    {
        let cols = self.cols();
        let mut line: Vec<char> = Vec::new();
        if let Some(m) = self.message {
            line.push(' ');
            push_str(&mut line, m);
            let ghost start = line@;
            while line.len() < cols
                invariant
                    start.len() <= line@.len(),
                    line@ == start + spaces((line@.len() - start.len()) as nat),
                    cols == 80 || cols == 132,
                    line@.len() > start.len() ==> line@.len() <= cols,
                decreases cols - line@.len(),
            {
                line.push(' ');
                assert(line@ =~= start + spaces((line@.len() - start.len()) as nat));
            }
            proof {
                let m = opt_str_view(self.message)->0;
                assert(start =~= seq![' '] + m);
                let pad: nat = if m.len() < cols - 1 { (cols - 1 - m.len()) as nat } else { 0 };
                assert(line@.len() - start.len() == pad);
                assert(line@ =~= seq![' '] + m + spaces(if m.len() < cols - 1 { (cols - 1 - m.len()) as nat } else { 0 }));
            }
            return string_from(&line);
        }
        let mut line = spaces_of(cols);
        let mut t: Vec<char> = Vec::new();
        push_str(&mut t, "S");
        push_dec(&mut t, self.session as u64);
        push_str(&mut t, "=comm1");
        put(&mut line, 1, &t);
        let mut t: Vec<char> = Vec::new();
        push_dec(&mut t, self.features.transmit_speed as u64);
        t.push(self.features.parity.letter());
        t.push(if self.features.seven_bit_data { '7' } else { '8' });
        t.push(if self.features.two_stop_bits { '2' } else { '1' });
        assert(t@ =~= line_settings(self@.features));
        put(&mut line, 14, &t);
        let t = str_chars(if matches!(self.features.upss, Supplemental::IsoLatin1) { "ISO Latin-1" } else { "DEC Multinational" });
        put(&mut line, 27, &t);
        let t = str_chars(keyboard_short_of(self.features.keyboard_language));
        put(&mut line, 46, &t);
        let mut t: Vec<char> = Vec::new();
        push_mode_label(&mut t, self.features.terminal_mode, self.model);
        put(&mut line, 64, &t);
        let mut t: Vec<char> = Vec::new();
        push_str(&mut t, "V");
        push_str(&mut t, self.version.as_str());
        let col = if cols >= t.len() && cols - t.len() >= 1 { cols - t.len() - 1 } else { 0 };
        put(&mut line, col, &t);
        string_from(&line)
    }
}

/// A menu box on the screen: its top border line and left border column
/// (1-based) and the width inside the borders.
#[derive(Debug, Clone, Copy, PartialEq, Eq, Structural)]
pub struct Frame {
    pub top: usize,
    pub left: usize,
    pub inner: usize,
}

/// The longest label of the first `k` items.
pub open spec fn longest_label(items: Seq<ItemView>, k: nat) -> nat
    decreases k,
{
    if k == 0 {
        0
    } else {
        let a = longest_label(items, (k - 1) as nat);
        let b = items[k - 1].label.len();
        if a >= b { a } else { b }
    }
}

/// Inside width of a menu box: a mark column, a space, the label, a space
/// and an arrow.
pub open spec fn box_width(items: Seq<ItemView>) -> nat {
    longest_label(items, items.len()) + 4
}

/// The menus shown: the open ones with their cursors, then the submenu
/// under the last cursor when no dialog is open.
pub open spec fn shown_menus(v: MenusView) -> Seq<(Menu, Option<usize>)> {
    let open = v.path.map_values(|p: (Menu, usize)| (p.0, Some(p.1)));
    let last = v.path.last();
    let items = items_of(v, last.0);
    if v.dialog is None && last.1 < items.len() && items[last.1 as int].kind is Sub && items[last.1 as int].enabled {
        open.push((items[last.1 as int].kind->Sub_0, None))
    } else {
        open
    }
}

/// The box of a submenu: level with the item that opened it, moved up to
/// fit above line 24, and beside its parent, moved left to fit the line.
pub open spec fn next_frame(p: Frame, at: Option<usize>, n: nat, inner: nat, cols: nat) -> Frame {
    let a: nat = match at {
        Some(x) => x as nat,
        None => 0,
    };
    let t0: nat = p.top as nat + a;
    let lim: nat = (24 - n - 1) as nat;
    let t1: nat = if t0 <= lim { t0 } else { lim };
    let top: nat = if t1 >= 2 { t1 } else { 2 };
    let l0: nat = p.left as nat + p.inner as nat + 1;
    let lim2: nat = (cols - inner - 1) as nat;
    let left: nat = if l0 <= lim2 { l0 } else { lim2 };
    Frame { top: top as usize, left: left as usize, inner: inner as usize }
}

/// The boxes of the first `k` menus shown.
pub open spec fn frames(v: MenusView, sh: Seq<(Menu, Option<usize>)>, k: nat) -> Seq<Frame>
    decreases k,
{
    if k == 0 {
        Seq::empty()
    } else if k == 1 {
        seq![Frame { top: 2, left: 1, inner: box_width(items_of(v, sh[0].0)) as usize }]
    } else {
        let prev = frames(v, sh, (k - 1) as nat);
        let items = items_of(v, sh[k - 1].0);
        prev.push(next_frame(prev.last(), sh[k - 2].1, items.len(), box_width(items), menu_cols(v.features)))
    }
}

/// `n` box-drawing horizontal lines.
pub open spec fn bar(n: nat) -> Seq<char> {
    Seq::new(n, |i: int| '\u{2500}')
}

/// The sides of a box, `k` lines of it.
pub open spec fn sides_text(top: nat, left: nat, inner: nat, k: nat) -> Seq<char>
    decreases k,
{
    if k == 0 {
        Seq::empty()
    } else {
        sides_text(top, left, inner, (k - 1) as nat) + goto_text(top + k, left) + seq!['\u{2502}'] + goto_text(
            top + k,
            left + inner + 1,
        ) + seq!['\u{2502}']
    }
}

/// A box `inner` wide and `height` lines high inside its borders.
pub open spec fn border_text(top: nat, left: nat, inner: nat, height: nat) -> Seq<char> {
    goto_text(top, left) + seq!['\u{250c}'] + bar(inner) + seq!['\u{2510}'] + sides_text(top, left, inner, height)
        + goto_text(top + height + 1, left) + seq!['\u{2514}'] + bar(inner) + seq!['\u{2518}']
}

/// The inside of a box blanked, `k` lines of it.
pub open spec fn clear_text(top: nat, left: nat, inner: nat, k: nat) -> Seq<char>
    decreases k,
{
    if k == 0 {
        Seq::empty()
    } else {
        clear_text(top, left, inner, (k - 1) as nat) + goto_text(top + k, left + 1) + spaces(inner)
    }
}

/// `s` padded with spaces to `w` characters.
pub open spec fn padded(s: Seq<char>, w: nat) -> Seq<char> {
    s + spaces(if s.len() < w { (w - s.len()) as nat } else { 0 })
}

/// The mark of a check box or radio button.
pub open spec fn item_mark(k: ItemKind) -> char {
    match k {
        ItemKind::Check(on, _) => if on { '\u{2612}' } else { '\u{2610}' },
        ItemKind::Radio(on, _) => if on { '\u{25c6}' } else { '\u{25c7}' },
        _ => ' ',
    }
}

/// An item's text in a box `w` wide.
pub open spec fn item_body(item: ItemView, w: nat, on_cursor: bool) -> Seq<char> {
    if item.kind is Separator {
        Seq::new(w, |j: int| '-')
    } else {
        (if on_cursor { "\x1b[7m"@ } else { Seq::empty() }) + (if !item.enabled {
            "\x1b[2m"@
        } else {
            Seq::empty()
        }) + seq![item_mark(item.kind), ' '] + padded(item.label, (w - 3) as nat) + (if item.kind is Sub {
            seq!['\u{25b6}']
        } else {
            seq![' ']
        }) + "\x1b[m"@
    }
}

/// Item `i` of a menu box.
pub open spec fn item_text(fr: Frame, items: Seq<ItemView>, cursor: Option<usize>, i: nat) -> Seq<char> {
    goto_text((fr.top + 1 + i) as nat, (fr.left + 1) as nat) + item_body(items[i as int], fr.inner as nat, cursor == Some(i as usize))
}

/// The first `k` items of a menu box.
pub open spec fn items_text(fr: Frame, items: Seq<ItemView>, cursor: Option<usize>, k: nat) -> Seq<char>
    decreases k,
{
    if k == 0 {
        Seq::empty()
    } else {
        items_text(fr, items, cursor, (k - 1) as nat) + item_text(fr, items, cursor, (k - 1) as nat)
    }
}

/// A menu box with its items.
pub open spec fn menu_text(fr: Frame, items: Seq<ItemView>, cursor: Option<usize>) -> Seq<char> {
    border_text(fr.top as nat, fr.left as nat, fr.inner as nat, items.len()) + items_text(fr, items, cursor, items.len())
}

/// The first `k` menu boxes.
pub open spec fn boxes_text(v: MenusView, sh: Seq<(Menu, Option<usize>)>, fr: Seq<Frame>, k: nat) -> Seq<char>
    decreases k,
{
    if k == 0 {
        Seq::empty()
    } else {
        boxes_text(v, sh, fr, (k - 1) as nat) + menu_text(fr[k - 1], items_of(v, sh[k - 1].0), sh[k - 1].1)
    }
}

/// A button three lines high with its centred label.
pub open spec fn button_text(top: nat, left: nat, width: nat, centred: Seq<char>, focused: bool) -> Seq<char> {
    border_text(top, left, (width - 2) as nat, 1) + goto_text(top + 1, left + 1) + (if focused {
        "\x1b[7m"@
    } else {
        Seq::empty()
    }) + centred + "\x1b[m"@
}

/// The last 30 characters of a text.
pub open spec fn last30(s: Seq<char>) -> Seq<char> {
    if s.len() > 30 { s.subrange(s.len() - 30, s.len() as int) } else { s }
}

/// The answerback dialog beside the menu box `menu`, level with the item
/// on `item_line`.
pub open spec fn answerback_text(cols: nat, menu: Frame, item_line: nat, text: Seq<u8>, focus: u8) -> Seq<char> {
    let bottom: nat = if item_line + 2 <= 24 { item_line + 2 } else { 24 };
    let top: nat = if bottom >= 8 { (bottom - 8) as nat } else { 0 };
    let l0: nat = menu.left as nat + menu.inner as nat + 1;
    let left: nat = if l0 <= cols - 32 { l0 } else { (cols - 32) as nat };
    border_text(top, left, 31, 7) + clear_text(top, left, 31, 7) + answerback_field(top, left, text, focus)
        + button_text(top + 5, left + 2, 8, "  OK  "@, focus == 1) + button_text(top + 5, left + 16, 8, "Cancel"@, focus == 2)
}

/// The title and message field of the answerback dialog.
pub open spec fn answerback_field(top: nat, left: nat, text: Seq<u8>, focus: u8) -> Seq<char> {
    goto_text(top + 1, left + 2) + "Enter answerback message"@ + goto_text(top + 3, left + 2) + "\x1b[4m"@ + (if focus == 0 {
        "\x1b[7m"@
    } else {
        Seq::empty()
    }) + padded(last30(printable(text)), 30) + "\x1b[m"@
}

/// The ruler mark of column `c` (0-based): the tens digit at every tenth
/// column, `,` at every fifth, `.` elsewhere.
pub open spec fn ruler_mark(c: nat) -> char {
    let n = c + 1;
    if n % 10 == 0 {
        ((48 + (n / 10) % 10) as u8) as char
    } else if n % 5 == 0 {
        ','
    } else {
        '.'
    }
}

/// The ruler marks of columns `from` up to `to`.
pub open spec fn ruler_marks(from: nat, to: nat) -> Seq<char>
    decreases to,
{
    if to <= from {
        Seq::empty()
    } else {
        ruler_marks(from, (to - 1) as nat) + seq![ruler_mark((to - 1) as nat)]
    }
}

/// The tab stop cells of columns `from` up to `to`, the cursor's shown
/// unreversed.
pub open spec fn tab_cells(tabs: Seq<bool>, col: usize, focus: u8, from: nat, to: nat) -> Seq<char>
    decreases to,
{
    if to <= from {
        Seq::empty()
    } else {
        let c = (to - 1) as nat;
        let t = if tabs[c as int] { 'T' } else { ' ' };
        tab_cells(tabs, col, focus, from, c) + (if focus == 0 && c == col { "\x1b[27m"@ + seq![t] + "\x1b[7m"@ } else {
            seq![t]
        })
    }
}

/// One row of the tab ruler: the marks, and the stops below them.
pub open spec fn ruler_row_text(cols: nat, tabs: Seq<bool>, col: usize, focus: u8, r: nat) -> Seq<char> {
    let row = cols / 2;
    let start = r * row;
    let line = 15 + 3 * r;
    let x0 = (cols - row) / 2 + 1;
    let end_marks = if start + row <= cols { start + row } else { cols };
    let end_cells = if start + row <= tabs.len() { start + row } else if start <= tabs.len() { tabs.len() } else { start };
    goto_text(line, x0 as nat) + ruler_marks(start, end_marks as nat) + goto_text(line + 1, x0 as nat) + "\x1b[7m"@
        + tab_cells(tabs, col, focus, start, end_cells as nat) + "\x1b[m"@
}

/// The box and title of the tabs dialog.
pub open spec fn tabs_head(cols: nat) -> Seq<char> {
    let inner = (cols - 2) as nat;
    border_text(11, 1, inner, 12) + clear_text(11, 1, inner, 12) + goto_text(12, ((cols - 10) / 2 + 1) as nat)
        + "Tab Set-Up"@ + goto_text(13, 3) + "Use arrows to move the cursor and RETURN or ENTER to toggle:"@
}

/// The tabs dialog across the screen.
pub open spec fn tabs_text(cols: nat, tabs: Seq<bool>, col: usize, focus: u8) -> Seq<char> {
    let inner = (cols - 2) as nat;
    let gap = ((inner - 51) / 5) as nat;
    let x1 = 2 + gap;
    tabs_head(cols) + ruler_row_text(cols, tabs, col, focus, 0) + ruler_row_text(cols, tabs, col, focus, 1) + button_text(
        21,
        x1,
        8,
        "  OK  "@,
        focus == 1,
    ) + button_text(21, x1 + 8 + gap, 8, "Cancel"@, focus == 2) + button_text(
        21,
        x1 + 16 + 2 * gap,
        19,
        "Set 8 column tabs"@,
        focus == 3,
    ) + button_text(21, x1 + 35 + 3 * gap, 16, "Clear all tabs"@, focus == 4)
}

/// The Set-Up screen as characters.
pub open spec fn menus_render_text(v: MenusView) -> Seq<char> {
    let start = "\x1b[?7l\x1b[?25l\x1b[H\x1b[2J\x1b[m"@;
    if v.aligning {
        start + "\x1b#8"@
    } else {
        let sh = shown_menus(v);
        let fr = frames(v, sh, sh.len());
        start + "\x1b[1;1H\x1b#6Set-Up"@ + boxes_text(v, sh, fr, sh.len()) + dialog_text(v, sh, fr)
    }
}

/// The open dialog, beside the last menu box.
pub open spec fn dialog_text(v: MenusView, sh: Seq<(Menu, Option<usize>)>, fr: Seq<Frame>) -> Seq<char> {
    match v.dialog {
        Some(DialogView::Answerback { text, focus }) => {
            let last = fr.last();
            let at: nat = match sh.last().1 {
                Some(a) => a as nat,
                None => 0,
            };
            answerback_text(menu_cols(v.features), last, (last.top + 1 + at) as nat, text, focus)
        },
        Some(DialogView::Tabs { tabs, col, focus }) => tabs_text(menu_cols(v.features), tabs, col, focus),
        None => Seq::empty(),
    }
}

/// The Set-Up screen as terminal output: UTF-8 for a blank 24-line terminal
/// of the session's width that accepts SGR 2 (dim).
pub open spec fn menus_render(v: MenusView) -> Seq<u8> {
    utf8_text(menus_render_text(v))
}

fn chars_range(s: &Vec<char>, from: usize, to: usize) -> (r: Vec<char>)
    requires
        from <= to <= s@.len(),
    ensures
        r@ == s@.subrange(from as int, to as int),
{
    let mut r: Vec<char> = Vec::new();
    let mut i: usize = from;
    while i < to
        invariant
            from <= i <= to <= s@.len(),
            r@ == s@.subrange(from as int, i as int),
        decreases to - i,
    {
        r.push(s[i]);
        i = i + 1;
        assert(r@ =~= s@.subrange(from as int, i as int));
    }
    r
}

fn push_repeat(out: &mut Vec<char>, c: char, n: usize)
    ensures
        final(out)@ == old(out)@ + Seq::new(n as nat, |i: int| c),
{
    let mut i: usize = 0;
    while i < n
        invariant
            i <= n,
            out@ == old(out)@ + Seq::new(i as nat, |j: int| c),
        decreases n - i,
    {
        out.push(c);
        i = i + 1;
        assert(out@ =~= old(out)@ + Seq::new(i as nat, |j: int| c));
    }
}

fn push_border(out: &mut Vec<char>, top: usize, left: usize, inner: usize, height: usize)
    requires
        top < 1000,
        left < 1000,
        inner < 1000,
        height < 1000,
    ensures
        final(out)@ == old(out)@ + border_text(top as nat, left as nat, inner as nat, height as nat),
{
    push_goto(out, top as u64, left as u64);
    out.push('\u{250c}');
    push_repeat(out, '\u{2500}', inner);
    out.push('\u{2510}');
    let ghost mid = out@;
    let mut k: usize = 1;
    while k <= height
        invariant
            1 <= k <= height + 1,
            top < 1000,
            left < 1000,
            inner < 1000,
            height < 1000,
            out@ == mid + sides_text(top as nat, left as nat, inner as nat, (k - 1) as nat),
        decreases height + 1 - k,
    {
        push_goto(out, (top + k) as u64, left as u64);
        out.push('\u{2502}');
        push_goto(out, (top + k) as u64, (left + inner + 1) as u64);
        out.push('\u{2502}');
        assert(out@ =~= mid + sides_text(top as nat, left as nat, inner as nat, k as nat));
        k = k + 1;
    }
    push_goto(out, (top + height + 1) as u64, left as u64);
    out.push('\u{2514}');
    push_repeat(out, '\u{2500}', inner);
    out.push('\u{2518}');
    assert(out@ =~= old(out)@ + border_text(top as nat, left as nat, inner as nat, height as nat));
}

fn push_clear(out: &mut Vec<char>, top: usize, left: usize, inner: usize, height: usize)
    requires
        top < 1000,
        left < 1000,
        inner < 1000,
        height < 1000,
    ensures
        final(out)@ == old(out)@ + clear_text(top as nat, left as nat, inner as nat, height as nat),
{
    let mut k: usize = 1;
    while k <= height
        invariant
            1 <= k <= height + 1,
            top < 1000,
            left < 1000,
            inner < 1000,
            height < 1000,
            out@ == old(out)@ + clear_text(top as nat, left as nat, inner as nat, (k - 1) as nat),
        decreases height + 1 - k,
    {
        push_goto(out, (top + k) as u64, (left + 1) as u64);
        push_repeat(out, ' ', inner);
        assert(out@ =~= old(out)@ + clear_text(top as nat, left as nat, inner as nat, k as nat));
        k = k + 1;
    }
}

fn push_padded(out: &mut Vec<char>, s: &Vec<char>, w: usize)
    ensures
        final(out)@ == old(out)@ + padded(s@, w as nat),
{
    crate::text::push_all(out, s.as_slice());
    let n: usize = if s.len() < w { w - s.len() } else { 0 };
    push_repeat(out, ' ', n);
    assert(out@ =~= old(out)@ + padded(s@, w as nat));
}

fn label_chars(i: &MenuItem) -> (r: Vec<char>)
    ensures
        r@ == i@.label,
{
    str_chars(i.label.as_str())
}

#[verifier::spinoff_prover]
#[verifier::rlimit(40)]
fn push_item_body(out: &mut Vec<char>, item: &MenuItem, w: usize, on_cursor: bool)
    requires
        4 <= w < 100,
    ensures
        final(out)@ == old(out)@ + item_body(item@, w as nat, on_cursor),
{
    if matches!(item.kind, ItemKind::Separator) {
        push_repeat(out, '-', w);
    } else {
        let ghost o0 = out@;
        if on_cursor {
            push_str(out, "\x1b[7m");
        }
        if !item.enabled {
            push_str(out, "\x1b[2m");
        }
        let mark = match item.kind {
            ItemKind::Check(on, _) => if on { '\u{2612}' } else { '\u{2610}' },
            ItemKind::Radio(on, _) => if on { '\u{25c6}' } else { '\u{25c7}' },
            _ => ' ',
        };
        out.push(mark);
        out.push(' ');
        let label = label_chars(item);
        push_padded(out, &label, w - 3);
        out.push(if matches!(item.kind, ItemKind::Sub(_)) { '\u{25b6}' } else { ' ' });
        push_str(out, "\x1b[m");
        assert(out@ =~= o0 + item_body(item@, w as nat, on_cursor));
    }
}

fn push_item(out: &mut Vec<char>, fr: Frame, items: &Vec<MenuItem>, cursor: Option<usize>, i: usize)
    requires
        i < items@.len() < 23,
        fr.top < 100,
        fr.left < 200,
        4 <= fr.inner < 100,
    ensures
        final(out)@ == old(out)@ + item_text(fr, item_views(items@), cursor, i as nat),
{
    let ghost vs = item_views(items@);
    push_goto(out, (fr.top + 1 + i) as u64, (fr.left + 1) as u64);
    let on_cursor = match cursor {
        Some(c) => c == i,
        None => false,
    };
    push_item_body(out, &items[i], fr.inner, on_cursor);
    assert(vs[i as int] == items@[i as int]@);
    assert(out@ =~= old(out)@ + item_text(fr, vs, cursor, i as nat));
}

fn push_menu(out: &mut Vec<char>, fr: Frame, items: &Vec<MenuItem>, cursor: Option<usize>)
    requires
        0 < items@.len() < 23,
        fr.top < 100,
        fr.left < 200,
        4 <= fr.inner < 100,
    ensures
        final(out)@ == old(out)@ + menu_text(fr, item_views(items@), cursor),
{
    push_border(out, fr.top, fr.left, fr.inner, items.len());
    let ghost mid = out@;
    let mut i: usize = 0;
    while i < items.len()
        invariant
            i <= items@.len() < 23,
            fr.top < 100,
            fr.left < 200,
            4 <= fr.inner < 100,
            out@ == mid + items_text(fr, item_views(items@), cursor, i as nat),
        decreases items@.len() - i,
    {
        push_item(out, fr, items, cursor, i);
        i = i + 1;
        assert(out@ =~= mid + items_text(fr, item_views(items@), cursor, i as nat));
    }
    assert(out@ =~= old(out)@ + menu_text(fr, item_views(items@), cursor));
}

/// The inside width of a menu box.
fn box_width_of(items: &Vec<MenuItem>) -> (r: usize)
    requires
        forall|i: int| 0 <= i < items@.len() ==> (#[trigger] items@[i])@.label.len() < 40,
    ensures
        r == box_width(item_views(items@)),
        4 <= r < 44,
{
    let ghost vs = item_views(items@);
    let mut m: usize = 0;
    let mut k: usize = 0;
    while k < items.len()
        invariant
            k <= items@.len(),
            vs == item_views(items@),
            m == longest_label(vs, k as nat),
            m < 40,
            forall|i: int| 0 <= i < items@.len() ==> (#[trigger] items@[i])@.label.len() < 40,
        decreases items@.len() - k,
    {
        let n = items[k].label.as_str().unicode_len();
        assert(vs[k as int].label.len() == n);
        if n > m {
            m = n;
        }
        k = k + 1;
    }
    m + 4
}

fn push_button(out: &mut Vec<char>, top: usize, left: usize, width: usize, centred: &str, focused: bool)
    requires
        top < 100,
        left < 500,
        2 <= width < 100,
    ensures
        final(out)@ == old(out)@ + button_text(top as nat, left as nat, width as nat, centred@, focused),
{
    push_border(out, top, left, width - 2, 1);
    push_goto(out, (top + 1) as u64, (left + 1) as u64);
    if focused {
        push_str(out, "\x1b[7m");
    }
    push_str(out, centred);
    push_str(out, "\x1b[m");
    assert(out@ =~= old(out)@ + button_text(top as nat, left as nat, width as nat, centred@, focused));
}

#[verifier::spinoff_prover]
fn push_answerback_field(out: &mut Vec<char>, top: usize, left: usize, text: &Vec<u8>, focus: u8)
    requires
        top < 100,
        left < 500,
    ensures
        final(out)@ == old(out)@ + answerback_field(top as nat, left as nat, text@, focus),
{
    push_goto(out, (top + 1) as u64, (left + 2) as u64);
    push_str(out, "Enter answerback message");
    push_goto(out, (top + 3) as u64, (left + 2) as u64);
    push_str(out, "\x1b[4m");
    if focus == 0 {
        push_str(out, "\x1b[7m");
    }
    let shown = printable_of(text);
    let last: Vec<char> = if shown.len() > 30 {
        chars_range(&shown, shown.len() - 30, shown.len())
    } else {
        shown
    };
    push_padded(out, &last, 30);
    push_str(out, "\x1b[m");
    assert(out@ =~= old(out)@ + answerback_field(top as nat, left as nat, text@, focus));
}

#[verifier::spinoff_prover]
fn push_answerback(out: &mut Vec<char>, cols: usize, menu: Frame, item_line: usize, text: &Vec<u8>, focus: u8)
    requires
        cols == 80 || cols == 132,
        menu.left < 200,
        menu.inner < 100,
        item_line < 200,
    ensures
        final(out)@ == old(out)@ + answerback_text(cols as nat, menu, item_line as nat, text@, focus),
{
    let bottom: usize = if item_line + 2 <= 24 { item_line + 2 } else { 24 };
    let top: usize = if bottom >= 8 { bottom - 8 } else { 0 };
    let l0 = menu.left + menu.inner + 1;
    let left: usize = if l0 <= cols - 32 { l0 } else { cols - 32 };
    let ghost o0 = out@;
    push_border(out, top, left, 31, 7);
    push_clear(out, top, left, 31, 7);
    push_answerback_field(out, top, left, text, focus);
    push_button(out, top + 5, left + 2, 8, "  OK  ", focus == 1);
    push_button(out, top + 5, left + 16, 8, "Cancel", focus == 2);
    proof {
        let a = border_text(top as nat, left as nat, 31, 7);
        let b = clear_text(top as nat, left as nat, 31, 7);
        let c = answerback_field(top as nat, left as nat, text@, focus);
        let d = button_text((top + 5) as nat, (left + 2) as nat, 8, "  OK  "@, focus == 1);
        let e = button_text((top + 5) as nat, (left + 16) as nat, 8, "Cancel"@, focus == 2);
        assert(answerback_text(cols as nat, menu, item_line as nat, text@, focus) == a + b + c + d + e);
        lemma_concat_associative(o0, a, b);
        lemma_concat_associative(o0, a + b, c);
        lemma_concat_associative(o0, a + b + c, d);
        lemma_concat_associative(o0, a + b + c + d, e);
    }
}

fn push_ruler_row(out: &mut Vec<char>, cols: usize, tabs: &Vec<bool>, col: usize, focus: u8, r: usize)
    requires
        cols == 80 || cols == 132,
        r < 2,
        tabs@.len() < 1000,
    ensures
        final(out)@ == old(out)@ + ruler_row_text(cols as nat, tabs@, col, focus, r as nat),
{
    let row = cols / 2;
    let start: usize = if r == 0 { 0 } else { row };
    assert(start == r * row) by (nonlinear_arith)
        requires
            r < 2,
            start == (if r == 0 { 0 } else { row }),
    ;
    let line = 15 + 3 * r;
    let x0 = (cols - row) / 2 + 1;
    push_goto(out, line as u64, x0 as u64);
    let end_marks: usize = if start + row <= cols { start + row } else { cols };
    let ghost m0 = out@;
    let mut c: usize = start;
    while c < end_marks
        invariant
            start <= c <= end_marks <= 132,
            out@ == m0 + ruler_marks(start as nat, c as nat),
        decreases end_marks - c,
    {
        let n = c + 1;
        let mark = if n % 10 == 0 {
            ((48 + (n / 10) % 10) as u8) as char
        } else if n % 5 == 0 {
            ','
        } else {
            '.'
        };
        out.push(mark);
        c = c + 1;
        assert(out@ =~= m0 + ruler_marks(start as nat, c as nat));
    }
    push_goto(out, (line + 1) as u64, x0 as u64);
    push_str(out, "\x1b[7m");
    let end_cells: usize = if start + row <= tabs.len() {
        start + row
    } else if start <= tabs.len() {
        tabs.len()
    } else {
        start
    };
    let ghost m1 = out@;
    let mut c: usize = start;
    while c < end_cells
        invariant
            start <= c <= end_cells <= tabs@.len() || (c == start && end_cells == start),
            end_cells <= start || end_cells <= tabs@.len(),
            out@ == m1 + tab_cells(tabs@, col, focus, start as nat, c as nat),
        decreases end_cells - c,
    {
        let t = if tabs[c] { 'T' } else { ' ' };
        if focus == 0 && c == col {
            push_str(out, "\x1b[27m");
            out.push(t);
            push_str(out, "\x1b[7m");
        } else {
            out.push(t);
        }
        c = c + 1;
        assert(out@ =~= m1 + tab_cells(tabs@, col, focus, start as nat, c as nat));
    }
    push_str(out, "\x1b[m");
    assert(out@ =~= old(out)@ + ruler_row_text(cols as nat, tabs@, col, focus, r as nat));
}

fn push_tabs_head(out: &mut Vec<char>, cols: usize)
    requires
        cols == 80 || cols == 132,
    ensures
        final(out)@ == old(out)@ + tabs_head(cols as nat),
{
    let inner = cols - 2;
    push_border(out, 11, 1, inner, 12);
    push_clear(out, 11, 1, inner, 12);
    push_goto(out, 12, ((cols - 10) / 2 + 1) as u64);
    push_str(out, "Tab Set-Up");
    push_goto(out, 13, 3);
    push_str(out, "Use arrows to move the cursor and RETURN or ENTER to toggle:");
    assert(out@ =~= old(out)@ + tabs_head(cols as nat));
}

#[verifier::spinoff_prover]
#[verifier::rlimit(40)]
fn push_tabs(out: &mut Vec<char>, cols: usize, tabs: &Vec<bool>, col: usize, focus: u8)
    requires
        cols == 80 || cols == 132,
        tabs@.len() < 1000,
    ensures
        final(out)@ == old(out)@ + tabs_text(cols as nat, tabs@, col, focus),
{
    let inner = cols - 2;
    let gap = (inner - 51) / 5;
    let x1 = 2 + gap;
    let ghost o0 = out@;
    push_tabs_head(out, cols);
    push_ruler_row(out, cols, tabs, col, focus, 0);
    push_ruler_row(out, cols, tabs, col, focus, 1);
    push_button(out, 21, x1, 8, "  OK  ", focus == 1);
    push_button(out, 21, x1 + 8 + gap, 8, "Cancel", focus == 2);
    push_button(out, 21, x1 + 16 + 2 * gap, 19, "Set 8 column tabs", focus == 3);
    push_button(out, 21, x1 + 35 + 3 * gap, 16, "Clear all tabs", focus == 4);
    proof {
        let a = tabs_head(cols as nat);
        let b = ruler_row_text(cols as nat, tabs@, col, focus, 0);
        let c = ruler_row_text(cols as nat, tabs@, col, focus, 1);
        let d = button_text(21, x1 as nat, 8, "  OK  "@, focus == 1);
        let e = button_text(21, (x1 + 8 + gap) as nat, 8, "Cancel"@, focus == 2);
        let g = button_text(21, (x1 + 16 + 2 * gap) as nat, 19, "Set 8 column tabs"@, focus == 3);
        let h = button_text(21, (x1 + 35 + 3 * gap) as nat, 16, "Clear all tabs"@, focus == 4);
        assert(tabs_text(cols as nat, tabs@, col, focus) == a + b + c + d + e + g + h);
        lemma_concat_associative(o0, a, b);
        lemma_concat_associative(o0, a + b, c);
        lemma_concat_associative(o0, a + b + c, d);
        lemma_concat_associative(o0, a + b + c + d, e);
        lemma_concat_associative(o0, a + b + c + d + e, g);
        lemma_concat_associative(o0, a + b + c + d + e + g, h);
    }
}

/// A cursor of a shown menu, if any, is on one of its at most 22 items.
pub open spec fn cursor_small(c: Option<usize>) -> bool {
    match c {
        Some(a) => a < 23,
        None => true,
    }
}

/// Frames as the layout keeps them: on the screen, and wide enough for a
/// mark, a space, a space and an arrow.
pub open spec fn frame_ok(fr: Frame) -> bool {
    fr.top < 100 && fr.left < 200 && 4 <= fr.inner < 44
}

impl Menus {
    fn shown(&self) -> (r: Vec<(Menu, Option<usize>)>)
        requires
            menus_ok(self@),
        ensures
            r@ == shown_menus(self@),
            0 < r@.len(),
            forall|j: int| 0 <= j < r@.len() ==> cursor_small((#[trigger] r@[j]).1),
    {
        let mut r: Vec<(Menu, Option<usize>)> = Vec::new();
        let mut i: usize = 0;
        while i < self.path.len()
            invariant
                i <= self@.path.len(),
                menus_ok(self@),
                r@ == self@.path.subrange(0, i as int).map_values(|p: (Menu, usize)| (p.0, Some(p.1))),
                forall|j: int| 0 <= j < r@.len() ==> cursor_small((#[trigger] r@[j]).1),
            decreases self@.path.len() - i,
        {
            let (m, at) = self.path[i];
            proof {
                assert(self@.path[i as int] == (m, at));
                lemma_items_len(m, self@.features, self@.features, self.model, self.session, self.session);
            }
            r.push((m, Some(at)));
            i = i + 1;
            assert(r@ =~= self@.path.subrange(0, i as int).map_values(|p: (Menu, usize)| (p.0, Some(p.1))));
        }
        assert(self@.path.subrange(0, i as int) =~= self@.path);
        let n = self.path.len();
        let (menu, at) = self.path[n - 1];
        let items = menu_items(menu, &self.features, self.model, self.session);
        if self.dialog.is_none() && at < items.len() && items[at].enabled {
            if let ItemKind::Sub(child) = items[at].kind {
                r.push((child, None));
            }
        }
        r
    }

    #[verifier::spinoff_prover]
    #[verifier::rlimit(80)]
    fn frames_of(&self, sh: &Vec<(Menu, Option<usize>)>) -> (r: Vec<Frame>)
        requires
            0 < sh@.len(),
            forall|j: int| 0 <= j < sh@.len() ==> cursor_small((#[trigger] sh@[j]).1),
        ensures
            r@ == frames(self@, sh@, sh@.len()),
            r@.len() == sh@.len(),
            forall|j: int| 0 <= j < r@.len() ==> frame_ok(#[trigger] r@[j]),
    {
        let cols: usize = if self.features.columns_132 { 132 } else { 80 };
        let items = menu_items(sh[0].0, &self.features, self.model, self.session);
        proof {
            lemma_items_len(sh@[0].0, self@.features, self@.features, self.model, self.session, self.session);
        }
        let mut r: Vec<Frame> = Vec::new();
        r.push(Frame { top: 2, left: 1, inner: box_width_of(&items) });
        assert(r@ =~= frames(self@, sh@, 1));
        let mut k: usize = 1;
        while k < sh.len()
            invariant
                1 <= k <= sh@.len(),
                cols == menu_cols(self@.features),
                r@ == frames(self@, sh@, k as nat),
                r@.len() == k,
                forall|j: int| 0 <= j < r@.len() ==> frame_ok(#[trigger] r@[j]),
                forall|j: int| 0 <= j < sh@.len() ==> cursor_small((#[trigger] sh@[j]).1),
            decreases sh@.len() - k,
        {
            let items = menu_items(sh[k].0, &self.features, self.model, self.session);
            proof {
                lemma_items_len(sh@[k as int].0, self@.features, self@.features, self.model, self.session, self.session);
            }
            let inner = box_width_of(&items);
            let p = r[k - 1];
            assert(frame_ok(r@[k - 1]));
            let a: usize = match sh[k - 1].1 {
                Some(x) => x,
                None => 0,
            };
            let n = items.len();
            let t0 = p.top + a;
            let lim = 24 - n - 1;
            let t1 = if t0 <= lim { t0 } else { lim };
            let top = if t1 >= 2 { t1 } else { 2 };
            let l0 = p.left + p.inner + 1;
            let lim2 = cols - inner - 1;
            let left = if l0 <= lim2 { l0 } else { lim2 };
            let ghost prev = r@;
            r.push(Frame { top, left, inner });
            proof {
                assert(prev.last() == p);
                assert(items_of(self@, sh@[k as int].0) == item_views(items@));
            }
            k = k + 1;
            assert(r@ =~= frames(self@, sh@, k as nat));
        }
        r
    }

    /// The Set-Up screen as terminal output for a blank 24-line terminal of
    /// the session's width that accepts UTF-8 and SGR 2 (dim), for Set-Up's
    /// boxes, check boxes, radio buttons and dimmed items.
    #[verifier::spinoff_prover]
    #[verifier::rlimit(40)]
    pub fn render(&self) -> (r: Vec<u8>)
        requires
            menus_ok(self@),
        ensures
            r@ == menus_render(self@),
    {
        let mut out: Vec<char> = Vec::new();
        push_str(&mut out, "\x1b[?7l\x1b[?25l\x1b[H\x1b[2J\x1b[m");
        if self.aligning {
            push_str(&mut out, "\x1b#8");
            return utf8_of(&out);
        }
        push_str(&mut out, "\x1b[1;1H\x1b#6Set-Up");
        let ghost start = out@;
        let sh = self.shown();
        let fr = self.frames_of(&sh);
        let mut j: usize = 0;
        while j < sh.len()
            invariant
                j <= sh@.len(),
                fr@.len() == sh@.len(),
                sh@ == shown_menus(self@),
                fr@ == frames(self@, sh@, sh@.len()),
                forall|i: int| 0 <= i < fr@.len() ==> frame_ok(#[trigger] fr@[i]),
                forall|i: int| 0 <= i < sh@.len() ==> cursor_small((#[trigger] sh@[i]).1),
                out@ == start + boxes_text(self@, sh@, fr@, j as nat),
            decreases sh@.len() - j,
        {
            let items = menu_items(sh[j].0, &self.features, self.model, self.session);
            proof {
                lemma_items_len(sh@[j as int].0, self@.features, self@.features, self.model, self.session, self.session);
                assert(frame_ok(fr@[j as int]));
            }
            push_menu(&mut out, fr[j], &items, sh[j].1);
            j = j + 1;
            assert(out@ =~= start + boxes_text(self@, sh@, fr@, j as nat));
        }
        self.push_dialog(&mut out, &sh, &fr);
        assert(out@ =~= menus_render_text(self@));
        utf8_of(&out)
    }

    #[verifier::spinoff_prover]
    fn push_dialog(&self, out: &mut Vec<char>, sh: &Vec<(Menu, Option<usize>)>, fr: &Vec<Frame>)
        requires
            menus_ok(self@),
            0 < fr@.len(),
            fr@.len() == sh@.len(),
            forall|i: int| 0 <= i < fr@.len() ==> frame_ok(#[trigger] fr@[i]),
            forall|i: int| 0 <= i < sh@.len() ==> cursor_small((#[trigger] sh@[i]).1),
        ensures
            final(out)@ == old(out)@ + dialog_text(self@, sh@, fr@),
    {
        let cols: usize = if self.features.columns_132 { 132 } else { 80 };
        match &self.dialog {
            Some(Dialog::Answerback { text, focus }) => {
                let n = fr.len();
                let last = fr[n - 1];
                assert(frame_ok(fr@[n - 1]));
                let at: usize = match sh[n - 1].1 {
                    Some(a) => a,
                    None => 0,
                };
                push_answerback(out, cols, last, last.top + 1 + at, text, *focus);
            },
            Some(Dialog::Tabs { tabs, col, focus }) => {
                push_tabs(out, cols, tabs, *col, *focus);
            },
            None => {
                assert(out@ =~= old(out)@ + dialog_text(self@, sh@, fr@));
            },
        }
    }
}

} // verus!
