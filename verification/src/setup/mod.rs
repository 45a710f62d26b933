//! Set-Up: the terminal's local configuration (F3).
//!
//! [`Features`] holds every setting of a session: its factory values by
//! model, and its saved form as `name=value` lines, which
//! [`Features::from_text`] reads back over the factory values.

use vstd::prelude::*;
use crate::charset::Nrc;
use crate::config::{max_level, Model, StatusDisplay, Supplemental};
use crate::terminal::{CursorStyle, LocalKeyAction};

pub mod text;
pub mod read;
pub mod saving;
pub mod lines;
pub mod screens;
pub mod menus;
pub mod style;
pub use style::SetupMenu;


verus! {

/// Smooth or jump scrolling (Display Set-Up).
#[derive(Debug, Clone, Copy, PartialEq, Eq, Structural)]
pub enum Scroll {
    /// The factory setting (EK-VT520-RM table 2-10).
    Jump,
    Smooth2,
    Smooth4,
}

impl Default for Scroll {
    fn default() -> (r: Scroll)
        ensures
            r == Scroll::Jump,
    {
        Scroll::Jump
    }
}

/// Keyclick and bell volumes (Keyboard Set-Up).
#[derive(Debug, Clone, Copy, PartialEq, Eq, Structural)]
pub enum Volume {
    Off,
    Low,
    High,
}

/// The terminal's operating level (General Set-Up "terminal mode").
#[derive(Debug, Clone, Copy, PartialEq, Eq, Structural)]
pub enum TerminalMode {
    Vt52,
    Vt100,
    /// VT200 (2) to VT500 (5) mode, with 7-bit or 8-bit controls.
    Level { level: u8, eight_bit: bool },
}

/// What F5 does (Keyboard Set-Up).
#[derive(Debug, Clone, Copy, PartialEq, Eq, Structural)]
pub enum BreakKey {
    Break,
    NoBreak,
    FunctionKey,
    Ignore,
}

impl Default for BreakKey {
    fn default() -> (r: BreakKey)
        ensures
            r == BreakKey::Break,
    {
        BreakKey::Break
    }
}

/// What the Compose Character key does (Keyboard Set-Up).
#[derive(Debug, Clone, Copy, PartialEq, Eq, Structural)]
pub enum ComposeKey {
    Local,
    Report,
    Ignore,
}

impl Default for ComposeKey {
    fn default() -> (r: ComposeKey)
        ensures
            r == ComposeKey::Local,
    {
        ComposeKey::Local
    }
}

/// Communication parity (VT520 Communication Set-Up; the VT420 offers
/// fewer combinations with the word size).
#[derive(Debug, Clone, Copy, PartialEq, Eq, Structural)]
pub enum Parity {
    /// No parity bit ("none").
    NoParity,
    Even,
    Odd,
    EvenUnchecked,
    OddUnchecked,
    Mark,
    Space,
}

impl Default for Parity {
    fn default() -> (r: Parity)
        ensures
            r == Parity::NoParity,
    {
        Parity::NoParity
    }
}

/// The parities in Set-Up order.
pub open spec fn all_parities() -> Seq<Parity> {
    seq![
        Parity::NoParity,
        Parity::Even,
        Parity::Odd,
        Parity::EvenUnchecked,
        Parity::OddUnchecked,
        Parity::Mark,
        Parity::Space,
    ]
}

/// The name a parity is saved under.
pub open spec fn parity_name(p: Parity) -> Seq<char> {
    match p {
        Parity::NoParity => "none"@,
        Parity::Even => "even"@,
        Parity::Odd => "odd"@,
        Parity::EvenUnchecked => "even-unchecked"@,
        Parity::OddUnchecked => "odd-unchecked"@,
        Parity::Mark => "mark"@,
        Parity::Space => "space"@,
    }
}

impl Parity {
    /// The parities in Set-Up order.
    pub fn all() -> (r: [Parity; 7])
        ensures
            r@ == all_parities(),
    {
        let r = [
            Parity::NoParity,
            Parity::Even,
            Parity::Odd,
            Parity::EvenUnchecked,
            Parity::OddUnchecked,
            Parity::Mark,
            Parity::Space,
        ];
        assert(r@ =~= all_parities());
        r
    }

    /// The name the parity is saved under.
    pub fn name(self) -> (r: &'static str)
        ensures
            r@ == parity_name(self),
    {
        match self {
            Parity::NoParity => "none",
            Parity::Even => "even",
            Parity::Odd => "odd",
            Parity::EvenUnchecked => "even-unchecked",
            Parity::OddUnchecked => "odd-unchecked",
            Parity::Mark => "mark",
            Parity::Space => "space",
        }
    }

    /// The letter shown in the VT520 Set-Up summary line.
    pub fn letter(self) -> (r: char)
        ensures
            r == match self {
                Parity::NoParity => 'N',
                Parity::Even | Parity::EvenUnchecked => 'E',
                Parity::Odd | Parity::OddUnchecked => 'O',
                Parity::Mark => 'M',
                Parity::Space => 'S',
            },
    {
        match self {
            Parity::NoParity => 'N',
            Parity::Even | Parity::EvenUnchecked => 'E',
            Parity::Odd | Parity::OddUnchecked => 'O',
            Parity::Mark => 'M',
            Parity::Space => 'S',
        }
    }
}

/// Every Set-Up feature of a session.
#[derive(Debug, Clone, PartialEq, Eq)]
pub struct Features {
    // Global
    pub on_line: bool,
    pub two_sessions: bool,
    pub crt_saver: bool,
    pub comm1_dec423: bool,
    pub refresh_60hz: bool,
    /// Printer assignment: 0 shared, 1 session 1, 2 session 2.
    pub printer_session: u8,
    // Display
    pub columns_132: bool,
    pub display_controls: bool,
    pub autowrap: bool,
    pub scroll: Scroll,
    pub light_screen: bool,
    pub cursor: bool,
    pub cursor_style: CursorStyle,
    pub status: StatusDisplay,
    pub page_length: usize,
    pub screen_lines: usize,
    pub vertical_coupling: bool,
    pub page_coupling: bool,
    pub auto_resize: bool,
    /// VT500 Display: DECCOLM clears the page (DECNCSM reset).
    pub clear_on_column_change: bool,
    /// VT500 Display: DECSZS 1 oval, 2 slashed, 3 dotted.
    pub zero_style: u8,
    /// VT500 Display: DECCRTST and DECSEST, in minutes.
    pub crt_saver_minutes: u16,
    pub energy_saver_minutes: u16,
    /// VT500 Display: DECHWUM, DECOSCNM.
    pub host_wake_up: bool,
    pub overscan: bool,
    // General
    pub terminal_mode: TerminalMode,
    pub udk_locked: bool,
    pub user_features_locked: bool,
    pub national: bool,
    pub keypad_application: bool,
    pub cursor_keys_application: bool,
    pub new_line: bool,
    pub upss: Supplemental,
    /// DECTID code; 10 is the model's own identity.
    pub terminal_id: u16,
    /// Inactive session updates: 1 never, 2 when available, 3 shared.
    pub update: u16,
    // Communications
    pub transmit_speed: u32,
    /// `None` receives at the transmit speed.
    pub receive_speed: Option<u32>,
    /// `None` sends no XOFF.
    pub xoff: Option<u16>,
    pub seven_bit_data: bool,
    pub parity: Parity,
    pub two_stop_bits: bool,
    /// VT500: transmit flow control 0 none, 1 XON/XOFF, 2 DSR, 3 both;
    /// receive 0 none, 1 XON/XOFF, 2 DTR, 3 both.
    pub transmit_flow: u8,
    pub receive_flow: u8,
    /// VT500: XOFF at 768 characters instead of 64.
    pub flow_threshold_high: bool,
    /// VT500 transmit rate limits (DECSTRL): 1 150, 2 50, 3 30 characters
    /// per second; function keys may also be 0, no separate limit.
    pub transmit_rate: u8,
    pub fkey_rate: u8,
    /// VT500: DECNULM, DECHDPXM.
    pub ignore_null: bool,
    pub half_duplex: bool,
    /// VT500 Modem: speeds chosen by the speed indicator; `None` ignores it.
    pub modem_high_speed: Option<u32>,
    pub modem_low_speed: Option<u32>,
    pub local_echo: bool,
    pub modem_control: bool,
    /// 0 two seconds, 1 60 ms, 2 no disconnect.
    pub disconnect: u8,
    pub limited_transmit: bool,
    pub auto_answerback: bool,
    pub answerback: Vec<u8>,
    pub conceal_answerback: bool,
    // Keyboard
    pub data_processing_keys: bool,
    pub shift_lock: bool,
    pub auto_repeat: bool,
    /// VT500: DECARR, 30 (fast) or 10 (slow) keystrokes per second.
    pub auto_repeat_rate: u8,
    pub keyclick: Volume,
    pub margin_bell: Volume,
    pub warning_bell: Volume,
    pub position_mode: bool,
    pub backarrow_bs: bool,
    pub compose: ComposeKey,
    pub report_alt: bool,
    /// F1 Hold, F2 Print, F3 Set-Up, F4 Session.
    pub local_keys: [LocalKeyAction; 4],
    pub break_key: BreakKey,
    pub comma_period_same: bool,
    pub angle_sends_tilde: bool,
    pub tilde_sends_escape: bool,
    pub keyboard_language: Option<Nrc>,
    // Tab
    pub tabs: Vec<bool>,
}

/// Global Set-Up, as values.
pub ghost struct GlobalView {
    pub on_line: bool,
    pub two_sessions: bool,
    pub crt_saver: bool,
    pub comm1_dec423: bool,
    pub refresh_60hz: bool,
    pub printer_session: u8,
}

/// Display Set-Up: the page, as values.
pub ghost struct DisplayView {
    pub columns_132: bool,
    pub display_controls: bool,
    pub autowrap: bool,
    pub scroll: Scroll,
    pub light_screen: bool,
    pub cursor: bool,
    pub cursor_style: CursorStyle,
    pub status: StatusDisplay,
    pub page_length: usize,
}

/// Display Set-Up: the screen and the VT500 display features, as values.
pub ghost struct ScreenView {
    pub screen_lines: usize,
    pub vertical_coupling: bool,
    pub page_coupling: bool,
    pub auto_resize: bool,
    pub clear_on_column_change: bool,
    pub zero_style: u8,
    pub crt_saver_minutes: u16,
    pub energy_saver_minutes: u16,
    pub host_wake_up: bool,
    pub overscan: bool,
}

/// General Set-Up, as values.
pub ghost struct GeneralView {
    pub terminal_mode: TerminalMode,
    pub udk_locked: bool,
    pub user_features_locked: bool,
    pub national: bool,
    pub keypad_application: bool,
    pub cursor_keys_application: bool,
    pub new_line: bool,
    pub upss: Supplemental,
    pub terminal_id: u16,
    pub update: u16,
}

/// Communications Set-Up: the line, as values.
pub ghost struct LineView {
    pub transmit_speed: u32,
    pub receive_speed: Option<u32>,
    pub xoff: Option<u16>,
    pub seven_bit_data: bool,
    pub parity: Parity,
    pub two_stop_bits: bool,
    pub transmit_flow: u8,
    pub receive_flow: u8,
    pub flow_threshold_high: bool,
    pub transmit_rate: u8,
    pub fkey_rate: u8,
}

/// Communications Set-Up: the modem and the answerback, as values.
pub ghost struct ModemView {
    pub ignore_null: bool,
    pub half_duplex: bool,
    pub modem_high_speed: Option<u32>,
    pub modem_low_speed: Option<u32>,
    pub local_echo: bool,
    pub modem_control: bool,
    pub disconnect: u8,
    pub limited_transmit: bool,
    pub auto_answerback: bool,
    pub answerback: Seq<u8>,
    pub conceal_answerback: bool,
}

/// Keyboard Set-Up: the keys, as values.
pub ghost struct KeysView {
    pub data_processing_keys: bool,
    pub shift_lock: bool,
    pub auto_repeat: bool,
    pub auto_repeat_rate: u8,
    pub keyclick: Volume,
    pub margin_bell: Volume,
    pub warning_bell: Volume,
    pub position_mode: bool,
    pub backarrow_bs: bool,
    pub compose: ComposeKey,
    pub report_alt: bool,
}

/// Keyboard and Tab Set-Up: local keys, language and tab stops, as values.
pub ghost struct LayoutView {
    pub local_keys: Seq<LocalKeyAction>,
    pub break_key: BreakKey,
    pub comma_period_same: bool,
    pub angle_sends_tilde: bool,
    pub tilde_sends_escape: bool,
    pub keyboard_language: Option<Nrc>,
    pub tabs: Seq<bool>,
}

/// What a set of features holds, as values, by Set-Up screen.
pub ghost struct FeaturesView {
    pub global: GlobalView,
    pub display: DisplayView,
    pub screen: ScreenView,
    pub general: GeneralView,
    pub line: LineView,
    pub modem: ModemView,
    pub keys: KeysView,
    pub layout: LayoutView,
}

impl View for Features {
    type V = FeaturesView;

    open spec fn view(&self) -> FeaturesView {
        FeaturesView {
            global: GlobalView {
                on_line: self.on_line,
                two_sessions: self.two_sessions,
                crt_saver: self.crt_saver,
                comm1_dec423: self.comm1_dec423,
                refresh_60hz: self.refresh_60hz,
                printer_session: self.printer_session,
            },
            display: DisplayView {
                columns_132: self.columns_132,
                display_controls: self.display_controls,
                autowrap: self.autowrap,
                scroll: self.scroll,
                light_screen: self.light_screen,
                cursor: self.cursor,
                cursor_style: self.cursor_style,
                status: self.status,
                page_length: self.page_length,
            },
            screen: ScreenView {
                screen_lines: self.screen_lines,
                vertical_coupling: self.vertical_coupling,
                page_coupling: self.page_coupling,
                auto_resize: self.auto_resize,
                clear_on_column_change: self.clear_on_column_change,
                zero_style: self.zero_style,
                crt_saver_minutes: self.crt_saver_minutes,
                energy_saver_minutes: self.energy_saver_minutes,
                host_wake_up: self.host_wake_up,
                overscan: self.overscan,
            },
            general: GeneralView {
                terminal_mode: self.terminal_mode,
                udk_locked: self.udk_locked,
                user_features_locked: self.user_features_locked,
                national: self.national,
                keypad_application: self.keypad_application,
                cursor_keys_application: self.cursor_keys_application,
                new_line: self.new_line,
                upss: self.upss,
                terminal_id: self.terminal_id,
                update: self.update,
            },
            line: LineView {
                transmit_speed: self.transmit_speed,
                receive_speed: self.receive_speed,
                xoff: self.xoff,
                seven_bit_data: self.seven_bit_data,
                parity: self.parity,
                two_stop_bits: self.two_stop_bits,
                transmit_flow: self.transmit_flow,
                receive_flow: self.receive_flow,
                flow_threshold_high: self.flow_threshold_high,
                transmit_rate: self.transmit_rate,
                fkey_rate: self.fkey_rate,
            },
            modem: ModemView {
                ignore_null: self.ignore_null,
                half_duplex: self.half_duplex,
                modem_high_speed: self.modem_high_speed,
                modem_low_speed: self.modem_low_speed,
                local_echo: self.local_echo,
                modem_control: self.modem_control,
                disconnect: self.disconnect,
                limited_transmit: self.limited_transmit,
                auto_answerback: self.auto_answerback,
                answerback: self.answerback@,
                conceal_answerback: self.conceal_answerback,
            },
            keys: KeysView {
                data_processing_keys: self.data_processing_keys,
                shift_lock: self.shift_lock,
                auto_repeat: self.auto_repeat,
                auto_repeat_rate: self.auto_repeat_rate,
                keyclick: self.keyclick,
                margin_bell: self.margin_bell,
                warning_bell: self.warning_bell,
                position_mode: self.position_mode,
                backarrow_bs: self.backarrow_bs,
                compose: self.compose,
                report_alt: self.report_alt,
            },
            layout: LayoutView {
                local_keys: self.local_keys@,
                break_key: self.break_key,
                comma_period_same: self.comma_period_same,
                angle_sends_tilde: self.angle_sends_tilde,
                tilde_sends_escape: self.tilde_sends_escape,
                keyboard_language: self.keyboard_language,
                tabs: self.tabs@,
            },
        }
    }
}

/// The factory tab stops of a line `cols` wide: every eighth column.
pub open spec fn default_tabs_spec(cols: nat) -> Seq<bool> {
    Seq::new(cols, |c: int| c > 0 && c % 8 == 0)
}

/// The factory tab stops of a line `cols` wide.
pub fn default_tabs(cols: usize) -> (r: Vec<bool>)
    ensures
        r@ == default_tabs_spec(cols as nat),
{
    let mut r: Vec<bool> = Vec::new();
    let mut c: usize = 0;
    while c < cols
        invariant
            c <= cols,
            r@ == default_tabs_spec(c as nat),
        decreases cols - c,
    {
        r.push(c > 0 && c % 8 == 0);
        c = c + 1;
        assert(r@ =~= default_tabs_spec(c as nat));
    }
    r
}

/// The factory settings of `model` (Installing and Using the VT420, tables
/// 5-2 to 5-7).
pub open spec fn factory_view(model: Model) -> FeaturesView {
    let level = max_level(model);
    FeaturesView {
        global: GlobalView {
            on_line: true,
            two_sessions: false,
            crt_saver: true,
            comm1_dec423: false,
            refresh_60hz: false,
            printer_session: 0,
        },
        display: DisplayView {
            columns_132: false,
            display_controls: false,
            autowrap: false,
            scroll: if model == Model::Vt420 || model == Model::Vt510 { Scroll::Smooth2 } else { Scroll::Jump },
            light_screen: false,
            cursor: true,
            cursor_style: CursorStyle::BlinkingBlock,
            status: if level >= 3 { StatusDisplay::Indicator } else { StatusDisplay::NoDisplay },
            page_length: 24,
        },
        screen: ScreenView {
            screen_lines: 24,
            vertical_coupling: true,
            page_coupling: true,
            auto_resize: false,
            clear_on_column_change: true,
            zero_style: 1,
            crt_saver_minutes: 15,
            energy_saver_minutes: 15,
            host_wake_up: false,
            overscan: false,
        },
        general: GeneralView {
            terminal_mode: if level >= 2 { TerminalMode::Level { level, eight_bit: false } } else { TerminalMode::Vt100 },
            udk_locked: false,
            user_features_locked: false,
            national: false,
            keypad_application: false,
            cursor_keys_application: false,
            new_line: false,
            upss: Supplemental::DecSupplemental,
            terminal_id: 10,
            update: 2,
        },
        line: LineView {
            transmit_speed: 9600,
            receive_speed: None,
            xoff: Some(64),
            seven_bit_data: false,
            parity: Parity::NoParity,
            two_stop_bits: false,
            transmit_flow: 1,
            receive_flow: 1,
            flow_threshold_high: false,
            transmit_rate: 1,
            fkey_rate: 1,
        },
        modem: ModemView {
            ignore_null: true,
            half_duplex: false,
            modem_high_speed: None,
            modem_low_speed: None,
            local_echo: false,
            modem_control: false,
            disconnect: 0,
            limited_transmit: false,
            auto_answerback: false,
            answerback: Seq::empty(),
            conceal_answerback: false,
        },
        keys: KeysView {
            data_processing_keys: false,
            shift_lock: false,
            auto_repeat: true,
            auto_repeat_rate: 30,
            keyclick: Volume::High,
            margin_bell: Volume::Off,
            warning_bell: Volume::High,
            position_mode: false,
            backarrow_bs: false,
            compose: ComposeKey::Local,
            report_alt: true,
        },
        layout: LayoutView {
            local_keys: seq![LocalKeyAction::Local, LocalKeyAction::Local, LocalKeyAction::Local, LocalKeyAction::Local],
            break_key: BreakKey::Break,
            comma_period_same: false,
            angle_sends_tilde: false,
            tilde_sends_escape: false,
            keyboard_language: None,
            tabs: default_tabs_spec(80),
        },
    }
}

impl Features {
    /// The factory settings of `model` (Installing and Using the VT420,
    /// tables 5-2 to 5-7).
    pub fn factory(model: Model) -> (r: Features)
        ensures
            r@ == factory_view(model),
    {
        let level = model.max_level();
        let local_keys = [LocalKeyAction::Local; 4];
        assert(local_keys@ =~= seq![LocalKeyAction::Local, LocalKeyAction::Local, LocalKeyAction::Local, LocalKeyAction::Local]);
        let tabs = default_tabs(80);
        let answerback: Vec<u8> = Vec::new();
        assert(answerback@ =~= Seq::<u8>::empty());
        Features {
            on_line: true,
            two_sessions: false,
            crt_saver: true,
            comm1_dec423: false,
            refresh_60hz: false,
            printer_session: 0,
            columns_132: false,
            display_controls: false,
            autowrap: false,
            scroll: if model.smooth_scroll_default() {
                Scroll::Smooth2
            } else {
                Scroll::Jump
            },
            light_screen: false,
            cursor: true,
            cursor_style: CursorStyle::factory(),
            status: if model.has_status_line() {
                StatusDisplay::Indicator
            } else {
                StatusDisplay::NoDisplay
            },
            page_length: 24,
            screen_lines: 24,
            vertical_coupling: true,
            page_coupling: true,
            auto_resize: false,
            clear_on_column_change: true,
            zero_style: 1,
            crt_saver_minutes: 15,
            energy_saver_minutes: 15,
            host_wake_up: false,
            overscan: false,
            terminal_mode: if level >= 2 {
                TerminalMode::Level { level, eight_bit: false }
            } else {
                TerminalMode::Vt100
            },
            udk_locked: false,
            user_features_locked: false,
            national: false,
            keypad_application: false,
            cursor_keys_application: false,
            new_line: false,
            upss: Supplemental::DecSupplemental,
            terminal_id: 10,
            update: 2,
            transmit_speed: 9600,
            receive_speed: None,
            xoff: Some(64),
            seven_bit_data: false,
            parity: Parity::NoParity,
            two_stop_bits: false,
            transmit_flow: 1,
            receive_flow: 1,
            flow_threshold_high: false,
            transmit_rate: 1,
            fkey_rate: 1,
            ignore_null: true,
            half_duplex: false,
            modem_high_speed: None,
            modem_low_speed: None,
            local_echo: false,
            modem_control: false,
            disconnect: 0,
            limited_transmit: false,
            auto_answerback: false,
            answerback,
            conceal_answerback: false,
            data_processing_keys: false,
            shift_lock: false,
            auto_repeat: true,
            auto_repeat_rate: 30,
            keyclick: Volume::High,
            margin_bell: Volume::Off,
            warning_bell: Volume::High,
            position_mode: false,
            backarrow_bs: false,
            compose: ComposeKey::Local,
            report_alt: true,
            local_keys,
            break_key: BreakKey::Break,
            comma_period_same: false,
            angle_sends_tilde: false,
            tilde_sends_escape: false,
            keyboard_language: None,
            tabs,
        }
    }
}

/// Keyboard dialects offered in the Set-Up Directory, North American first.
pub open spec fn dialects() -> Seq<Option<Nrc>> {
    seq![
        None,
        Some(Nrc::British),
        Some(Nrc::Dutch),
        Some(Nrc::Finnish),
        Some(Nrc::French),
        Some(Nrc::FrenchCanadian),
        Some(Nrc::German),
        Some(Nrc::Italian),
        Some(Nrc::NorwegianDanish),
        Some(Nrc::Portuguese),
        Some(Nrc::Spanish),
        Some(Nrc::Swedish),
        Some(Nrc::Swiss),
    ]
}

/// The position of a keyboard language among the dialects.
pub open spec fn dialect_index(n: Option<Nrc>) -> nat {
    match n {
        None => 0,
        Some(Nrc::British) => 1,
        Some(Nrc::Dutch) => 2,
        Some(Nrc::Finnish) => 3,
        Some(Nrc::French) => 4,
        Some(Nrc::FrenchCanadian) => 5,
        Some(Nrc::German) => 6,
        Some(Nrc::Italian) => 7,
        Some(Nrc::NorwegianDanish) => 8,
        Some(Nrc::Portuguese) => 9,
        Some(Nrc::Spanish) => 10,
        Some(Nrc::Swedish) => 11,
        Some(Nrc::Swiss) => 12,
    }
}

/// Every keyboard language stands at its position among the dialects.
pub proof fn lemma_dialect_index(n: Option<Nrc>)
    ensures
        dialect_index(n) < 13,
        dialects()[dialect_index(n) as int] == n,
{
}

/// The position of a keyboard language among the dialects.
pub fn dialect_position(n: Option<Nrc>) -> (r: usize)
    ensures
        r == dialect_index(n),
{
    match n {
        None => 0,
        Some(Nrc::British) => 1,
        Some(Nrc::Dutch) => 2,
        Some(Nrc::Finnish) => 3,
        Some(Nrc::French) => 4,
        Some(Nrc::FrenchCanadian) => 5,
        Some(Nrc::German) => 6,
        Some(Nrc::Italian) => 7,
        Some(Nrc::NorwegianDanish) => 8,
        Some(Nrc::Portuguese) => 9,
        Some(Nrc::Spanish) => 10,
        Some(Nrc::Swedish) => 11,
        Some(Nrc::Swiss) => 12,
    }
}

/// The keyboard language at a position among the dialects; `None` past
/// the end.
pub fn dialect_at(i: usize) -> (r: Option<Option<Nrc>>)
    ensures
        i < 13 ==> r == Some(dialects()[i as int]),
        i >= 13 ==> r is None,
{
    if i == 0 {
        Some(None)
    } else if i == 1 {
        Some(Some(Nrc::British))
    } else if i == 2 {
        Some(Some(Nrc::Dutch))
    } else if i == 3 {
        Some(Some(Nrc::Finnish))
    } else if i == 4 {
        Some(Some(Nrc::French))
    } else if i == 5 {
        Some(Some(Nrc::FrenchCanadian))
    } else if i == 6 {
        Some(Some(Nrc::German))
    } else if i == 7 {
        Some(Some(Nrc::Italian))
    } else if i == 8 {
        Some(Some(Nrc::NorwegianDanish))
    } else if i == 9 {
        Some(Some(Nrc::Portuguese))
    } else if i == 10 {
        Some(Some(Nrc::Spanish))
    } else if i == 11 {
        Some(Some(Nrc::Swedish))
    } else if i == 12 {
        Some(Some(Nrc::Swiss))
    } else {
        None
    }
}

/// Line speeds a model offers: up to 38400, and to 115200 on the VT500s.
pub open spec fn speed_offered(model: Model, s: nat) -> bool {
    s == 300 || s == 600 || s == 1200 || s == 2400 || s == 4800 || s == 9600 || s == 19200 || s == 38400
        || (max_level(model) >= 5 && (s == 57600 || s == 76800 || s == 115200))
}

/// Whether a model offers a line speed.
pub fn offers_speed(model: Model, s: u64) -> (r: bool)
    ensures
        r == speed_offered(model, s as nat),
{
    s == 300 || s == 600 || s == 1200 || s == 2400 || s == 4800 || s == 9600 || s == 19200 || s == 38400
        || (model.max_level() >= 5 && (s == 57600 || s == 76800 || s == 115200))
}

/// Page lengths a model offers.
pub open spec fn page_length_offered(model: Model, n: nat) -> bool {
    if max_level(model) >= 5 {
        n == 24 || n == 25 || n == 36 || n == 41 || n == 42 || n == 48 || n == 52 || n == 53 || n == 72
    } else {
        n == 24 || n == 25 || n == 36 || n == 48 || n == 72 || n == 144
    }
}

/// Whether a model offers a page length.
pub fn offers_page_length(model: Model, n: u64) -> (r: bool)
    ensures
        r == page_length_offered(model, n as nat),
{
    if model.max_level() >= 5 {
        n == 24 || n == 25 || n == 36 || n == 41 || n == 42 || n == 48 || n == 52 || n == 53 || n == 72
    } else {
        n == 24 || n == 25 || n == 36 || n == 48 || n == 72 || n == 144
    }
}

/// Lines per screen as Set-Up names them (a VT500 shows 26, 42 or 53 data
/// lines for these, EK-VT520-RM DECSNLS).
pub open spec fn screen_lines_offered(n: nat) -> bool {
    n == 24 || n == 36 || n == 48
}

/// VT500 CRT saver and energy saver intervals in minutes; 0 is never.
pub open spec fn saver_minutes_offered(n: nat) -> bool {
    n == 0 || n == 5 || n == 15 || n == 30 || n == 60
}

/// DECTID codes a model offers, its own identity (10) first.
pub open spec fn terminal_id_offered(model: Model, id: nat) -> bool {
    if max_level(model) == 5 {
        id == 10 || id == 9 || id == 7 || id == 5 || id == 2 || id == 1 || id == 0
    } else if max_level(model) == 4 {
        id == 10 || id == 0 || id == 1 || id == 2 || id == 5 || id == 7
    } else {
        id == 10
    }
}

/// Whether a model offers a DECTID code.
pub fn offers_terminal_id(model: Model, id: u64) -> (r: bool)
    ensures
        r == terminal_id_offered(model, id as nat),
{
    let level = model.max_level();
    if level == 5 {
        id == 10 || id == 9 || id == 7 || id == 5 || id == 2 || id == 1 || id == 0
    } else if level == 4 {
        id == 10 || id == 0 || id == 1 || id == 2 || id == 5 || id == 7
    } else {
        id == 10
    }
}

/// Operating levels a model offers: VT52, VT100 and, from VT200 mode to
/// its own level, 7-bit and 8-bit controls.
pub open spec fn terminal_mode_offered(model: Model, m: TerminalMode) -> bool {
    match m {
        TerminalMode::Vt52 | TerminalMode::Vt100 => true,
        TerminalMode::Level { level, .. } => 2 <= level <= max_level(model),
    }
}

/// Actions the terminal or window performs for Set-Up.
#[derive(Debug, Clone, Copy, PartialEq, Eq, Structural)]
pub enum Action {
    ClearComm,
    ResetSession,
    /// Recall the saved settings.
    Recall,
    Save,
    /// Recall the factory settings.
    Default,
}

/// What a Set-Up key did.
#[derive(Debug, Clone, Copy, PartialEq, Eq, Structural)]
pub enum Outcome {
    /// The screen changed (or nothing happened).
    Redraw,
    /// Leave Set-Up, applying the features.
    Exit,
    /// Perform an action, then report with `done`.
    Action(Action),
}

/// Keys Set-Up understands.
#[derive(Debug, Clone, PartialEq, Eq)]
pub enum Input {
    Up,
    Down,
    Left,
    Right,
    Enter,
    Tab,
    Backspace,
    /// Typed text (only used while entering an answerback message).
    Text(String),
    /// The Set-Up key: leaves Set-Up, or cancels answerback entry.
    SetUp,
}

} // verus!
