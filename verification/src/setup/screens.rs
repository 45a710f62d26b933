//! The VT420 Set-Up screens (Installing and Using the VT420 Video Terminal,
//! chapter 5), used for the VT100 to VT420 models: fields laid out in rows
//! on eight screens, moved between with the arrow keys and stepped with
//! Enter.

use vstd::prelude::*;
use crate::charset::Nrc;
use crate::config::{max_level, Model, StatusDisplay, Supplemental};
use crate::setup::read::{features_of, reading_of, terminal_modes, Reading};
use crate::setup::{
    DisplayView, GeneralView, GlobalView, KeysView, LayoutView, LineView, ModemView, ScreenView,
    default_tabs, default_tabs_spec, dialects, BreakKey, ComposeKey, Features, FeaturesView, Input, Outcome,
    Parity, Scroll, TerminalMode, Volume,
};
use crate::setup::Action;
use crate::terminal::{ascii_upper, CursorStyle, LocalKeyAction};
use crate::config::exact_name;
use crate::text::{char_from_digit, dec, push_dec, push_str, str_chars, string_from};

verus! {

/// The Set-Up screens.
#[derive(Debug, Clone, Copy, PartialEq, Eq, Structural)]
pub enum Screen {
    Directory,
    Global,
    Display,
    General,
    Communications,
    Printer,
    Keyboard,
    Tab,
}

/// The title a screen shows.
pub open spec fn screen_title(s: Screen) -> Seq<char> {
    match s {
        Screen::Directory => "Set-Up Directory"@,
        Screen::Global => "Global Set-Up"@,
        Screen::Display => "Display Set-Up"@,
        Screen::General => "General Set-Up"@,
        Screen::Communications => "Communications Set-Up Comm1"@,
        Screen::Printer => "Printer Set-Up"@,
        Screen::Keyboard => "Keyboard Set-Up"@,
        Screen::Tab => "Tab Set-Up"@,
    }
}

/// The screen To Next Set-Up goes to: the screens in turn, the Directory
/// left out.
pub open spec fn next_screen(s: Screen) -> Screen {
    match s {
        Screen::Directory => Screen::Global,
        Screen::Global => Screen::Display,
        Screen::Display => Screen::General,
        Screen::General => Screen::Communications,
        Screen::Communications => Screen::Printer,
        Screen::Printer => Screen::Keyboard,
        Screen::Keyboard => Screen::Tab,
        Screen::Tab => Screen::Global,
    }
}

impl Screen {
    pub fn title(self) -> (r: &'static str)
        ensures
            r@ == screen_title(self),
    {
        match self {
            Screen::Directory => "Set-Up Directory",
            Screen::Global => "Global Set-Up",
            Screen::Display => "Display Set-Up",
            Screen::General => "General Set-Up",
            Screen::Communications => "Communications Set-Up Comm1",
            Screen::Printer => "Printer Set-Up",
            Screen::Keyboard => "Keyboard Set-Up",
            Screen::Tab => "Tab Set-Up",
        }
    }

    pub fn next(self) -> (r: Screen)
        ensures
            r == next_screen(self),
    {
        match self {
            Screen::Directory => Screen::Global,
            Screen::Global => Screen::Display,
            Screen::Display => Screen::General,
            Screen::General => Screen::Communications,
            Screen::Communications => Screen::Printer,
            Screen::Printer => Screen::Keyboard,
            Screen::Keyboard => Screen::Tab,
            Screen::Tab => Screen::Global,
        }
    }
}

/// A field of a Set-Up screen: a feature, a command or a way to another
/// screen.
#[derive(Debug, Clone, Copy, PartialEq, Eq, Structural)]
pub enum Field {
    Goto(Screen),
    NextSetUp,
    ToDirectory,
    Do(Action),
    ClearDisplay,
    Language,
    Dialect,
    EnableSessions,
    DisableSessions,
    Exit,
    ScreenAlign,
    // Global
    OnLine,
    CommPorts,
    CrtSaver,
    CommPort,
    Refresh,
    PrinterAssignment,
    // Display
    Columns,
    Controls,
    AutoWrap,
    Scroll,
    LightScreen,
    Cursor,
    CursorStyle,
    Status,
    CursorBlink,
    Pages,
    Lines,
    VerticalCoupling,
    PageCoupling,
    AutoResize,
    // General
    TerminalMode,
    UdkLock,
    UserFeatures,
    CharacterSetMode,
    Keypad,
    CursorKeys,
    NewLine,
    Upss,
    TerminalId,
    Update,
    // Communications
    Transmit,
    Receive,
    Xoff,
    DataFormat,
    StopBits,
    LocalEcho,
    ModemControl,
    Disconnect,
    TransmitLimit,
    AutoAnswerback,
    Answerback,
    Conceal,
    ModemHigh,
    ModemLow,
    // Keyboard
    Typewriter,
    Lock,
    AutoRepeat,
    Keyclick,
    MarginBell,
    WarningBell,
    CharacterMode,
    Backarrow,
    Compose,
    Alt,
    LocalKey(u8),
    BreakKey,
    CommaKeys,
    AngleKey,
    TildeKey,
    // Tab
    ClearTabs,
    SetTabs8,
    /// The tab ruler; its column is the screens' tab column.
    Ruler,
}

/// The fields of a screen, row by row.
#[verifier::opaque]
pub open spec fn screen_rows(s: Screen) -> Seq<Seq<Field>> {
    match s {
        Screen::Directory => seq![
            seq![
                Field::Goto(Screen::Global),
                Field::Goto(Screen::Display),
                Field::Goto(Screen::General),
                Field::Goto(Screen::Communications),
                Field::Goto(Screen::Printer),
                Field::Goto(Screen::Keyboard),
                Field::Goto(Screen::Tab),
            ],
            seq![
                Field::ClearDisplay,
                Field::Do(Action::ClearComm),
                Field::Do(Action::ResetSession),
                Field::Do(Action::Recall),
                Field::Do(Action::Save),
            ],
            seq![Field::Language, Field::Dialect, Field::Do(Action::Default)],
            seq![Field::EnableSessions, Field::DisableSessions, Field::Exit, Field::ScreenAlign],
        ],
        Screen::Global => seq![
            seq![Field::NextSetUp, Field::ToDirectory],
            seq![Field::OnLine, Field::CommPorts, Field::CrtSaver],
            seq![Field::CommPort, Field::Refresh, Field::PrinterAssignment],
        ],
        Screen::Display => seq![
            seq![Field::NextSetUp, Field::ToDirectory, Field::Columns, Field::Controls],
            seq![Field::AutoWrap, Field::Scroll, Field::LightScreen],
            seq![Field::Cursor, Field::CursorStyle, Field::Status],
            seq![Field::CursorBlink, Field::Pages, Field::Lines],
            seq![Field::VerticalCoupling, Field::PageCoupling, Field::AutoResize],
        ],
        Screen::General => seq![
            seq![Field::NextSetUp, Field::ToDirectory, Field::TerminalMode],
            seq![Field::UdkLock, Field::UserFeatures, Field::CharacterSetMode],
            seq![Field::Keypad, Field::CursorKeys, Field::NewLine],
            seq![Field::Upss, Field::TerminalId],
            seq![Field::Update],
        ],
        Screen::Communications => seq![
            seq![Field::NextSetUp, Field::ToDirectory, Field::Transmit, Field::Receive],
            seq![Field::Xoff, Field::DataFormat, Field::StopBits, Field::LocalEcho],
            seq![Field::ModemControl, Field::Disconnect, Field::TransmitLimit],
            seq![Field::AutoAnswerback, Field::Answerback, Field::Conceal],
            seq![Field::ModemHigh, Field::ModemLow],
        ],
        Screen::Printer => seq![seq![Field::NextSetUp, Field::ToDirectory]],
        Screen::Keyboard => seq![
            seq![Field::NextSetUp, Field::ToDirectory, Field::Typewriter, Field::Lock],
            seq![Field::AutoRepeat, Field::Keyclick, Field::MarginBell, Field::WarningBell],
            seq![Field::CharacterMode, Field::Backarrow, Field::Compose, Field::Alt],
            seq![
                Field::LocalKey(0),
                Field::LocalKey(1),
                Field::LocalKey(2),
                Field::LocalKey(3),
                Field::BreakKey,
            ],
            seq![Field::CommaKeys, Field::AngleKey, Field::TildeKey],
        ],
        Screen::Tab => seq![
            seq![Field::NextSetUp, Field::ToDirectory, Field::ClearTabs],
            seq![Field::SetTabs8],
            seq![Field::Ruler],
        ],
    }
}

/// The rows as sequences.
pub open spec fn rows_view(r: Seq<Vec<Field>>) -> Seq<Seq<Field>> {
    r.map_values(|v: Vec<Field>| v@)
}

fn row1(f0: Field) -> (r: Vec<Field>)
    ensures
        r@ == seq![f0],
{
    let mut v: Vec<Field> = Vec::new();
    v.push(f0);
    assert(v@ =~= seq![f0]);
    v
}

fn row2(f0: Field, f1: Field) -> (r: Vec<Field>)
    ensures
        r@ == seq![f0, f1],
{
    let mut v: Vec<Field> = Vec::new();
    v.push(f0);
    v.push(f1);
    assert(v@ =~= seq![f0, f1]);
    v
}

fn row3(f0: Field, f1: Field, f2: Field) -> (r: Vec<Field>)
    ensures
        r@ == seq![f0, f1, f2],
{
    let mut v: Vec<Field> = Vec::new();
    v.push(f0);
    v.push(f1);
    v.push(f2);
    assert(v@ =~= seq![f0, f1, f2]);
    v
}

fn row4(f0: Field, f1: Field, f2: Field, f3: Field) -> (r: Vec<Field>)
    ensures
        r@ == seq![f0, f1, f2, f3],
{
    let mut v: Vec<Field> = Vec::new();
    v.push(f0);
    v.push(f1);
    v.push(f2);
    v.push(f3);
    assert(v@ =~= seq![f0, f1, f2, f3]);
    v
}

fn row5(f0: Field, f1: Field, f2: Field, f3: Field, f4: Field) -> (r: Vec<Field>)
    ensures
        r@ == seq![f0, f1, f2, f3, f4],
{
    let mut v: Vec<Field> = Vec::new();
    v.push(f0);
    v.push(f1);
    v.push(f2);
    v.push(f3);
    v.push(f4);
    assert(v@ =~= seq![f0, f1, f2, f3, f4]);
    v
}

fn row7(f0: Field, f1: Field, f2: Field, f3: Field, f4: Field, f5: Field, f6: Field) -> (r: Vec<Field>)
    ensures
        r@ == seq![f0, f1, f2, f3, f4, f5, f6],
{
    let mut v: Vec<Field> = Vec::new();
    v.push(f0);
    v.push(f1);
    v.push(f2);
    v.push(f3);
    v.push(f4);
    v.push(f5);
    v.push(f6);
    assert(v@ =~= seq![f0, f1, f2, f3, f4, f5, f6]);
    v
}

/// The fields of a screen, row by row.
fn rows(screen: Screen) -> (r: Vec<Vec<Field>>)
    ensures
        rows_view(r@) == screen_rows(screen),
{
    reveal(screen_rows);
    let mut r: Vec<Vec<Field>> = Vec::new();
    match screen {
        Screen::Directory => {
            r.push(row7(Field::Goto(Screen::Global), Field::Goto(Screen::Display), Field::Goto(Screen::General), Field::Goto(Screen::Communications), Field::Goto(Screen::Printer), Field::Goto(Screen::Keyboard), Field::Goto(Screen::Tab)));
            r.push(row5(Field::ClearDisplay, Field::Do(Action::ClearComm), Field::Do(Action::ResetSession), Field::Do(Action::Recall), Field::Do(Action::Save)));
            r.push(row3(Field::Language, Field::Dialect, Field::Do(Action::Default)));
            r.push(row4(Field::EnableSessions, Field::DisableSessions, Field::Exit, Field::ScreenAlign));
        },
        Screen::Global => {
            r.push(row2(Field::NextSetUp, Field::ToDirectory));
            r.push(row3(Field::OnLine, Field::CommPorts, Field::CrtSaver));
            r.push(row3(Field::CommPort, Field::Refresh, Field::PrinterAssignment));
        },
        Screen::Display => {
            r.push(row4(Field::NextSetUp, Field::ToDirectory, Field::Columns, Field::Controls));
            r.push(row3(Field::AutoWrap, Field::Scroll, Field::LightScreen));
            r.push(row3(Field::Cursor, Field::CursorStyle, Field::Status));
            r.push(row3(Field::CursorBlink, Field::Pages, Field::Lines));
            r.push(row3(Field::VerticalCoupling, Field::PageCoupling, Field::AutoResize));
        },
        Screen::General => {
            r.push(row3(Field::NextSetUp, Field::ToDirectory, Field::TerminalMode));
            r.push(row3(Field::UdkLock, Field::UserFeatures, Field::CharacterSetMode));
            r.push(row3(Field::Keypad, Field::CursorKeys, Field::NewLine));
            r.push(row2(Field::Upss, Field::TerminalId));
            r.push(row1(Field::Update));
        },
        Screen::Communications => {
            r.push(row4(Field::NextSetUp, Field::ToDirectory, Field::Transmit, Field::Receive));
            r.push(row4(Field::Xoff, Field::DataFormat, Field::StopBits, Field::LocalEcho));
            r.push(row3(Field::ModemControl, Field::Disconnect, Field::TransmitLimit));
            r.push(row3(Field::AutoAnswerback, Field::Answerback, Field::Conceal));
            r.push(row2(Field::ModemHigh, Field::ModemLow));
        },
        Screen::Printer => {
            r.push(row2(Field::NextSetUp, Field::ToDirectory));
        },
        Screen::Keyboard => {
            r.push(row4(Field::NextSetUp, Field::ToDirectory, Field::Typewriter, Field::Lock));
            r.push(row4(Field::AutoRepeat, Field::Keyclick, Field::MarginBell, Field::WarningBell));
            r.push(row4(Field::CharacterMode, Field::Backarrow, Field::Compose, Field::Alt));
            r.push(row5(Field::LocalKey(0), Field::LocalKey(1), Field::LocalKey(2), Field::LocalKey(3), Field::BreakKey));
            r.push(row3(Field::CommaKeys, Field::AngleKey, Field::TildeKey));
        },
        Screen::Tab => {
            r.push(row3(Field::NextSetUp, Field::ToDirectory, Field::ClearTabs));
            r.push(row1(Field::SetTabs8));
            r.push(row1(Field::Ruler));
        },
    }
    assert(rows_view(r@) =~= screen_rows(screen));
    r
}

/// The first place of `x` in `s`, or -1.
#[verifier::opaque]
pub open spec fn position_in<T>(s: Seq<T>, x: T) -> int
    decreases s.len(),
{
    if s.len() == 0 {
        -1
    } else if s[0] == x {
        0
    } else {
        let r = position_in(s.drop_first(), x);
        if r < 0 { -1 } else { r + 1 }
    }
}

/// The entry after `x` in `options`, round to the first; the second entry
/// when `x` is none of them.
#[verifier::opaque]
pub open spec fn next_in<T>(options: Seq<T>, x: T) -> T {
    let i = position_in(options, x);
    options[((if i < 0 { 0 } else { i }) + 1) % (options.len() as int)]
}

proof fn lemma_position_in<T>(s: Seq<T>, x: T, i: int)
    requires
        0 <= i <= s.len(),
        forall|j: int| 0 <= j < i ==> s[j] != x,
        i < s.len() ==> s[i] == x,
    ensures
        position_in(s, x) == (if i < s.len() { i } else { -1 }),
    decreases s.len(),
{
    reveal(position_in);
    if s.len() > 0 && i > 0 {
        assert forall|j: int| 0 <= j < i - 1 implies s.drop_first()[j] != x by {
            assert(s.drop_first()[j] == s[j + 1]);
        }
        if i < s.len() {
            assert(s.drop_first()[i - 1] == s[i]);
        }
        lemma_position_in(s.drop_first(), x, i - 1);
    }
}


/// `yes` when `on`, else `no`.
pub open spec fn on_off(on: bool, yes: Seq<char>, no: Seq<char>) -> Seq<char> {
    if on { yes } else { no }
}

/// A volume after its label.
pub open spec fn volume_label(label: Seq<char>, v: Volume) -> Seq<char> {
    match v {
        Volume::Off => label + " Off"@,
        Volume::Low => label + " Low"@,
        Volume::High => label + " High"@,
    }
}

/// The name of a keyboard dialect.
pub open spec fn dialect_name(n: Option<Nrc>) -> Seq<char> {
    match n {
        None => "North American Keyboard"@,
        Some(Nrc::British) => "British Keyboard"@,
        Some(Nrc::Dutch) => "Dutch Keyboard"@,
        Some(Nrc::Finnish) => "Finnish Keyboard"@,
        Some(Nrc::French) => "French/Belgian Keyboard"@,
        Some(Nrc::FrenchCanadian) => "Canadian (French) Keyboard"@,
        Some(Nrc::German) => "German Keyboard"@,
        Some(Nrc::Italian) => "Italian Keyboard"@,
        Some(Nrc::NorwegianDanish) => "Norwegian/Danish Keyboard"@,
        Some(Nrc::Portuguese) => "Portuguese Keyboard"@,
        Some(Nrc::Spanish) => "Spanish Keyboard"@,
        Some(Nrc::Swedish) => "Swedish Keyboard"@,
        Some(Nrc::Swiss) => "Swiss Keyboard"@,
    }
}

/// The character formats by number: name, 7-bit data, parity.
pub open spec fn data_formats() -> Seq<(bool, Parity)> {
    seq![
        (false, Parity::NoParity),
        (false, Parity::Even),
        (false, Parity::Odd),
        (true, Parity::Even),
        (true, Parity::Odd),
        (true, Parity::Mark),
        (true, Parity::Space),
    ]
}

/// The name of a character format; the first one's for a pair that is no
/// format.
pub open spec fn data_format_name(seven: bool, p: Parity) -> Seq<char> {
    if !seven && p == Parity::Even {
        "8 Bits, Even Parity"@
    } else if !seven && p == Parity::Odd {
        "8 Bits, Odd Parity"@
    } else if seven && p == Parity::Even {
        "7 Bits, Even Parity"@
    } else if seven && p == Parity::Odd {
        "7 Bits, Odd Parity"@
    } else if seven && p == Parity::Mark {
        "7 Bits, Mark Parity"@
    } else if seven && p == Parity::Space {
        "7 Bits, Space Parity"@
    } else {
        "8 Bits, No Parity"@
    }
}

/// How many pages of `page_length` lines the Pages field shows: the VT500s
/// keep a fixed number per length; the others share 144 lines, 72 a
/// session when two sessions share the memory.
pub open spec fn page_count(f: FeaturesView, model: Model) -> nat {
    let pl = f.display.page_length as nat;
    if max_level(model) >= 5 {
        if pl <= 24 { 3 } else if pl <= 36 { 2 } else { 1 }
    } else {
        let pages: nat = if f.global.two_sessions { 72 } else { 144 };
        let n = pages / pl;
        if n < 1 { 1 } else { n }
    }
}

/// The name and number of a local function key.
pub open spec fn local_key_label(k: nat, a: LocalKeyAction) -> Seq<char> {
    let n = dec(k + 1);
    let name = if k == 0 { "Hold"@ } else if k == 1 { "Print"@ } else if k == 2 { "Set-Up"@ } else { "Session"@ };
    match a {
        LocalKeyAction::Local => "F"@ + n + " = "@ + name,
        LocalKeyAction::SendToHost => "F"@ + n + " = Fkey"@,
        LocalKeyAction::Disabled => "F"@ + n + " = Ignore"@,
    }
}

/// Whether a field can be shown: a local key field names one of the four.
pub open spec fn field_ok(field: Field) -> bool {
    match field {
        Field::LocalKey(k) => k < 4,
        _ => true,
    }
}

/// Features Set-Up can show: four local keys and lines on each page.
pub open spec fn features_ok(f: FeaturesView) -> bool {
    f.layout.local_keys.len() == 4 && f.display.page_length > 0
}

/// The directory's name for a screen.
pub open spec fn goto_label(s: Screen) -> Seq<char> {
    match s {
        Screen::Global => "Global"@,
        Screen::Display => "Display"@,
        Screen::General => "General"@,
        Screen::Communications => "Comm"@,
        Screen::Printer => "Printer"@,
        Screen::Keyboard => "Keyboard"@,
        Screen::Tab => "Tab"@,
        Screen::Directory => "Directory"@,
    }
}

fn goto_label_of(s: Screen) -> (r: &'static str)
    ensures
        r@ == goto_label(s),
{
    match s {
        Screen::Global => "Global",
        Screen::Display => "Display",
        Screen::General => "General",
        Screen::Communications => "Comm",
        Screen::Printer => "Printer",
        Screen::Keyboard => "Keyboard",
        Screen::Tab => "Tab",
        Screen::Directory => "Directory",
    }
}

/// The text a field shows.
pub open spec fn label_text(field: Field, f: FeaturesView, model: Model) -> Seq<char> {
    match field {
        Field::Goto(s) => goto_label(s),
        Field::NextSetUp => "To Next Set-Up"@,
        Field::ToDirectory => "To Directory"@,
        Field::Do(a) => match a {
            Action::ClearComm => "Clear Comm"@,
            Action::ResetSession => "Reset Session"@,
            Action::Recall => "Recall"@,
            Action::Save => "Save"@,
            Action::Default => "Default"@,
        },
        Field::ClearDisplay => "Clear Display"@,
        Field::Language => "Set-Up=English"@,
        Field::Dialect => dialect_name(f.layout.keyboard_language),
        Field::EnableSessions => "Enable Sessions"@,
        Field::DisableSessions => "Disable Sessions"@,
        Field::Exit => "Exit"@,
        Field::ScreenAlign => "Screen Align"@,
        Field::OnLine => on_off(f.global.on_line, "On Line"@, "Local"@),
        Field::CommPorts => on_off(f.global.two_sessions, "S1=Comm1,S2=Comm2"@, "S1=Comm1"@),
        Field::CrtSaver => on_off(f.global.crt_saver, "CRT Saver"@, "No CRT Saver"@),
        Field::CommPort => on_off(f.global.comm1_dec423, "Comm1=DEC-423"@, "Comm1=RS-232"@),
        Field::Refresh => on_off(f.global.refresh_60hz, "60 Hz"@, "70 Hz"@),
        Field::PrinterAssignment => if f.global.printer_session == 1 {
            "Printer Session 1"@
        } else if f.global.printer_session == 2 {
            "Printer Session 2"@
        } else {
            "Printer Shared"@
        },
        Field::Columns => on_off(f.display.columns_132, "132 Columns"@, "80 Columns"@),
        Field::Controls => on_off(f.display.display_controls, "Display Controls"@, "Interpret Controls"@),
        Field::AutoWrap => on_off(f.display.autowrap, "Auto Wrap"@, "No Auto Wrap"@),
        Field::Scroll => match f.display.scroll {
            Scroll::Jump => "Jump Scroll"@,
            Scroll::Smooth2 => "Smooth-2 Scroll"@,
            Scroll::Smooth4 => "Smooth-4 Scroll"@,
        },
        Field::LightScreen => on_off(f.display.light_screen, "Light Screen"@, "Dark Screen"@),
        Field::Cursor => on_off(f.display.cursor, "Cursor"@, "No Cursor"@),
        Field::CursorStyle => on_off(
            f.display.cursor_style == CursorStyle::BlinkingBlock || f.display.cursor_style == CursorStyle::SteadyBlock,
            "Block Cursor Style"@,
            "Underline Cursor Style"@,
        ),
        Field::Status => match f.display.status {
            StatusDisplay::NoDisplay => "No Status Display"@,
            StatusDisplay::Indicator => "Indicator Status Display"@,
            StatusDisplay::HostWritable => "Host Writable Status Display"@,
        },
        Field::CursorBlink => on_off(
            f.display.cursor_style == CursorStyle::BlinkingBlock || f.display.cursor_style
                == CursorStyle::BlinkingUnderline,
            "Cursor Blink"@,
            "Cursor Steady"@,
        ),
        Field::Pages => dec(page_count(f, model)) + "x"@ + dec(f.display.page_length as nat) + " Pages"@,
        Field::Lines => dec(f.screen.screen_lines as nat) + " Lines/Screen"@,
        Field::VerticalCoupling => on_off(f.screen.vertical_coupling, "Vertical Coupling"@, "No Vertical Coupling"@),
        Field::PageCoupling => on_off(f.screen.page_coupling, "Page Coupling"@, "No Page Coupling"@),
        Field::AutoResize => on_off(f.screen.auto_resize, "Auto Resize Screen"@, "No Auto Resize Screen"@),
        Field::TerminalMode => match f.general.terminal_mode {
            TerminalMode::Vt52 => "VT52 Mode"@,
            TerminalMode::Vt100 => "VT100 Mode"@,
            TerminalMode::Level { level, eight_bit } => "VT"@ + dec(level as nat) + "00 Mode, "@ + dec(
                if eight_bit { 8nat } else { 7nat },
            ) + " Bit Controls"@,
        },
        Field::UdkLock => on_off(f.general.udk_locked, "User Defined Keys Locked"@, "User Defined Keys Unlocked"@),
        Field::UserFeatures => on_off(
            f.general.user_features_locked,
            "User Features Locked"@,
            "User Features Unlocked"@,
        ),
        Field::CharacterSetMode => on_off(f.general.national, "7-bit NRCS Characters"@, "8-bit Characters"@),
        Field::Keypad => on_off(f.general.keypad_application, "Application Keypad"@, "Numeric Keypad"@),
        Field::CursorKeys => on_off(
            f.general.cursor_keys_application,
            "Application Cursor Keys"@,
            "Normal Cursor Keys"@,
        ),
        Field::NewLine => on_off(f.general.new_line, "New Line"@, "No New Line"@),
        Field::Upss => match f.general.upss {
            Supplemental::DecSupplemental => "UPSS DEC Supplemental"@,
            Supplemental::IsoLatin1 => "UPSS ISO Latin-1"@,
        },
        Field::TerminalId => {
            let id = f.general.terminal_id;
            if id == 0 {
                "VT100 ID"@
            } else if id == 1 {
                "VT101 ID"@
            } else if id == 2 {
                "VT102 ID"@
            } else if id == 5 {
                "VT220 ID"@
            } else if id == 7 {
                "VT320 ID"@
            } else if id == 9 {
                "VT420 ID"@
            } else {
                ascii_upper(exact_name(model)) + " ID"@
            }
        },
        Field::Update => if f.general.update == 1 {
            "Never Update"@
        } else if f.general.update == 3 {
            "Shared Update"@
        } else {
            "When Available Update"@
        },
        Field::Transmit => "Transmit="@ + dec(f.line.transmit_speed as nat),
        Field::Receive => match f.line.receive_speed {
            None => "Receive=Transmit"@,
            Some(s) => "Receive="@ + dec(s as nat),
        },
        Field::Xoff => match f.line.xoff {
            None => "No XOFF"@,
            Some(x) => "XOFF at "@ + dec(x as nat),
        },
        Field::DataFormat => data_format_name(f.line.seven_bit_data, f.line.parity),
        Field::StopBits => on_off(f.line.two_stop_bits, "2 Stop Bits"@, "1 Stop Bit"@),
        Field::LocalEcho => on_off(f.modem.local_echo, "Local Echo"@, "No Local Echo"@),
        Field::ModemControl => on_off(f.modem.modem_control, "Modem Control"@, "Data Leads Only"@),
        Field::Disconnect => if f.modem.disconnect == 1 {
            "Disconnect, 60 ms Delay"@
        } else if f.modem.disconnect == 2 {
            "No Disconnect"@
        } else {
            "Disconnect, 2 s Delay"@
        },
        Field::TransmitLimit => on_off(f.modem.limited_transmit, "Limited Transmit"@, "Unlimited Transmit"@),
        Field::AutoAnswerback => on_off(f.modem.auto_answerback, "Auto Answerback"@, "No Auto Answerback"@),
        Field::Answerback => "Answerback="@,
        Field::Conceal => on_off(f.modem.conceal_answerback, "Concealed"@, "Not Concealed"@),
        Field::ModemHigh => "Modem High Speed = Ignore"@,
        Field::ModemLow => "Modem Low Speed = Ignore"@,
        Field::Typewriter => on_off(f.keys.data_processing_keys, "Data Processing Keys"@, "Typewriter Keys"@),
        Field::Lock => on_off(f.keys.shift_lock, "Shift Lock"@, "Caps Lock"@),
        Field::AutoRepeat => on_off(f.keys.auto_repeat, "Auto Repeat"@, "No Auto Repeat"@),
        Field::Keyclick => volume_label("Keyclick"@, f.keys.keyclick),
        Field::MarginBell => volume_label("Margin Bell"@, f.keys.margin_bell),
        Field::WarningBell => volume_label("Warning Bell"@, f.keys.warning_bell),
        Field::CharacterMode => on_off(f.keys.position_mode, "Position Mode"@, "Character Mode"@),
        Field::Backarrow => on_off(f.keys.backarrow_bs, "<X] Backspace"@, "<X] Delete"@),
        Field::Compose => match f.keys.compose {
            ComposeKey::Local => "Local Compose"@,
            ComposeKey::Report => "Report Compose"@,
            ComposeKey::Ignore => "Ignore Compose"@,
        },
        Field::Alt => on_off(f.keys.report_alt, "Report Alt"@, "Ignore Alt"@),
        Field::LocalKey(k) => local_key_label(k as nat, f.layout.local_keys[k as int]),
        Field::BreakKey => match f.layout.break_key {
            BreakKey::Break => "F5 = Break"@,
            BreakKey::NoBreak => "F5 = No Break"@,
            BreakKey::FunctionKey => "F5 = Fkey"@,
            BreakKey::Ignore => "F5 = Ignore"@,
        },
        Field::CommaKeys => on_off(f.layout.comma_period_same, ",, and .. Keys"@, ",< and .> Keys"@),
        Field::AngleKey => on_off(f.layout.angle_sends_tilde, "<> Key Sends `~"@, "<> Key"@),
        Field::TildeKey => on_off(f.layout.tilde_sends_escape, "`~ Key Sends ESC"@, "`~ Key"@),
        Field::ClearTabs => "Clear all tabs"@,
        Field::SetTabs8 => "Set 8 column tabs"@,
        Field::Ruler => Seq::empty(),
    }
}

fn lit(s: &str) -> (r: Vec<char>)
    ensures
        r@ == s@,
{
    str_chars(s)
}

fn pick(on: bool, yes: &str, no: &str) -> (r: Vec<char>)
    ensures
        r@ == on_off(on, yes@, no@),
{
    if on { str_chars(yes) } else { str_chars(no) }
}

/// `a` then the decimal form of `n`.
fn num_after(a: &str, n: u64) -> (r: Vec<char>)
    ensures
        r@ == a@ + dec(n as nat),
{
    let mut v = str_chars(a);
    push_dec(&mut v, n);
    v
}

/// The decimal form of `n`, then `b`.
fn num_before(n: u64, b: &str) -> (r: Vec<char>)
    ensures
        r@ == dec(n as nat) + b@,
{
    let mut v: Vec<char> = Vec::new();
    push_dec(&mut v, n);
    push_str(&mut v, b);
    v
}

/// `a`, the decimal form of `n`, then `b`.
fn num_between(a: &str, n: u64, b: &str) -> (r: Vec<char>)
    ensures
        r@ == a@ + dec(n as nat) + b@,
{
    let mut v = str_chars(a);
    push_dec(&mut v, n);
    push_str(&mut v, b);
    v
}

fn volume_label_of(label: &str, v: Volume) -> (r: Vec<char>)
    ensures
        r@ == volume_label(label@, v),
{
    let mut out = str_chars(label);
    match v {
        Volume::Off => push_str(&mut out, " Off"),
        Volume::Low => push_str(&mut out, " Low"),
        Volume::High => push_str(&mut out, " High"),
    }
    out
}

fn dialect_name_of(n: Option<Nrc>) -> (r: &'static str)
    ensures
        r@ == dialect_name(n),
{
    match n {
        None => "North American Keyboard",
        Some(Nrc::British) => "British Keyboard",
        Some(Nrc::Dutch) => "Dutch Keyboard",
        Some(Nrc::Finnish) => "Finnish Keyboard",
        Some(Nrc::French) => "French/Belgian Keyboard",
        Some(Nrc::FrenchCanadian) => "Canadian (French) Keyboard",
        Some(Nrc::German) => "German Keyboard",
        Some(Nrc::Italian) => "Italian Keyboard",
        Some(Nrc::NorwegianDanish) => "Norwegian/Danish Keyboard",
        Some(Nrc::Portuguese) => "Portuguese Keyboard",
        Some(Nrc::Spanish) => "Spanish Keyboard",
        Some(Nrc::Swedish) => "Swedish Keyboard",
        Some(Nrc::Swiss) => "Swiss Keyboard",
    }
}

fn data_format_name_of(seven: bool, p: Parity) -> (r: &'static str)
    ensures
        r@ == data_format_name(seven, p),
{
    if !seven && p == Parity::Even {
        "8 Bits, Even Parity"
    } else if !seven && p == Parity::Odd {
        "8 Bits, Odd Parity"
    } else if seven && p == Parity::Even {
        "7 Bits, Even Parity"
    } else if seven && p == Parity::Odd {
        "7 Bits, Odd Parity"
    } else if seven && p == Parity::Mark {
        "7 Bits, Mark Parity"
    } else if seven && p == Parity::Space {
        "7 Bits, Space Parity"
    } else {
        "8 Bits, No Parity"
    }
}

fn page_count_of(f: &Features, model: Model) -> (r: u64)
    requires
        f@.display.page_length > 0,
    ensures
        r == page_count(f@, model),
{
    let pl = f.page_length;
    if model.max_level() >= 5 {
        if pl <= 24 { 3 } else if pl <= 36 { 2 } else { 1 }
    } else {
        let pages: usize = if f.two_sessions { 72 } else { 144 };
        let n = pages / pl;
        if n < 1 { 1 } else { n as u64 }
    }
}

fn local_key_label_of(k: u8, a: LocalKeyAction) -> (r: Vec<char>)
    requires
        k < 4,
    ensures
        r@ == local_key_label(k as nat, a),
{
    let mut out = str_chars("F");
    push_dec(&mut out, (k + 1) as u64);
    match a {
        LocalKeyAction::Local => {
            push_str(&mut out, " = ");
            push_str(&mut out, if k == 0 { "Hold" } else if k == 1 { "Print" } else if k == 2 { "Set-Up" } else { "Session" });
        },
        LocalKeyAction::SendToHost => push_str(&mut out, " = Fkey"),
        LocalKeyAction::Disabled => push_str(&mut out, " = Ignore"),
    }
    out
}

/// Which of four groups a field falls in, for showing it.
pub open spec fn field_group(field: Field) -> nat {
    match field {
        Field::Goto(..) | Field::NextSetUp | Field::ToDirectory | Field::Do(..) | Field::ClearDisplay | Field::Language | Field::Dialect | Field::EnableSessions | Field::DisableSessions | Field::Exit | Field::ScreenAlign => 0,
        Field::OnLine | Field::CommPorts | Field::CrtSaver | Field::CommPort | Field::Refresh | Field::PrinterAssignment | Field::Columns | Field::Controls | Field::AutoWrap | Field::Scroll | Field::LightScreen | Field::Cursor | Field::CursorStyle | Field::Status | Field::CursorBlink | Field::Pages | Field::Lines | Field::VerticalCoupling | Field::PageCoupling | Field::AutoResize => 1,
        Field::TerminalMode | Field::UdkLock | Field::UserFeatures | Field::CharacterSetMode | Field::Keypad | Field::CursorKeys | Field::NewLine | Field::Upss | Field::TerminalId | Field::Update | Field::Transmit | Field::Receive | Field::Xoff | Field::DataFormat | Field::StopBits | Field::LocalEcho | Field::ModemControl | Field::Disconnect | Field::TransmitLimit | Field::AutoAnswerback | Field::Answerback | Field::Conceal | Field::ModemHigh | Field::ModemLow => 2,
        Field::Typewriter | Field::Lock | Field::AutoRepeat | Field::Keyclick | Field::MarginBell | Field::WarningBell | Field::CharacterMode | Field::Backarrow | Field::Compose | Field::Alt | Field::LocalKey(..) | Field::BreakKey | Field::CommaKeys | Field::AngleKey | Field::TildeKey | Field::ClearTabs | Field::SetTabs8 | Field::Ruler => 3,
    }
}

fn field_group_of(field: Field) -> (r: u8)
    ensures
        r == field_group(field),
{
    match field {
        Field::Goto(..) | Field::NextSetUp | Field::ToDirectory | Field::Do(..) | Field::ClearDisplay | Field::Language | Field::Dialect | Field::EnableSessions | Field::DisableSessions | Field::Exit | Field::ScreenAlign => 0,
        Field::OnLine | Field::CommPorts | Field::CrtSaver | Field::CommPort | Field::Refresh | Field::PrinterAssignment | Field::Columns | Field::Controls | Field::AutoWrap | Field::Scroll | Field::LightScreen | Field::Cursor | Field::CursorStyle | Field::Status | Field::CursorBlink | Field::Pages | Field::Lines | Field::VerticalCoupling | Field::PageCoupling | Field::AutoResize => 1,
        Field::TerminalMode | Field::UdkLock | Field::UserFeatures | Field::CharacterSetMode | Field::Keypad | Field::CursorKeys | Field::NewLine | Field::Upss | Field::TerminalId | Field::Update | Field::Transmit | Field::Receive | Field::Xoff | Field::DataFormat | Field::StopBits | Field::LocalEcho | Field::ModemControl | Field::Disconnect | Field::TransmitLimit | Field::AutoAnswerback | Field::Answerback | Field::Conceal | Field::ModemHigh | Field::ModemLow => 2,
        Field::Typewriter | Field::Lock | Field::AutoRepeat | Field::Keyclick | Field::MarginBell | Field::WarningBell | Field::CharacterMode | Field::Backarrow | Field::Compose | Field::Alt | Field::LocalKey(..) | Field::BreakKey | Field::CommaKeys | Field::AngleKey | Field::TildeKey | Field::ClearTabs | Field::SetTabs8 | Field::Ruler => 3,
    }
}

/// Text shown for a field of the Directory.
fn label_0(field: Field, f: &Features, model: Model) -> (r: Vec<char>)
    requires
        field_ok(field),
        features_ok(f@),
        field_group(field) == 0,
    ensures
        r@ == label_text(field, f@, model),
{
    match field {
        Field::Goto(s) => lit(goto_label_of(s)),
        Field::NextSetUp => lit("To Next Set-Up"),
        Field::ToDirectory => lit("To Directory"),
        Field::Do(a) => lit(match a {
            Action::ClearComm => "Clear Comm",
            Action::ResetSession => "Reset Session",
            Action::Recall => "Recall",
            Action::Save => "Save",
            Action::Default => "Default",
        }),
        Field::ClearDisplay => lit("Clear Display"),
        Field::Language => lit("Set-Up=English"),
        Field::Dialect => lit(dialect_name_of(f.keyboard_language)),
        Field::EnableSessions => lit("Enable Sessions"),
        Field::DisableSessions => lit("Disable Sessions"),
        Field::Exit => lit("Exit"),
        Field::ScreenAlign => lit("Screen Align"),
        _ => Vec::new(),
    }
}

/// Text shown for a field of Global and Display Set-Up.
fn label_1(field: Field, f: &Features, model: Model) -> (r: Vec<char>)
    requires
        field_ok(field),
        features_ok(f@),
        field_group(field) == 1,
    ensures
        r@ == label_text(field, f@, model),
{
    match field {
        Field::OnLine => pick(f.on_line, "On Line", "Local"),
        Field::CommPorts => pick(f.two_sessions, "S1=Comm1,S2=Comm2", "S1=Comm1"),
        Field::CrtSaver => pick(f.crt_saver, "CRT Saver", "No CRT Saver"),
        Field::CommPort => pick(f.comm1_dec423, "Comm1=DEC-423", "Comm1=RS-232"),
        Field::Refresh => pick(f.refresh_60hz, "60 Hz", "70 Hz"),
        Field::PrinterAssignment => lit(
            if f.printer_session == 1 {
                "Printer Session 1"
            } else if f.printer_session == 2 {
                "Printer Session 2"
            } else {
                "Printer Shared"
            },
        ),
        Field::Columns => pick(f.columns_132, "132 Columns", "80 Columns"),
        Field::Controls => pick(f.display_controls, "Display Controls", "Interpret Controls"),
        Field::AutoWrap => pick(f.autowrap, "Auto Wrap", "No Auto Wrap"),
        Field::Scroll => lit(match f.scroll {
            Scroll::Jump => "Jump Scroll",
            Scroll::Smooth2 => "Smooth-2 Scroll",
            Scroll::Smooth4 => "Smooth-4 Scroll",
        }),
        Field::LightScreen => pick(f.light_screen, "Light Screen", "Dark Screen"),
        Field::Cursor => pick(f.cursor, "Cursor", "No Cursor"),
        Field::CursorStyle => pick(f.cursor_style.is_block(), "Block Cursor Style", "Underline Cursor Style"),
        Field::Status => lit(match f.status {
            StatusDisplay::NoDisplay => "No Status Display",
            StatusDisplay::Indicator => "Indicator Status Display",
            StatusDisplay::HostWritable => "Host Writable Status Display",
        }),
        Field::CursorBlink => pick(f.cursor_style.blinks(), "Cursor Blink", "Cursor Steady"),
        Field::Pages => {
            let mut out: Vec<char> = Vec::new();
            push_dec(&mut out, page_count_of(f, model));
            push_str(&mut out, "x");
            push_dec(&mut out, f.page_length as u64);
            push_str(&mut out, " Pages");
            out
        },
        Field::Lines => num_before(f.screen_lines as u64, " Lines/Screen"),
        Field::VerticalCoupling => pick(f.vertical_coupling, "Vertical Coupling", "No Vertical Coupling"),
        Field::PageCoupling => pick(f.page_coupling, "Page Coupling", "No Page Coupling"),
        Field::AutoResize => pick(f.auto_resize, "Auto Resize Screen", "No Auto Resize Screen"),
        _ => Vec::new(),
    }
}

/// Text shown for a field of General and Communications Set-Up.
fn label_2(field: Field, f: &Features, model: Model) -> (r: Vec<char>)
    requires
        field_ok(field),
        features_ok(f@),
        field_group(field) == 2,
    ensures
        r@ == label_text(field, f@, model),
{
    match field {
        Field::TerminalMode => match f.terminal_mode {
            TerminalMode::Vt52 => lit("VT52 Mode"),
            TerminalMode::Vt100 => lit("VT100 Mode"),
            TerminalMode::Level { level, eight_bit } => {
                let mut out = num_between("VT", level as u64, "00 Mode, ");
                push_dec(&mut out, if eight_bit { 8 } else { 7 });
                push_str(&mut out, " Bit Controls");
                out
            },
        },
        Field::UdkLock => pick(f.udk_locked, "User Defined Keys Locked", "User Defined Keys Unlocked"),
        Field::UserFeatures => pick(f.user_features_locked, "User Features Locked", "User Features Unlocked"),
        Field::CharacterSetMode => pick(f.national, "7-bit NRCS Characters", "8-bit Characters"),
        Field::Keypad => pick(f.keypad_application, "Application Keypad", "Numeric Keypad"),
        Field::CursorKeys => pick(f.cursor_keys_application, "Application Cursor Keys", "Normal Cursor Keys"),
        Field::NewLine => pick(f.new_line, "New Line", "No New Line"),
        Field::Upss => lit(match f.upss {
            Supplemental::DecSupplemental => "UPSS DEC Supplemental",
            Supplemental::IsoLatin1 => "UPSS ISO Latin-1",
        }),
        Field::TerminalId => {
            let id = f.terminal_id;
            if id == 0 {
                lit("VT100 ID")
            } else if id == 1 {
                lit("VT101 ID")
            } else if id == 2 {
                lit("VT102 ID")
            } else if id == 5 {
                lit("VT220 ID")
            } else if id == 7 {
                lit("VT320 ID")
            } else if id == 9 {
                lit("VT420 ID")
            } else {
                let name = model.setup_name();
                let mut out = str_chars(name.as_str());
                push_str(&mut out, " ID");
                out
            }
        },
        Field::Update => lit(
            if f.update == 1 {
                "Never Update"
            } else if f.update == 3 {
                "Shared Update"
            } else {
                "When Available Update"
            },
        ),
        Field::Transmit => num_after("Transmit=", f.transmit_speed as u64),
        Field::Receive => match f.receive_speed {
            None => lit("Receive=Transmit"),
            Some(s) => num_after("Receive=", s as u64),
        },
        Field::Xoff => match f.xoff {
            None => lit("No XOFF"),
            Some(x) => num_after("XOFF at ", x as u64),
        },
        Field::DataFormat => lit(data_format_name_of(f.seven_bit_data, f.parity)),
        Field::StopBits => pick(f.two_stop_bits, "2 Stop Bits", "1 Stop Bit"),
        Field::LocalEcho => pick(f.local_echo, "Local Echo", "No Local Echo"),
        Field::ModemControl => pick(f.modem_control, "Modem Control", "Data Leads Only"),
        Field::Disconnect => lit(
            if f.disconnect == 1 {
                "Disconnect, 60 ms Delay"
            } else if f.disconnect == 2 {
                "No Disconnect"
            } else {
                "Disconnect, 2 s Delay"
            },
        ),
        Field::TransmitLimit => pick(f.limited_transmit, "Limited Transmit", "Unlimited Transmit"),
        Field::AutoAnswerback => pick(f.auto_answerback, "Auto Answerback", "No Auto Answerback"),
        Field::Answerback => lit("Answerback="),
        Field::Conceal => pick(f.conceal_answerback, "Concealed", "Not Concealed"),
        Field::ModemHigh => lit("Modem High Speed = Ignore"),
        Field::ModemLow => lit("Modem Low Speed = Ignore"),
        _ => Vec::new(),
    }
}

/// Text shown for a field of Keyboard and Tab Set-Up.
#[verifier::spinoff_prover]
#[verifier::rlimit(40)]
fn label_3(field: Field, f: &Features, model: Model) -> (r: Vec<char>)
    requires
        field_ok(field),
        features_ok(f@),
        field_group(field) == 3,
    ensures
        r@ == label_text(field, f@, model),
{
    match field {
        Field::Typewriter => pick(f.data_processing_keys, "Data Processing Keys", "Typewriter Keys"),
        Field::Lock => pick(f.shift_lock, "Shift Lock", "Caps Lock"),
        Field::AutoRepeat => pick(f.auto_repeat, "Auto Repeat", "No Auto Repeat"),
        Field::Keyclick => volume_label_of("Keyclick", f.keyclick),
        Field::MarginBell => volume_label_of("Margin Bell", f.margin_bell),
        Field::WarningBell => volume_label_of("Warning Bell", f.warning_bell),
        Field::CharacterMode => pick(f.position_mode, "Position Mode", "Character Mode"),
        Field::Backarrow => pick(f.backarrow_bs, "<X] Backspace", "<X] Delete"),
        Field::Compose => lit(match f.compose {
            ComposeKey::Local => "Local Compose",
            ComposeKey::Report => "Report Compose",
            ComposeKey::Ignore => "Ignore Compose",
        }),
        Field::Alt => pick(f.report_alt, "Report Alt", "Ignore Alt"),
        Field::LocalKey(k) => local_key_label_of(k, f.local_keys[k as usize]),
        Field::BreakKey => lit(match f.break_key {
            BreakKey::Break => "F5 = Break",
            BreakKey::NoBreak => "F5 = No Break",
            BreakKey::FunctionKey => "F5 = Fkey",
            BreakKey::Ignore => "F5 = Ignore",
        }),
        Field::CommaKeys => pick(f.comma_period_same, ",, and .. Keys", ",< and .> Keys"),
        Field::AngleKey => pick(f.angle_sends_tilde, "<> Key Sends `~", "<> Key"),
        Field::TildeKey => pick(f.tilde_sends_escape, "`~ Key Sends ESC", "`~ Key"),
        Field::ClearTabs => lit("Clear all tabs"),
        Field::SetTabs8 => lit("Set 8 column tabs"),
        Field::Ruler => Vec::new(),
        _ => Vec::new(),
    }
}

/// Text shown for a field.
fn label(field: Field, f: &Features, model: Model) -> (r: Vec<char>)
    requires
        field_ok(field),
        features_ok(f@),
    ensures
        r@ == label_text(field, f@, model),
{
    let g = field_group_of(field);
    if g == 0 {
        label_0(field, f, model)
    } else if g == 1 {
        label_1(field, f, model)
    } else if g == 2 {
        label_2(field, f, model)
    } else {
        label_3(field, f, model)
    }
}


/// Page lengths a model offers, in Set-Up order.
pub open spec fn page_lengths(model: Model) -> Seq<usize> {
    if max_level(model) >= 5 {
        seq![24usize, 25, 36, 41, 42, 48, 52, 53, 72]
    } else {
        seq![24usize, 25, 36, 48, 72, 144]
    }
}

/// Lines per screen as Set-Up names them.
pub open spec fn screen_line_choices() -> Seq<usize> {
    seq![24usize, 36, 48]
}

/// DECTID codes a model offers, its own identity (10) first.
pub open spec fn terminal_ids(model: Model) -> Seq<u16> {
    if max_level(model) == 5 {
        seq![10u16, 9, 7, 5, 2, 1, 0]
    } else if max_level(model) == 4 {
        seq![10u16, 0, 1, 2, 5, 7]
    } else {
        seq![10u16]
    }
}

/// Line speeds a model offers, in Set-Up order.
pub open spec fn speeds(model: Model) -> Seq<u32> {
    if max_level(model) >= 5 {
        seq![300u32, 600, 1200, 2400, 4800, 9600, 19200, 38400, 57600, 76800, 115200]
    } else {
        seq![300u32, 600, 1200, 2400, 4800, 9600, 19200, 38400]
    }
}

/// Receive speeds: the transmit speed, then each line speed.
pub open spec fn receive_options(model: Model) -> Seq<Option<u32>> {
    seq![None] + speeds(model).map_values(|s: u32| Some(s))
}

/// Lines per screen for a page length when Auto Resize Screen is on.
pub open spec fn auto_screen_lines_spec(page_length: usize) -> usize {
    if page_length <= 25 {
        24
    } else if page_length <= 36 {
        36
    } else {
        48
    }
}

/// The character format after the one `seven` and `p` make, round to the
/// first; the first when they make none.
pub open spec fn data_format_after(seven: bool, p: Parity) -> (bool, Parity) {
    let i = position_in(data_formats(), (seven, p));
    data_formats()[if i < 0 { 0 } else { (i + 1) % 7 }]
}

/// The tab stops of a line `cols` wide, kept where the old line had them and
/// the factory ones past its end.
pub open spec fn resized_tabs(old: Seq<bool>, cols: nat) -> Seq<bool> {
    Seq::new(cols, |c: int| if c < old.len() { old[c] } else { c % 8 == 0 && c > 0 })
}

pub open spec fn scroll_after(s: Scroll) -> Scroll {
    match s {
        Scroll::Smooth2 => Scroll::Smooth4,
        Scroll::Smooth4 => Scroll::Jump,
        Scroll::Jump => Scroll::Smooth2,
    }
}

/// Cursor style with the other shape, same blinking.
pub open spec fn shape_flipped(c: CursorStyle) -> CursorStyle {
    match c {
        CursorStyle::BlinkingBlock => CursorStyle::BlinkingUnderline,
        CursorStyle::SteadyBlock => CursorStyle::SteadyUnderline,
        CursorStyle::BlinkingUnderline => CursorStyle::BlinkingBlock,
        CursorStyle::SteadyUnderline => CursorStyle::SteadyBlock,
    }
}

/// Cursor style with the other blinking, same shape.
pub open spec fn blink_flipped(c: CursorStyle) -> CursorStyle {
    match c {
        CursorStyle::BlinkingBlock => CursorStyle::SteadyBlock,
        CursorStyle::SteadyBlock => CursorStyle::BlinkingBlock,
        CursorStyle::BlinkingUnderline => CursorStyle::SteadyUnderline,
        CursorStyle::SteadyUnderline => CursorStyle::BlinkingUnderline,
    }
}

pub open spec fn status_after(s: StatusDisplay) -> StatusDisplay {
    match s {
        StatusDisplay::NoDisplay => StatusDisplay::Indicator,
        StatusDisplay::Indicator => StatusDisplay::HostWritable,
        StatusDisplay::HostWritable => StatusDisplay::NoDisplay,
    }
}

pub open spec fn upss_after(u: Supplemental) -> Supplemental {
    match u {
        Supplemental::DecSupplemental => Supplemental::IsoLatin1,
        Supplemental::IsoLatin1 => Supplemental::DecSupplemental,
    }
}

/// Keyclick and warning bell: high, low, off.
pub open spec fn loudness_after(v: Volume) -> Volume {
    match v {
        Volume::High => Volume::Low,
        Volume::Low => Volume::Off,
        Volume::Off => Volume::High,
    }
}

/// Margin bell: off, high, low.
pub open spec fn margin_bell_after(v: Volume) -> Volume {
    match v {
        Volume::Off => Volume::High,
        Volume::High => Volume::Low,
        Volume::Low => Volume::Off,
    }
}

pub open spec fn compose_after(c: ComposeKey) -> ComposeKey {
    match c {
        ComposeKey::Local => ComposeKey::Report,
        ComposeKey::Report => ComposeKey::Ignore,
        ComposeKey::Ignore => ComposeKey::Local,
    }
}

pub open spec fn key_action_after(a: LocalKeyAction) -> LocalKeyAction {
    match a {
        LocalKeyAction::Local => LocalKeyAction::SendToHost,
        LocalKeyAction::SendToHost => LocalKeyAction::Disabled,
        LocalKeyAction::Disabled => LocalKeyAction::Local,
    }
}

pub open spec fn break_key_after(b: BreakKey) -> BreakKey {
    match b {
        BreakKey::Break => BreakKey::NoBreak,
        BreakKey::NoBreak => BreakKey::FunctionKey,
        BreakKey::FunctionKey => BreakKey::Ignore,
        BreakKey::Ignore => BreakKey::Break,
    }
}

/// Whether Enter can step a field without overflow: the printer session and
/// the disconnect delay step by one from below 255.
pub open spec fn cycle_ok(field: Field, f: FeaturesView) -> bool {
    &&& field_ok(field)
    &&& (field == Field::PrinterAssignment ==> f.global.printer_session < 255)
    &&& (field == Field::Disconnect ==> f.modem.disconnect < 255)
}

/// [`cycle_spec`] for the fields of the Directory.
pub open spec fn cycle_spec_0(field: Field, f: FeaturesView, model: Model) -> Option<FeaturesView> {
    let level = max_level(model);
    match field {
        Field::Dialect => {
            let k = next_in(dialects(), f.layout.keyboard_language);
            Some(FeaturesView {
                layout: LayoutView { keyboard_language: k, ..f.layout },
                general: GeneralView { national: if k is None { false } else { f.general.national }, ..f.general },
                ..f
            })
        },
        _ => None,
    }
}

/// [`cycle_spec`] for the fields of Global and Display Set-Up.
pub open spec fn cycle_spec_1(field: Field, f: FeaturesView, model: Model) -> Option<FeaturesView> {
    let level = max_level(model);
    match field {
        Field::OnLine => Some(FeaturesView { global: GlobalView { on_line: !f.global.on_line, ..f.global }, ..f }),
        Field::CommPorts => Some(FeaturesView { global: GlobalView { two_sessions: !f.global.two_sessions, ..f.global }, ..f }),
        Field::CrtSaver => Some(FeaturesView { global: GlobalView { crt_saver: !f.global.crt_saver, ..f.global }, ..f }),
        Field::CommPort => Some(FeaturesView { global: GlobalView { comm1_dec423: !f.global.comm1_dec423, ..f.global }, ..f }),
        Field::Refresh => Some(FeaturesView { global: GlobalView { refresh_60hz: !f.global.refresh_60hz, ..f.global }, ..f }),
        Field::PrinterAssignment => Some(FeaturesView { global: GlobalView { printer_session: ((f.global.printer_session + 1) % 3) as u8, ..f.global }, ..f }),
        Field::Columns => {
            let wide = !f.display.columns_132;
            Some(FeaturesView {
                display: DisplayView { columns_132: wide, ..f.display },
                layout: LayoutView { tabs: resized_tabs(f.layout.tabs, if wide { 132 } else { 80 }), ..f.layout },
                ..f
            })
        },
        Field::Controls => Some(FeaturesView { display: DisplayView { display_controls: !f.display.display_controls, ..f.display }, ..f }),
        Field::AutoWrap => Some(FeaturesView { display: DisplayView { autowrap: !f.display.autowrap, ..f.display }, ..f }),
        Field::Scroll => Some(FeaturesView { display: DisplayView { scroll: scroll_after(f.display.scroll), ..f.display }, ..f }),
        Field::LightScreen => Some(FeaturesView { display: DisplayView { light_screen: !f.display.light_screen, ..f.display }, ..f }),
        Field::Cursor => Some(FeaturesView { display: DisplayView { cursor: !f.display.cursor, ..f.display }, ..f }),
        Field::CursorStyle => Some(FeaturesView { display: DisplayView { cursor_style: shape_flipped(f.display.cursor_style), ..f.display }, ..f }),
        Field::Status => if level >= 3 {
            Some(FeaturesView { display: DisplayView { status: status_after(f.display.status), ..f.display }, ..f })
        } else {
            None
        },
        Field::CursorBlink => Some(FeaturesView { display: DisplayView { cursor_style: blink_flipped(f.display.cursor_style), ..f.display }, ..f }),
        Field::Pages => if level >= 4 {
            let pl = next_in(page_lengths(model), f.display.page_length);
            Some(FeaturesView {
                display: DisplayView { page_length: pl, ..f.display },
                screen: ScreenView {
                    screen_lines: if f.screen.auto_resize { auto_screen_lines_spec(pl) } else { f.screen.screen_lines },
                    ..f.screen
                },
                ..f
            })
        } else {
            None
        },
        Field::Lines => if level >= 4 {
            Some(FeaturesView { screen: ScreenView { screen_lines: next_in(screen_line_choices(), f.screen.screen_lines), ..f.screen }, ..f })
        } else {
            None
        },
        Field::VerticalCoupling => if level >= 4 {
            Some(FeaturesView { screen: ScreenView { vertical_coupling: !f.screen.vertical_coupling, ..f.screen }, ..f })
        } else {
            None
        },
        Field::PageCoupling => if level >= 4 {
            Some(FeaturesView { screen: ScreenView { page_coupling: !f.screen.page_coupling, ..f.screen }, ..f })
        } else {
            None
        },
        Field::AutoResize => if level >= 4 {
            Some(FeaturesView { screen: ScreenView { auto_resize: !f.screen.auto_resize, ..f.screen }, ..f })
        } else {
            None
        },
        _ => None,
    }
}

/// [`cycle_spec`] for the fields of General and Communications Set-Up.
pub open spec fn cycle_spec_2(field: Field, f: FeaturesView, model: Model) -> Option<FeaturesView> {
    let level = max_level(model);
    match field {
        Field::TerminalMode => Some(FeaturesView { general: GeneralView { terminal_mode: next_in(terminal_modes(model), f.general.terminal_mode), ..f.general }, ..f }),
        Field::UdkLock => if level >= 2 {
            Some(FeaturesView { general: GeneralView { udk_locked: !f.general.udk_locked, ..f.general }, ..f })
        } else {
            None
        },
        Field::UserFeatures => Some(FeaturesView { general: GeneralView { user_features_locked: !f.general.user_features_locked, ..f.general }, ..f }),
        Field::CharacterSetMode => if level >= 2 && f.layout.keyboard_language is Some {
            Some(FeaturesView { general: GeneralView { national: !f.general.national, ..f.general }, ..f })
        } else {
            None
        },
        Field::Keypad => Some(FeaturesView { general: GeneralView { keypad_application: !f.general.keypad_application, ..f.general }, ..f }),
        Field::CursorKeys => Some(FeaturesView { general: GeneralView { cursor_keys_application: !f.general.cursor_keys_application, ..f.general }, ..f }),
        Field::NewLine => Some(FeaturesView { general: GeneralView { new_line: !f.general.new_line, ..f.general }, ..f }),
        Field::Upss => if level >= 3 {
            Some(FeaturesView { general: GeneralView { upss: upss_after(f.general.upss), ..f.general }, ..f })
        } else {
            None
        },
        Field::TerminalId => if level >= 4 {
            Some(FeaturesView { general: GeneralView { terminal_id: next_in(terminal_ids(model), f.general.terminal_id), ..f.general }, ..f })
        } else {
            None
        },
        Field::Update => Some(FeaturesView { general: GeneralView { update: next_in(seq![2u16, 3, 1], f.general.update), ..f.general }, ..f }),
        Field::Transmit => Some(FeaturesView { line: LineView { transmit_speed: next_in(speeds(model), f.line.transmit_speed), ..f.line }, ..f }),
        Field::Receive => Some(FeaturesView { line: LineView { receive_speed: next_in(receive_options(model), f.line.receive_speed), ..f.line }, ..f }),
        Field::Xoff => Some(FeaturesView { line: LineView { xoff: next_in(seq![Some(64u16), Some(128u16), None], f.line.xoff), ..f.line }, ..f }),
        Field::DataFormat => {
            let d = data_format_after(f.line.seven_bit_data, f.line.parity);
            Some(FeaturesView { line: LineView { seven_bit_data: d.0, parity: d.1, ..f.line }, ..f })
        },
        Field::StopBits => Some(FeaturesView { line: LineView { two_stop_bits: !f.line.two_stop_bits, ..f.line }, ..f }),
        Field::LocalEcho => Some(FeaturesView { modem: ModemView { local_echo: !f.modem.local_echo, ..f.modem }, ..f }),
        Field::ModemControl => Some(FeaturesView { modem: ModemView { modem_control: !f.modem.modem_control, ..f.modem }, ..f }),
        Field::Disconnect => Some(FeaturesView { modem: ModemView { disconnect: ((f.modem.disconnect + 1) % 3) as u8, ..f.modem }, ..f }),
        Field::TransmitLimit => Some(FeaturesView { modem: ModemView { limited_transmit: !f.modem.limited_transmit, ..f.modem }, ..f }),
        Field::AutoAnswerback => Some(FeaturesView { modem: ModemView { auto_answerback: !f.modem.auto_answerback, ..f.modem }, ..f }),
        Field::Conceal => if !f.modem.conceal_answerback {
            Some(FeaturesView { modem: ModemView { conceal_answerback: true, ..f.modem }, ..f })
        } else {
            None
        },
        _ => None,
    }
}

/// [`cycle_spec`] for the fields of Keyboard and Tab Set-Up.
pub open spec fn cycle_spec_3(field: Field, f: FeaturesView, model: Model) -> Option<FeaturesView> {
    let level = max_level(model);
    match field {
        Field::Typewriter => Some(FeaturesView { keys: KeysView { data_processing_keys: !f.keys.data_processing_keys, ..f.keys }, ..f }),
        Field::Lock => Some(FeaturesView { keys: KeysView { shift_lock: !f.keys.shift_lock, ..f.keys }, ..f }),
        Field::AutoRepeat => Some(FeaturesView { keys: KeysView { auto_repeat: !f.keys.auto_repeat, ..f.keys }, ..f }),
        Field::Keyclick => Some(FeaturesView { keys: KeysView { keyclick: loudness_after(f.keys.keyclick), ..f.keys }, ..f }),
        Field::MarginBell => Some(FeaturesView { keys: KeysView { margin_bell: margin_bell_after(f.keys.margin_bell), ..f.keys }, ..f }),
        Field::WarningBell => Some(FeaturesView { keys: KeysView { warning_bell: loudness_after(f.keys.warning_bell), ..f.keys }, ..f }),
        Field::CharacterMode => Some(FeaturesView { keys: KeysView { position_mode: !f.keys.position_mode, ..f.keys }, ..f }),
        Field::Backarrow => Some(FeaturesView { keys: KeysView { backarrow_bs: !f.keys.backarrow_bs, ..f.keys }, ..f }),
        Field::Compose => Some(FeaturesView { keys: KeysView { compose: compose_after(f.keys.compose), ..f.keys }, ..f }),
        Field::Alt => Some(FeaturesView { keys: KeysView { report_alt: !f.keys.report_alt, ..f.keys }, ..f }),
        Field::LocalKey(k) => Some(FeaturesView {
            layout: LayoutView {
                local_keys: f.layout.local_keys.update(k as int, key_action_after(f.layout.local_keys[k as int])),
                ..f.layout
            },
            ..f
        }),
        Field::BreakKey => Some(FeaturesView { layout: LayoutView { break_key: break_key_after(f.layout.break_key), ..f.layout }, ..f }),
        Field::CommaKeys => Some(FeaturesView { layout: LayoutView { comma_period_same: !f.layout.comma_period_same, ..f.layout }, ..f }),
        Field::AngleKey => Some(FeaturesView { layout: LayoutView { angle_sends_tilde: !f.layout.angle_sends_tilde, ..f.layout }, ..f }),
        Field::TildeKey => Some(FeaturesView { layout: LayoutView { tilde_sends_escape: !f.layout.tilde_sends_escape, ..f.layout }, ..f }),
        _ => None,
    }
}

/// The features after Enter steps `field` to its next setting, or `None`
/// for a field that has none here (on this model, or in this state).
#[verifier::opaque]
pub open spec fn cycle_spec(field: Field, f: FeaturesView, model: Model) -> Option<FeaturesView> {
    let g = field_group(field);
    if g == 0 {
        cycle_spec_0(field, f, model)
    } else if g == 1 {
        cycle_spec_1(field, f, model)
    } else if g == 2 {
        cycle_spec_2(field, f, model)
    } else {
        cycle_spec_3(field, f, model)
    }
}

/// The entry after `cur` in `options`, as [`next_in`] says.
fn next_usize(options: &Vec<usize>, cur: usize) -> (r: usize)
    requires
        options@.len() > 0,
    ensures
        r == next_in(options@, cur),
{
    let mut i: usize = 0;
    while i < options.len()
        invariant
            i <= options@.len(),
            forall|j: int| 0 <= j < i ==> options@[j] != cur,
        decreases options@.len() - i,
    {
        if options[i] == cur {
            proof {
                lemma_position_in(options@, cur, i as int);
                reveal(next_in);
            }
            return options[(i + 1) % options.len()];
        }
        i = i + 1;
    }
    proof {
        lemma_position_in(options@, cur, options@.len() as int);
        reveal(next_in);
    }
    options[1 % options.len()]
}

/// The entry after `cur` in `options`, as [`next_in`] says.
fn next_u16(options: &Vec<u16>, cur: u16) -> (r: u16)
    requires
        options@.len() > 0,
    ensures
        r == next_in(options@, cur),
{
    let mut i: usize = 0;
    while i < options.len()
        invariant
            i <= options@.len(),
            forall|j: int| 0 <= j < i ==> options@[j] != cur,
        decreases options@.len() - i,
    {
        if options[i] == cur {
            proof {
                lemma_position_in(options@, cur, i as int);
                reveal(next_in);
            }
            return options[(i + 1) % options.len()];
        }
        i = i + 1;
    }
    proof {
        lemma_position_in(options@, cur, options@.len() as int);
        reveal(next_in);
    }
    options[1 % options.len()]
}

/// The entry after `cur` in `options`, as [`next_in`] says.
fn next_u32(options: &Vec<u32>, cur: u32) -> (r: u32)
    requires
        options@.len() > 0,
    ensures
        r == next_in(options@, cur),
{
    let mut i: usize = 0;
    while i < options.len()
        invariant
            i <= options@.len(),
            forall|j: int| 0 <= j < i ==> options@[j] != cur,
        decreases options@.len() - i,
    {
        if options[i] == cur {
            proof {
                lemma_position_in(options@, cur, i as int);
                reveal(next_in);
            }
            return options[(i + 1) % options.len()];
        }
        i = i + 1;
    }
    proof {
        lemma_position_in(options@, cur, options@.len() as int);
        reveal(next_in);
    }
    options[1 % options.len()]
}

fn same_opt_u32(a: Option<u32>, b: Option<u32>) -> (r: bool)
    ensures
        r == (a == b),
{
    match (a, b) {
        (Some(x), Some(y)) => x == y,
        (None, None) => true,
        _ => false,
    }
}

/// The entry after `cur` in `options`, as [`next_in`] says.
fn next_opt_u32(options: &Vec<Option<u32>>, cur: Option<u32>) -> (r: Option<u32>)
    requires
        options@.len() > 0,
    ensures
        r == next_in(options@, cur),
{
    let mut i: usize = 0;
    while i < options.len()
        invariant
            i <= options@.len(),
            forall|j: int| 0 <= j < i ==> options@[j] != cur,
        decreases options@.len() - i,
    {
        if same_opt_u32(options[i], cur) {
            proof {
                lemma_position_in(options@, cur, i as int);
                reveal(next_in);
            }
            return options[(i + 1) % options.len()];
        }
        i = i + 1;
    }
    proof {
        lemma_position_in(options@, cur, options@.len() as int);
        reveal(next_in);
    }
    options[1 % options.len()]
}

fn same_opt_u16(a: Option<u16>, b: Option<u16>) -> (r: bool)
    ensures
        r == (a == b),
{
    match (a, b) {
        (Some(x), Some(y)) => x == y,
        (None, None) => true,
        _ => false,
    }
}

/// The entry after `cur` in `options`, as [`next_in`] says.
fn next_opt_u16(options: &Vec<Option<u16>>, cur: Option<u16>) -> (r: Option<u16>)
    requires
        options@.len() > 0,
    ensures
        r == next_in(options@, cur),
{
    let mut i: usize = 0;
    while i < options.len()
        invariant
            i <= options@.len(),
            forall|j: int| 0 <= j < i ==> options@[j] != cur,
        decreases options@.len() - i,
    {
        if same_opt_u16(options[i], cur) {
            proof {
                lemma_position_in(options@, cur, i as int);
                reveal(next_in);
            }
            return options[(i + 1) % options.len()];
        }
        i = i + 1;
    }
    proof {
        lemma_position_in(options@, cur, options@.len() as int);
        reveal(next_in);
    }
    options[1 % options.len()]
}

/// The entry after `cur` in `options`, as [`next_in`] says.
fn next_mode(options: &Vec<TerminalMode>, cur: TerminalMode) -> (r: TerminalMode)
    requires
        options@.len() > 0,
    ensures
        r == next_in(options@, cur),
{
    let mut i: usize = 0;
    while i < options.len()
        invariant
            i <= options@.len(),
            forall|j: int| 0 <= j < i ==> options@[j] != cur,
        decreases options@.len() - i,
    {
        if options[i] == cur {
            proof {
                lemma_position_in(options@, cur, i as int);
                reveal(next_in);
            }
            return options[(i + 1) % options.len()];
        }
        i = i + 1;
    }
    proof {
        lemma_position_in(options@, cur, options@.len() as int);
        reveal(next_in);
    }
    options[1 % options.len()]
}

fn same_dialect(a: Option<Nrc>, b: Option<Nrc>) -> (r: bool)
    ensures
        r == (a == b),
{
    match (a, b) {
        (Some(x), Some(y)) => x == y,
        (None, None) => true,
        _ => false,
    }
}

/// The entry after `cur` in `options`, as [`next_in`] says.
fn next_dialect(options: &Vec<Option<Nrc>>, cur: Option<Nrc>) -> (r: Option<Nrc>)
    requires
        options@.len() > 0,
    ensures
        r == next_in(options@, cur),
{
    let mut i: usize = 0;
    while i < options.len()
        invariant
            i <= options@.len(),
            forall|j: int| 0 <= j < i ==> options@[j] != cur,
        decreases options@.len() - i,
    {
        if same_dialect(options[i], cur) {
            proof {
                lemma_position_in(options@, cur, i as int);
                reveal(next_in);
            }
            return options[(i + 1) % options.len()];
        }
        i = i + 1;
    }
    proof {
        lemma_position_in(options@, cur, options@.len() as int);
        reveal(next_in);
    }
    options[1 % options.len()]
}


fn page_lengths_of(model: Model) -> (r: Vec<usize>)
    ensures
        r@ == page_lengths(model),
{
    let mut v: Vec<usize> = Vec::new();
    if model.max_level() >= 5 {
        v.push(24);
        v.push(25);
        v.push(36);
        v.push(41);
        v.push(42);
        v.push(48);
        v.push(52);
        v.push(53);
        v.push(72);
    } else {
        v.push(24);
        v.push(25);
        v.push(36);
        v.push(48);
        v.push(72);
        v.push(144);
    }
    assert(v@ =~= page_lengths(model));
    v
}

fn screen_line_choices_of() -> (r: Vec<usize>)
    ensures
        r@ == screen_line_choices(),
{
    let mut v: Vec<usize> = Vec::new();
    v.push(24);
    v.push(36);
    v.push(48);
    assert(v@ =~= screen_line_choices());
    v
}

fn terminal_ids_of(model: Model) -> (r: Vec<u16>)
    ensures
        r@ == terminal_ids(model),
{
    let mut v: Vec<u16> = Vec::new();
    let level = model.max_level();
    if level == 5 {
        v.push(10);
        v.push(9);
        v.push(7);
        v.push(5);
        v.push(2);
        v.push(1);
        v.push(0);
    } else if level == 4 {
        v.push(10);
        v.push(0);
        v.push(1);
        v.push(2);
        v.push(5);
        v.push(7);
    } else {
        v.push(10);
    }
    assert(v@ =~= terminal_ids(model));
    v
}

fn speeds_of(model: Model) -> (r: Vec<u32>)
    ensures
        r@ == speeds(model),
{
    let mut v: Vec<u32> = Vec::new();
    v.push(300);
    v.push(600);
    v.push(1200);
    v.push(2400);
    v.push(4800);
    v.push(9600);
    v.push(19200);
    v.push(38400);
    if model.max_level() >= 5 {
        v.push(57600);
        v.push(76800);
        v.push(115200);
    }
    assert(v@ =~= speeds(model));
    v
}

fn receive_options_of(model: Model) -> (r: Vec<Option<u32>>)
    ensures
        r@ == receive_options(model),
{
    let s = speeds_of(model);
    let mut v: Vec<Option<u32>> = Vec::new();
    v.push(None);
    let mut i: usize = 0;
    while i < s.len()
        invariant
            i <= s@.len(),
            v@ == seq![None] + s@.subrange(0, i as int).map_values(|x: u32| Some(x)),
        decreases s@.len() - i,
    {
        v.push(Some(s[i]));
        i = i + 1;
        assert(v@ =~= seq![None] + s@.subrange(0, i as int).map_values(|x: u32| Some(x)));
    }
    assert(s@.subrange(0, i as int) =~= s@);
    v
}

fn dialects_of() -> (r: Vec<Option<Nrc>>)
    ensures
        r@ == dialects(),
{
    let mut v: Vec<Option<Nrc>> = Vec::new();
    v.push(None);
    v.push(Some(Nrc::British));
    v.push(Some(Nrc::Dutch));
    v.push(Some(Nrc::Finnish));
    v.push(Some(Nrc::French));
    v.push(Some(Nrc::FrenchCanadian));
    v.push(Some(Nrc::German));
    v.push(Some(Nrc::Italian));
    v.push(Some(Nrc::NorwegianDanish));
    v.push(Some(Nrc::Portuguese));
    v.push(Some(Nrc::Spanish));
    v.push(Some(Nrc::Swedish));
    v.push(Some(Nrc::Swiss));
    assert(v@ =~= dialects());
    v
}

fn data_format_after_of(seven: bool, p: Parity) -> (r: (bool, Parity))
    ensures
        r == data_format_after(seven, p),
{
    let mut v: Vec<(bool, Parity)> = Vec::new();
    v.push((false, Parity::NoParity));
    v.push((false, Parity::Even));
    v.push((false, Parity::Odd));
    v.push((true, Parity::Even));
    v.push((true, Parity::Odd));
    v.push((true, Parity::Mark));
    v.push((true, Parity::Space));
    assert(v@ =~= data_formats());
    let mut i: usize = 0;
    while i < v.len()
        invariant
            i <= v@.len(),
            v@ == data_formats(),
            forall|j: int| 0 <= j < i ==> v@[j] != (seven, p),
        decreases v@.len() - i,
    {
        if v[i].0 == seven && v[i].1 == p {
            proof {
                lemma_position_in(v@, (seven, p), i as int);
            }
            return v[(i + 1) % 7];
        }
        i = i + 1;
    }
    proof {
        lemma_position_in(v@, (seven, p), v@.len() as int);
    }
    v[0]
}

fn resized_tabs_of(old: &Vec<bool>, cols: usize) -> (r: Vec<bool>)
    ensures
        r@ == resized_tabs(old@, cols as nat),
{
    let mut v: Vec<bool> = Vec::new();
    let mut c: usize = 0;
    while c < cols
        invariant
            c <= cols,
            v@ == resized_tabs(old@, c as nat),
        decreases cols - c,
    {
        v.push(if c < old.len() { old[c] } else { c % 8 == 0 && c > 0 });
        c = c + 1;
        assert(v@ =~= resized_tabs(old@, c as nat));
    }
    v
}

/// Lines per screen for a page length when Auto Resize Screen is on.
pub fn auto_screen_lines(page_length: usize) -> (r: usize)
    ensures
        r == auto_screen_lines_spec(page_length),
{
    if page_length <= 25 {
        24
    } else if page_length <= 36 {
        36
    } else {
        48
    }
}

/// Enter on `Dialect`.
fn step_dialect(rd: Reading, model: Model) -> (res: (bool, Reading))
    requires
        cycle_ok(Field::Dialect, rd.view()),
    ensures
        match cycle_spec(Field::Dialect, rd.view(), model) {
            Some(g) => res.0 && res.1.view() == g,
            None => !res.0 && res.1.view() == rd.view(),
        },
{
    reveal(cycle_spec);
    let mut rd = rd;
    let langs = dialects_of();
    let k = next_dialect(&langs, rd.layout.keyboard_language);
    let national = if k.is_none() { false } else { rd.general.national };
    rd.layout.keyboard_language = k;
    rd.general.national = national;
    (true, rd)
}

/// Enter on `OnLine`.
fn step_on_line(rd: Reading, model: Model) -> (res: (bool, Reading))
    requires
        cycle_ok(Field::OnLine, rd.view()),
    ensures
        match cycle_spec(Field::OnLine, rd.view(), model) {
            Some(g) => res.0 && res.1.view() == g,
            None => !res.0 && res.1.view() == rd.view(),
        },
{
    reveal(cycle_spec);
    let mut rd = rd;
    rd.global.on_line = !rd.global.on_line;
    (true, rd)
}

/// Enter on `CommPorts`.
fn step_two_sessions(rd: Reading, model: Model) -> (res: (bool, Reading))
    requires
        cycle_ok(Field::CommPorts, rd.view()),
    ensures
        match cycle_spec(Field::CommPorts, rd.view(), model) {
            Some(g) => res.0 && res.1.view() == g,
            None => !res.0 && res.1.view() == rd.view(),
        },
{
    reveal(cycle_spec);
    let mut rd = rd;
    rd.global.two_sessions = !rd.global.two_sessions;
    (true, rd)
}

/// Enter on `CrtSaver`.
fn step_crt_saver(rd: Reading, model: Model) -> (res: (bool, Reading))
    requires
        cycle_ok(Field::CrtSaver, rd.view()),
    ensures
        match cycle_spec(Field::CrtSaver, rd.view(), model) {
            Some(g) => res.0 && res.1.view() == g,
            None => !res.0 && res.1.view() == rd.view(),
        },
{
    reveal(cycle_spec);
    let mut rd = rd;
    rd.global.crt_saver = !rd.global.crt_saver;
    (true, rd)
}

/// Enter on `CommPort`.
fn step_comm1_dec423(rd: Reading, model: Model) -> (res: (bool, Reading))
    requires
        cycle_ok(Field::CommPort, rd.view()),
    ensures
        match cycle_spec(Field::CommPort, rd.view(), model) {
            Some(g) => res.0 && res.1.view() == g,
            None => !res.0 && res.1.view() == rd.view(),
        },
{
    reveal(cycle_spec);
    let mut rd = rd;
    rd.global.comm1_dec423 = !rd.global.comm1_dec423;
    (true, rd)
}

/// Enter on `Refresh`.
fn step_refresh_60hz(rd: Reading, model: Model) -> (res: (bool, Reading))
    requires
        cycle_ok(Field::Refresh, rd.view()),
    ensures
        match cycle_spec(Field::Refresh, rd.view(), model) {
            Some(g) => res.0 && res.1.view() == g,
            None => !res.0 && res.1.view() == rd.view(),
        },
{
    reveal(cycle_spec);
    let mut rd = rd;
    rd.global.refresh_60hz = !rd.global.refresh_60hz;
    (true, rd)
}

/// Enter on `PrinterAssignment`.
fn step_printer_session(rd: Reading, model: Model) -> (res: (bool, Reading))
    requires
        cycle_ok(Field::PrinterAssignment, rd.view()),
    ensures
        match cycle_spec(Field::PrinterAssignment, rd.view(), model) {
            Some(g) => res.0 && res.1.view() == g,
            None => !res.0 && res.1.view() == rd.view(),
        },
{
    reveal(cycle_spec);
    let mut rd = rd;
    let v = (rd.global.printer_session + 1) % 3;
    rd.global.printer_session = v;
    (true, rd)
}

/// Enter on `Columns`.
fn step_columns(rd: Reading, model: Model) -> (res: (bool, Reading))
    requires
        cycle_ok(Field::Columns, rd.view()),
    ensures
        match cycle_spec(Field::Columns, rd.view(), model) {
            Some(g) => res.0 && res.1.view() == g,
            None => !res.0 && res.1.view() == rd.view(),
        },
{
    reveal(cycle_spec);
    let mut rd = rd;
    let wide = !rd.display.columns_132;
    let cols: usize = if wide { 132 } else { 80 };
    let tabs = resized_tabs_of(&rd.layout.tabs, cols);
    rd.display.columns_132 = wide;
    rd.layout.tabs = tabs;
    (true, rd)
}

/// Enter on `Controls`.
fn step_display_controls(rd: Reading, model: Model) -> (res: (bool, Reading))
    requires
        cycle_ok(Field::Controls, rd.view()),
    ensures
        match cycle_spec(Field::Controls, rd.view(), model) {
            Some(g) => res.0 && res.1.view() == g,
            None => !res.0 && res.1.view() == rd.view(),
        },
{
    reveal(cycle_spec);
    let mut rd = rd;
    rd.display.display_controls = !rd.display.display_controls;
    (true, rd)
}

/// Enter on `AutoWrap`.
fn step_autowrap(rd: Reading, model: Model) -> (res: (bool, Reading))
    requires
        cycle_ok(Field::AutoWrap, rd.view()),
    ensures
        match cycle_spec(Field::AutoWrap, rd.view(), model) {
            Some(g) => res.0 && res.1.view() == g,
            None => !res.0 && res.1.view() == rd.view(),
        },
{
    reveal(cycle_spec);
    let mut rd = rd;
    rd.display.autowrap = !rd.display.autowrap;
    (true, rd)
}

/// Enter on `Scroll`.
fn step_scroll(rd: Reading, model: Model) -> (res: (bool, Reading))
    requires
        cycle_ok(Field::Scroll, rd.view()),
    ensures
        match cycle_spec(Field::Scroll, rd.view(), model) {
            Some(g) => res.0 && res.1.view() == g,
            None => !res.0 && res.1.view() == rd.view(),
        },
{
    reveal(cycle_spec);
    let mut rd = rd;
    let v = match rd.display.scroll {
        Scroll::Smooth2 => Scroll::Smooth4,
        Scroll::Smooth4 => Scroll::Jump,
        Scroll::Jump => Scroll::Smooth2,
    };
    rd.display.scroll = v;
    (true, rd)
}

/// Enter on `LightScreen`.
fn step_light_screen(rd: Reading, model: Model) -> (res: (bool, Reading))
    requires
        cycle_ok(Field::LightScreen, rd.view()),
    ensures
        match cycle_spec(Field::LightScreen, rd.view(), model) {
            Some(g) => res.0 && res.1.view() == g,
            None => !res.0 && res.1.view() == rd.view(),
        },
{
    reveal(cycle_spec);
    let mut rd = rd;
    rd.display.light_screen = !rd.display.light_screen;
    (true, rd)
}

/// Enter on `Cursor`.
fn step_cursor(rd: Reading, model: Model) -> (res: (bool, Reading))
    requires
        cycle_ok(Field::Cursor, rd.view()),
    ensures
        match cycle_spec(Field::Cursor, rd.view(), model) {
            Some(g) => res.0 && res.1.view() == g,
            None => !res.0 && res.1.view() == rd.view(),
        },
{
    reveal(cycle_spec);
    let mut rd = rd;
    rd.display.cursor = !rd.display.cursor;
    (true, rd)
}

/// Enter on `CursorStyle`.
fn step_cursor_shape(rd: Reading, model: Model) -> (res: (bool, Reading))
    requires
        cycle_ok(Field::CursorStyle, rd.view()),
    ensures
        match cycle_spec(Field::CursorStyle, rd.view(), model) {
            Some(g) => res.0 && res.1.view() == g,
            None => !res.0 && res.1.view() == rd.view(),
        },
{
    reveal(cycle_spec);
    let mut rd = rd;
    let v = match rd.display.cursor_style {
        CursorStyle::BlinkingBlock => CursorStyle::BlinkingUnderline,
        CursorStyle::SteadyBlock => CursorStyle::SteadyUnderline,
        CursorStyle::BlinkingUnderline => CursorStyle::BlinkingBlock,
        CursorStyle::SteadyUnderline => CursorStyle::SteadyBlock,
    };
    rd.display.cursor_style = v;
    (true, rd)
}

/// Enter on `Status`.
fn step_status(rd: Reading, model: Model) -> (res: (bool, Reading))
    requires
        cycle_ok(Field::Status, rd.view()),
    ensures
        match cycle_spec(Field::Status, rd.view(), model) {
            Some(g) => res.0 && res.1.view() == g,
            None => !res.0 && res.1.view() == rd.view(),
        },
{
    reveal(cycle_spec);
    let mut rd = rd;
    if !(model.has_status_line()) {
        return (false, rd);
    }
    let v = match rd.display.status {
        StatusDisplay::NoDisplay => StatusDisplay::Indicator,
        StatusDisplay::Indicator => StatusDisplay::HostWritable,
        StatusDisplay::HostWritable => StatusDisplay::NoDisplay,
    };
    rd.display.status = v;
    (true, rd)
}

/// Enter on `CursorBlink`.
fn step_cursor_blink(rd: Reading, model: Model) -> (res: (bool, Reading))
    requires
        cycle_ok(Field::CursorBlink, rd.view()),
    ensures
        match cycle_spec(Field::CursorBlink, rd.view(), model) {
            Some(g) => res.0 && res.1.view() == g,
            None => !res.0 && res.1.view() == rd.view(),
        },
{
    reveal(cycle_spec);
    let mut rd = rd;
    let v = match rd.display.cursor_style {
        CursorStyle::BlinkingBlock => CursorStyle::SteadyBlock,
        CursorStyle::SteadyBlock => CursorStyle::BlinkingBlock,
        CursorStyle::BlinkingUnderline => CursorStyle::SteadyUnderline,
        CursorStyle::SteadyUnderline => CursorStyle::BlinkingUnderline,
    };
    rd.display.cursor_style = v;
    (true, rd)
}

/// Enter on `Pages`.
fn step_pages(rd: Reading, model: Model) -> (res: (bool, Reading))
    requires
        cycle_ok(Field::Pages, rd.view()),
    ensures
        match cycle_spec(Field::Pages, rd.view(), model) {
            Some(g) => res.0 && res.1.view() == g,
            None => !res.0 && res.1.view() == rd.view(),
        },
{
    reveal(cycle_spec);
    let mut rd = rd;
    if !(model.max_level() >= 4) {
        return (false, rd);
    }
    let lengths = page_lengths_of(model);
    let pl = next_usize(&lengths, rd.display.page_length);
    let sl = if rd.screen.auto_resize { auto_screen_lines(pl) } else { rd.screen.screen_lines };
    rd.display.page_length = pl;
    rd.screen.screen_lines = sl;
    (true, rd)
}

/// Enter on `Lines`.
fn step_lines(rd: Reading, model: Model) -> (res: (bool, Reading))
    requires
        cycle_ok(Field::Lines, rd.view()),
    ensures
        match cycle_spec(Field::Lines, rd.view(), model) {
            Some(g) => res.0 && res.1.view() == g,
            None => !res.0 && res.1.view() == rd.view(),
        },
{
    reveal(cycle_spec);
    let mut rd = rd;
    if !(model.max_level() >= 4) {
        return (false, rd);
    }
    let choices = screen_line_choices_of();
    let v = next_usize(&choices, rd.screen.screen_lines);
    rd.screen.screen_lines = v;
    (true, rd)
}

/// Enter on `VerticalCoupling`.
fn step_vertical_coupling(rd: Reading, model: Model) -> (res: (bool, Reading))
    requires
        cycle_ok(Field::VerticalCoupling, rd.view()),
    ensures
        match cycle_spec(Field::VerticalCoupling, rd.view(), model) {
            Some(g) => res.0 && res.1.view() == g,
            None => !res.0 && res.1.view() == rd.view(),
        },
{
    reveal(cycle_spec);
    let mut rd = rd;
    if !(model.max_level() >= 4) {
        return (false, rd);
    }
    rd.screen.vertical_coupling = !rd.screen.vertical_coupling;
    (true, rd)
}

/// Enter on `PageCoupling`.
fn step_page_coupling(rd: Reading, model: Model) -> (res: (bool, Reading))
    requires
        cycle_ok(Field::PageCoupling, rd.view()),
    ensures
        match cycle_spec(Field::PageCoupling, rd.view(), model) {
            Some(g) => res.0 && res.1.view() == g,
            None => !res.0 && res.1.view() == rd.view(),
        },
{
    reveal(cycle_spec);
    let mut rd = rd;
    if !(model.max_level() >= 4) {
        return (false, rd);
    }
    rd.screen.page_coupling = !rd.screen.page_coupling;
    (true, rd)
}

/// Enter on `AutoResize`.
fn step_auto_resize(rd: Reading, model: Model) -> (res: (bool, Reading))
    requires
        cycle_ok(Field::AutoResize, rd.view()),
    ensures
        match cycle_spec(Field::AutoResize, rd.view(), model) {
            Some(g) => res.0 && res.1.view() == g,
            None => !res.0 && res.1.view() == rd.view(),
        },
{
    reveal(cycle_spec);
    let mut rd = rd;
    if !(model.max_level() >= 4) {
        return (false, rd);
    }
    rd.screen.auto_resize = !rd.screen.auto_resize;
    (true, rd)
}

/// Enter on `TerminalMode`.
fn step_terminal_mode(rd: Reading, model: Model) -> (res: (bool, Reading))
    requires
        cycle_ok(Field::TerminalMode, rd.view()),
    ensures
        match cycle_spec(Field::TerminalMode, rd.view(), model) {
            Some(g) => res.0 && res.1.view() == g,
            None => !res.0 && res.1.view() == rd.view(),
        },
{
    reveal(cycle_spec);
    let mut rd = rd;
    let modes = crate::setup::read::terminal_modes_of(model);
    proof {
        crate::setup::read::lemma_level_modes_len(max_level(model));
    }
    let v = next_mode(&modes, rd.general.terminal_mode);
    rd.general.terminal_mode = v;
    (true, rd)
}

/// Enter on `UdkLock`.
fn step_udk_locked(rd: Reading, model: Model) -> (res: (bool, Reading))
    requires
        cycle_ok(Field::UdkLock, rd.view()),
    ensures
        match cycle_spec(Field::UdkLock, rd.view(), model) {
            Some(g) => res.0 && res.1.view() == g,
            None => !res.0 && res.1.view() == rd.view(),
        },
{
    reveal(cycle_spec);
    let mut rd = rd;
    if !(model.max_level() >= 2) {
        return (false, rd);
    }
    rd.general.udk_locked = !rd.general.udk_locked;
    (true, rd)
}

/// Enter on `UserFeatures`.
fn step_user_features_locked(rd: Reading, model: Model) -> (res: (bool, Reading))
    requires
        cycle_ok(Field::UserFeatures, rd.view()),
    ensures
        match cycle_spec(Field::UserFeatures, rd.view(), model) {
            Some(g) => res.0 && res.1.view() == g,
            None => !res.0 && res.1.view() == rd.view(),
        },
{
    reveal(cycle_spec);
    let mut rd = rd;
    rd.general.user_features_locked = !rd.general.user_features_locked;
    (true, rd)
}

/// Enter on `CharacterSetMode`.
fn step_national(rd: Reading, model: Model) -> (res: (bool, Reading))
    requires
        cycle_ok(Field::CharacterSetMode, rd.view()),
    ensures
        match cycle_spec(Field::CharacterSetMode, rd.view(), model) {
            Some(g) => res.0 && res.1.view() == g,
            None => !res.0 && res.1.view() == rd.view(),
        },
{
    reveal(cycle_spec);
    let mut rd = rd;
    if !(model.max_level() >= 2 && rd.layout.keyboard_language.is_some()) {
        return (false, rd);
    }
    rd.general.national = !rd.general.national;
    (true, rd)
}

/// Enter on `Keypad`.
fn step_keypad_application(rd: Reading, model: Model) -> (res: (bool, Reading))
    requires
        cycle_ok(Field::Keypad, rd.view()),
    ensures
        match cycle_spec(Field::Keypad, rd.view(), model) {
            Some(g) => res.0 && res.1.view() == g,
            None => !res.0 && res.1.view() == rd.view(),
        },
{
    reveal(cycle_spec);
    let mut rd = rd;
    rd.general.keypad_application = !rd.general.keypad_application;
    (true, rd)
}

/// Enter on `CursorKeys`.
fn step_cursor_keys_application(rd: Reading, model: Model) -> (res: (bool, Reading))
    requires
        cycle_ok(Field::CursorKeys, rd.view()),
    ensures
        match cycle_spec(Field::CursorKeys, rd.view(), model) {
            Some(g) => res.0 && res.1.view() == g,
            None => !res.0 && res.1.view() == rd.view(),
        },
{
    reveal(cycle_spec);
    let mut rd = rd;
    rd.general.cursor_keys_application = !rd.general.cursor_keys_application;
    (true, rd)
}

/// Enter on `NewLine`.
fn step_new_line(rd: Reading, model: Model) -> (res: (bool, Reading))
    requires
        cycle_ok(Field::NewLine, rd.view()),
    ensures
        match cycle_spec(Field::NewLine, rd.view(), model) {
            Some(g) => res.0 && res.1.view() == g,
            None => !res.0 && res.1.view() == rd.view(),
        },
{
    reveal(cycle_spec);
    let mut rd = rd;
    rd.general.new_line = !rd.general.new_line;
    (true, rd)
}

/// Enter on `Upss`.
fn step_upss(rd: Reading, model: Model) -> (res: (bool, Reading))
    requires
        cycle_ok(Field::Upss, rd.view()),
    ensures
        match cycle_spec(Field::Upss, rd.view(), model) {
            Some(g) => res.0 && res.1.view() == g,
            None => !res.0 && res.1.view() == rd.view(),
        },
{
    reveal(cycle_spec);
    let mut rd = rd;
    if !(model.max_level() >= 3) {
        return (false, rd);
    }
    let v = match rd.general.upss {
        Supplemental::DecSupplemental => Supplemental::IsoLatin1,
        Supplemental::IsoLatin1 => Supplemental::DecSupplemental,
    };
    rd.general.upss = v;
    (true, rd)
}

/// Enter on `TerminalId`.
fn step_terminal_id(rd: Reading, model: Model) -> (res: (bool, Reading))
    requires
        cycle_ok(Field::TerminalId, rd.view()),
    ensures
        match cycle_spec(Field::TerminalId, rd.view(), model) {
            Some(g) => res.0 && res.1.view() == g,
            None => !res.0 && res.1.view() == rd.view(),
        },
{
    reveal(cycle_spec);
    let mut rd = rd;
    if !(model.max_level() >= 4) {
        return (false, rd);
    }
    let ids = terminal_ids_of(model);
    let v = next_u16(&ids, rd.general.terminal_id);
    rd.general.terminal_id = v;
    (true, rd)
}

/// Enter on `Update`.
fn step_update(rd: Reading, model: Model) -> (res: (bool, Reading))
    requires
        cycle_ok(Field::Update, rd.view()),
    ensures
        match cycle_spec(Field::Update, rd.view(), model) {
            Some(g) => res.0 && res.1.view() == g,
            None => !res.0 && res.1.view() == rd.view(),
        },
{
    reveal(cycle_spec);
    let mut rd = rd;
    let mut opts: Vec<u16> = Vec::new();
    opts.push(2);
    opts.push(3);
    opts.push(1);
    assert(opts@ =~= seq![2u16, 3, 1]);
    let v = next_u16(&opts, rd.general.update);
    rd.general.update = v;
    (true, rd)
}

/// Enter on `Transmit`.
fn step_transmit_speed(rd: Reading, model: Model) -> (res: (bool, Reading))
    requires
        cycle_ok(Field::Transmit, rd.view()),
    ensures
        match cycle_spec(Field::Transmit, rd.view(), model) {
            Some(g) => res.0 && res.1.view() == g,
            None => !res.0 && res.1.view() == rd.view(),
        },
{
    reveal(cycle_spec);
    let mut rd = rd;
    let s = speeds_of(model);
    let v = next_u32(&s, rd.line.transmit_speed);
    rd.line.transmit_speed = v;
    (true, rd)
}

/// Enter on `Receive`.
fn step_receive_speed(rd: Reading, model: Model) -> (res: (bool, Reading))
    requires
        cycle_ok(Field::Receive, rd.view()),
    ensures
        match cycle_spec(Field::Receive, rd.view(), model) {
            Some(g) => res.0 && res.1.view() == g,
            None => !res.0 && res.1.view() == rd.view(),
        },
{
    reveal(cycle_spec);
    let mut rd = rd;
    let opts = receive_options_of(model);
    let v = next_opt_u32(&opts, rd.line.receive_speed);
    rd.line.receive_speed = v;
    (true, rd)
}

/// Enter on `Xoff`.
fn step_xoff(rd: Reading, model: Model) -> (res: (bool, Reading))
    requires
        cycle_ok(Field::Xoff, rd.view()),
    ensures
        match cycle_spec(Field::Xoff, rd.view(), model) {
            Some(g) => res.0 && res.1.view() == g,
            None => !res.0 && res.1.view() == rd.view(),
        },
{
    reveal(cycle_spec);
    let mut rd = rd;
    let mut opts: Vec<Option<u16>> = Vec::new();
    opts.push(Some(64));
    opts.push(Some(128));
    opts.push(None);
    assert(opts@ =~= seq![Some(64u16), Some(128u16), None]);
    let v = next_opt_u16(&opts, rd.line.xoff);
    rd.line.xoff = v;
    (true, rd)
}

/// Enter on `DataFormat`.
fn step_data_format(rd: Reading, model: Model) -> (res: (bool, Reading))
    requires
        cycle_ok(Field::DataFormat, rd.view()),
    ensures
        match cycle_spec(Field::DataFormat, rd.view(), model) {
            Some(g) => res.0 && res.1.view() == g,
            None => !res.0 && res.1.view() == rd.view(),
        },
{
    reveal(cycle_spec);
    let mut rd = rd;
    let d = data_format_after_of(rd.line.seven_bit_data, rd.line.parity);
    rd.line.seven_bit_data = d.0;
    rd.line.parity = d.1;
    (true, rd)
}

/// Enter on `StopBits`.
fn step_two_stop_bits(rd: Reading, model: Model) -> (res: (bool, Reading))
    requires
        cycle_ok(Field::StopBits, rd.view()),
    ensures
        match cycle_spec(Field::StopBits, rd.view(), model) {
            Some(g) => res.0 && res.1.view() == g,
            None => !res.0 && res.1.view() == rd.view(),
        },
{
    reveal(cycle_spec);
    let mut rd = rd;
    rd.line.two_stop_bits = !rd.line.two_stop_bits;
    (true, rd)
}

/// Enter on `LocalEcho`.
fn step_local_echo(rd: Reading, model: Model) -> (res: (bool, Reading))
    requires
        cycle_ok(Field::LocalEcho, rd.view()),
    ensures
        match cycle_spec(Field::LocalEcho, rd.view(), model) {
            Some(g) => res.0 && res.1.view() == g,
            None => !res.0 && res.1.view() == rd.view(),
        },
{
    reveal(cycle_spec);
    let mut rd = rd;
    rd.modem.local_echo = !rd.modem.local_echo;
    (true, rd)
}

/// Enter on `ModemControl`.
fn step_modem_control(rd: Reading, model: Model) -> (res: (bool, Reading))
    requires
        cycle_ok(Field::ModemControl, rd.view()),
    ensures
        match cycle_spec(Field::ModemControl, rd.view(), model) {
            Some(g) => res.0 && res.1.view() == g,
            None => !res.0 && res.1.view() == rd.view(),
        },
{
    reveal(cycle_spec);
    let mut rd = rd;
    rd.modem.modem_control = !rd.modem.modem_control;
    (true, rd)
}

/// Enter on `Disconnect`.
fn step_disconnect(rd: Reading, model: Model) -> (res: (bool, Reading))
    requires
        cycle_ok(Field::Disconnect, rd.view()),
    ensures
        match cycle_spec(Field::Disconnect, rd.view(), model) {
            Some(g) => res.0 && res.1.view() == g,
            None => !res.0 && res.1.view() == rd.view(),
        },
{
    reveal(cycle_spec);
    let mut rd = rd;
    let v = (rd.modem.disconnect + 1) % 3;
    rd.modem.disconnect = v;
    (true, rd)
}

/// Enter on `TransmitLimit`.
fn step_limited_transmit(rd: Reading, model: Model) -> (res: (bool, Reading))
    requires
        cycle_ok(Field::TransmitLimit, rd.view()),
    ensures
        match cycle_spec(Field::TransmitLimit, rd.view(), model) {
            Some(g) => res.0 && res.1.view() == g,
            None => !res.0 && res.1.view() == rd.view(),
        },
{
    reveal(cycle_spec);
    let mut rd = rd;
    rd.modem.limited_transmit = !rd.modem.limited_transmit;
    (true, rd)
}

/// Enter on `AutoAnswerback`.
fn step_auto_answerback(rd: Reading, model: Model) -> (res: (bool, Reading))
    requires
        cycle_ok(Field::AutoAnswerback, rd.view()),
    ensures
        match cycle_spec(Field::AutoAnswerback, rd.view(), model) {
            Some(g) => res.0 && res.1.view() == g,
            None => !res.0 && res.1.view() == rd.view(),
        },
{
    reveal(cycle_spec);
    let mut rd = rd;
    rd.modem.auto_answerback = !rd.modem.auto_answerback;
    (true, rd)
}

/// Enter on `Conceal`.
fn step_conceal(rd: Reading, model: Model) -> (res: (bool, Reading))
    requires
        cycle_ok(Field::Conceal, rd.view()),
    ensures
        match cycle_spec(Field::Conceal, rd.view(), model) {
            Some(g) => res.0 && res.1.view() == g,
            None => !res.0 && res.1.view() == rd.view(),
        },
{
    reveal(cycle_spec);
    let mut rd = rd;
    if !(!rd.modem.conceal_answerback) {
        return (false, rd);
    }
    rd.modem.conceal_answerback = true;
    (true, rd)
}

/// Enter on `Typewriter`.
fn step_data_processing_keys(rd: Reading, model: Model) -> (res: (bool, Reading))
    requires
        cycle_ok(Field::Typewriter, rd.view()),
    ensures
        match cycle_spec(Field::Typewriter, rd.view(), model) {
            Some(g) => res.0 && res.1.view() == g,
            None => !res.0 && res.1.view() == rd.view(),
        },
{
    reveal(cycle_spec);
    let mut rd = rd;
    rd.keys.data_processing_keys = !rd.keys.data_processing_keys;
    (true, rd)
}

/// Enter on `Lock`.
fn step_shift_lock(rd: Reading, model: Model) -> (res: (bool, Reading))
    requires
        cycle_ok(Field::Lock, rd.view()),
    ensures
        match cycle_spec(Field::Lock, rd.view(), model) {
            Some(g) => res.0 && res.1.view() == g,
            None => !res.0 && res.1.view() == rd.view(),
        },
{
    reveal(cycle_spec);
    let mut rd = rd;
    rd.keys.shift_lock = !rd.keys.shift_lock;
    (true, rd)
}

/// Enter on `AutoRepeat`.
fn step_auto_repeat(rd: Reading, model: Model) -> (res: (bool, Reading))
    requires
        cycle_ok(Field::AutoRepeat, rd.view()),
    ensures
        match cycle_spec(Field::AutoRepeat, rd.view(), model) {
            Some(g) => res.0 && res.1.view() == g,
            None => !res.0 && res.1.view() == rd.view(),
        },
{
    reveal(cycle_spec);
    let mut rd = rd;
    rd.keys.auto_repeat = !rd.keys.auto_repeat;
    (true, rd)
}

/// Enter on `Keyclick`.
fn step_keyclick(rd: Reading, model: Model) -> (res: (bool, Reading))
    requires
        cycle_ok(Field::Keyclick, rd.view()),
    ensures
        match cycle_spec(Field::Keyclick, rd.view(), model) {
            Some(g) => res.0 && res.1.view() == g,
            None => !res.0 && res.1.view() == rd.view(),
        },
{
    reveal(cycle_spec);
    let mut rd = rd;
    let v = match rd.keys.keyclick {
        Volume::High => Volume::Low,
        Volume::Low => Volume::Off,
        Volume::Off => Volume::High,
    };
    rd.keys.keyclick = v;
    (true, rd)
}

/// Enter on `MarginBell`.
fn step_margin_bell(rd: Reading, model: Model) -> (res: (bool, Reading))
    requires
        cycle_ok(Field::MarginBell, rd.view()),
    ensures
        match cycle_spec(Field::MarginBell, rd.view(), model) {
            Some(g) => res.0 && res.1.view() == g,
            None => !res.0 && res.1.view() == rd.view(),
        },
{
    reveal(cycle_spec);
    let mut rd = rd;
    let v = match rd.keys.margin_bell {
        Volume::Off => Volume::High,
        Volume::High => Volume::Low,
        Volume::Low => Volume::Off,
    };
    rd.keys.margin_bell = v;
    (true, rd)
}

/// Enter on `WarningBell`.
fn step_warning_bell(rd: Reading, model: Model) -> (res: (bool, Reading))
    requires
        cycle_ok(Field::WarningBell, rd.view()),
    ensures
        match cycle_spec(Field::WarningBell, rd.view(), model) {
            Some(g) => res.0 && res.1.view() == g,
            None => !res.0 && res.1.view() == rd.view(),
        },
{
    reveal(cycle_spec);
    let mut rd = rd;
    let v = match rd.keys.warning_bell {
        Volume::High => Volume::Low,
        Volume::Low => Volume::Off,
        Volume::Off => Volume::High,
    };
    rd.keys.warning_bell = v;
    (true, rd)
}

/// Enter on `CharacterMode`.
fn step_position_mode(rd: Reading, model: Model) -> (res: (bool, Reading))
    requires
        cycle_ok(Field::CharacterMode, rd.view()),
    ensures
        match cycle_spec(Field::CharacterMode, rd.view(), model) {
            Some(g) => res.0 && res.1.view() == g,
            None => !res.0 && res.1.view() == rd.view(),
        },
{
    reveal(cycle_spec);
    let mut rd = rd;
    rd.keys.position_mode = !rd.keys.position_mode;
    (true, rd)
}

/// Enter on `Backarrow`.
fn step_backarrow_bs(rd: Reading, model: Model) -> (res: (bool, Reading))
    requires
        cycle_ok(Field::Backarrow, rd.view()),
    ensures
        match cycle_spec(Field::Backarrow, rd.view(), model) {
            Some(g) => res.0 && res.1.view() == g,
            None => !res.0 && res.1.view() == rd.view(),
        },
{
    reveal(cycle_spec);
    let mut rd = rd;
    rd.keys.backarrow_bs = !rd.keys.backarrow_bs;
    (true, rd)
}

/// Enter on `Compose`.
fn step_compose(rd: Reading, model: Model) -> (res: (bool, Reading))
    requires
        cycle_ok(Field::Compose, rd.view()),
    ensures
        match cycle_spec(Field::Compose, rd.view(), model) {
            Some(g) => res.0 && res.1.view() == g,
            None => !res.0 && res.1.view() == rd.view(),
        },
{
    reveal(cycle_spec);
    let mut rd = rd;
    let v = match rd.keys.compose {
        ComposeKey::Local => ComposeKey::Report,
        ComposeKey::Report => ComposeKey::Ignore,
        ComposeKey::Ignore => ComposeKey::Local,
    };
    rd.keys.compose = v;
    (true, rd)
}

/// Enter on `Alt`.
fn step_report_alt(rd: Reading, model: Model) -> (res: (bool, Reading))
    requires
        cycle_ok(Field::Alt, rd.view()),
    ensures
        match cycle_spec(Field::Alt, rd.view(), model) {
            Some(g) => res.0 && res.1.view() == g,
            None => !res.0 && res.1.view() == rd.view(),
        },
{
    reveal(cycle_spec);
    let mut rd = rd;
    rd.keys.report_alt = !rd.keys.report_alt;
    (true, rd)
}

/// Enter on `BreakKey`.
fn step_break_key(rd: Reading, model: Model) -> (res: (bool, Reading))
    requires
        cycle_ok(Field::BreakKey, rd.view()),
    ensures
        match cycle_spec(Field::BreakKey, rd.view(), model) {
            Some(g) => res.0 && res.1.view() == g,
            None => !res.0 && res.1.view() == rd.view(),
        },
{
    reveal(cycle_spec);
    let mut rd = rd;
    let v = match rd.layout.break_key {
        BreakKey::Break => BreakKey::NoBreak,
        BreakKey::NoBreak => BreakKey::FunctionKey,
        BreakKey::FunctionKey => BreakKey::Ignore,
        BreakKey::Ignore => BreakKey::Break,
    };
    rd.layout.break_key = v;
    (true, rd)
}

/// Enter on `CommaKeys`.
fn step_comma_period_same(rd: Reading, model: Model) -> (res: (bool, Reading))
    requires
        cycle_ok(Field::CommaKeys, rd.view()),
    ensures
        match cycle_spec(Field::CommaKeys, rd.view(), model) {
            Some(g) => res.0 && res.1.view() == g,
            None => !res.0 && res.1.view() == rd.view(),
        },
{
    reveal(cycle_spec);
    let mut rd = rd;
    rd.layout.comma_period_same = !rd.layout.comma_period_same;
    (true, rd)
}

/// Enter on `AngleKey`.
fn step_angle_sends_tilde(rd: Reading, model: Model) -> (res: (bool, Reading))
    requires
        cycle_ok(Field::AngleKey, rd.view()),
    ensures
        match cycle_spec(Field::AngleKey, rd.view(), model) {
            Some(g) => res.0 && res.1.view() == g,
            None => !res.0 && res.1.view() == rd.view(),
        },
{
    reveal(cycle_spec);
    let mut rd = rd;
    rd.layout.angle_sends_tilde = !rd.layout.angle_sends_tilde;
    (true, rd)
}

/// Enter on `TildeKey`.
fn step_tilde_sends_escape(rd: Reading, model: Model) -> (res: (bool, Reading))
    requires
        cycle_ok(Field::TildeKey, rd.view()),
    ensures
        match cycle_spec(Field::TildeKey, rd.view(), model) {
            Some(g) => res.0 && res.1.view() == g,
            None => !res.0 && res.1.view() == rd.view(),
        },
{
    reveal(cycle_spec);
    let mut rd = rd;
    rd.layout.tilde_sends_escape = !rd.layout.tilde_sends_escape;
    (true, rd)
}

/// Enter on a local function key field.
fn step_local_key(rd: Reading, model: Model, k: u8) -> (res: (bool, Reading))
    requires
        cycle_ok(Field::LocalKey(k), rd.view()),
    ensures
        match cycle_spec(Field::LocalKey(k), rd.view(), model) {
            Some(g) => res.0 && res.1.view() == g,
            None => !res.0 && res.1.view() == rd.view(),
        },
{
    reveal(cycle_spec);
    let mut rd = rd;
    let ghost old_keys = rd.view().layout.local_keys;
    let i = k as usize;
    let a = match rd.layout.local_keys[i] {
        LocalKeyAction::Local => LocalKeyAction::SendToHost,
        LocalKeyAction::SendToHost => LocalKeyAction::Disabled,
        LocalKeyAction::Disabled => LocalKeyAction::Local,
    };
    rd.layout.local_keys.set(i, a);
    assert(rd.view().layout.local_keys =~= old_keys.update(i as int, a));
    (true, rd)
}

/// The fields Enter steps to another setting.
pub open spec fn steps(field: Field) -> bool {
    match field {
        Field::Dialect | Field::OnLine | Field::CommPorts | Field::CrtSaver | Field::CommPort | Field::Refresh | Field::PrinterAssignment | Field::Columns | Field::Controls | Field::AutoWrap | Field::Scroll | Field::LightScreen | Field::Cursor | Field::CursorStyle | Field::Status | Field::CursorBlink | Field::Pages | Field::Lines | Field::VerticalCoupling | Field::PageCoupling | Field::AutoResize | Field::TerminalMode | Field::UdkLock | Field::UserFeatures | Field::CharacterSetMode | Field::Keypad | Field::CursorKeys | Field::NewLine | Field::Upss | Field::TerminalId | Field::Update | Field::Transmit | Field::Receive | Field::Xoff | Field::DataFormat | Field::StopBits | Field::LocalEcho | Field::ModemControl | Field::Disconnect | Field::TransmitLimit | Field::AutoAnswerback | Field::Conceal | Field::Typewriter | Field::Lock | Field::AutoRepeat | Field::Keyclick | Field::MarginBell | Field::WarningBell | Field::CharacterMode | Field::Backarrow | Field::Compose | Field::Alt | Field::BreakKey | Field::CommaKeys | Field::AngleKey | Field::TildeKey | Field::LocalKey(..) => true,
        _ => false,
    }
}

/// Enter changes no feature on any other field.
proof fn lemma_no_step(field: Field, f: FeaturesView, model: Model)
    requires
        !steps(field),
    ensures
        cycle_spec(field, f, model) is None,
{
    reveal(cycle_spec);
}

/// [`cycle_reading`] for the fields of the Directory.
fn cycle_group_0(field: Field, rd: Reading, model: Model) -> (res: (bool, Reading))
    requires
        cycle_ok(field, rd.view()),
        field_group(field) == 0,
    ensures
        match cycle_spec(field, rd.view(), model) {
            Some(g) => res.0 && res.1.view() == g,
            None => !res.0 && res.1.view() == rd.view(),
        },
{
    match field {
        Field::Dialect => step_dialect(rd, model),
        _ => {
            proof {
                lemma_no_step(field, rd.view(), model);
            }
            (false, rd)
        },
    }
}

/// [`cycle_reading`] for the fields of Global and Display Set-Up.
fn cycle_group_1(field: Field, rd: Reading, model: Model) -> (res: (bool, Reading))
    requires
        cycle_ok(field, rd.view()),
        field_group(field) == 1,
    ensures
        match cycle_spec(field, rd.view(), model) {
            Some(g) => res.0 && res.1.view() == g,
            None => !res.0 && res.1.view() == rd.view(),
        },
{
    match field {
        Field::OnLine => step_on_line(rd, model),
        Field::CommPorts => step_two_sessions(rd, model),
        Field::CrtSaver => step_crt_saver(rd, model),
        Field::CommPort => step_comm1_dec423(rd, model),
        Field::Refresh => step_refresh_60hz(rd, model),
        Field::PrinterAssignment => step_printer_session(rd, model),
        Field::Columns => step_columns(rd, model),
        Field::Controls => step_display_controls(rd, model),
        Field::AutoWrap => step_autowrap(rd, model),
        Field::Scroll => step_scroll(rd, model),
        Field::LightScreen => step_light_screen(rd, model),
        Field::Cursor => step_cursor(rd, model),
        Field::CursorStyle => step_cursor_shape(rd, model),
        Field::Status => step_status(rd, model),
        Field::CursorBlink => step_cursor_blink(rd, model),
        Field::Pages => step_pages(rd, model),
        Field::Lines => step_lines(rd, model),
        Field::VerticalCoupling => step_vertical_coupling(rd, model),
        Field::PageCoupling => step_page_coupling(rd, model),
        Field::AutoResize => step_auto_resize(rd, model),
        _ => {
            proof {
                lemma_no_step(field, rd.view(), model);
            }
            (false, rd)
        },
    }
}

/// [`cycle_reading`] for the fields of General and Communications Set-Up.
fn cycle_group_2(field: Field, rd: Reading, model: Model) -> (res: (bool, Reading))
    requires
        cycle_ok(field, rd.view()),
        field_group(field) == 2,
    ensures
        match cycle_spec(field, rd.view(), model) {
            Some(g) => res.0 && res.1.view() == g,
            None => !res.0 && res.1.view() == rd.view(),
        },
{
    match field {
        Field::TerminalMode => step_terminal_mode(rd, model),
        Field::UdkLock => step_udk_locked(rd, model),
        Field::UserFeatures => step_user_features_locked(rd, model),
        Field::CharacterSetMode => step_national(rd, model),
        Field::Keypad => step_keypad_application(rd, model),
        Field::CursorKeys => step_cursor_keys_application(rd, model),
        Field::NewLine => step_new_line(rd, model),
        Field::Upss => step_upss(rd, model),
        Field::TerminalId => step_terminal_id(rd, model),
        Field::Update => step_update(rd, model),
        Field::Transmit => step_transmit_speed(rd, model),
        Field::Receive => step_receive_speed(rd, model),
        Field::Xoff => step_xoff(rd, model),
        Field::DataFormat => step_data_format(rd, model),
        Field::StopBits => step_two_stop_bits(rd, model),
        Field::LocalEcho => step_local_echo(rd, model),
        Field::ModemControl => step_modem_control(rd, model),
        Field::Disconnect => step_disconnect(rd, model),
        Field::TransmitLimit => step_limited_transmit(rd, model),
        Field::AutoAnswerback => step_auto_answerback(rd, model),
        Field::Conceal => step_conceal(rd, model),
        _ => {
            proof {
                lemma_no_step(field, rd.view(), model);
            }
            (false, rd)
        },
    }
}

/// [`cycle_reading`] for the fields of Keyboard and Tab Set-Up.
fn cycle_group_3(field: Field, rd: Reading, model: Model) -> (res: (bool, Reading))
    requires
        cycle_ok(field, rd.view()),
        field_group(field) == 3,
    ensures
        match cycle_spec(field, rd.view(), model) {
            Some(g) => res.0 && res.1.view() == g,
            None => !res.0 && res.1.view() == rd.view(),
        },
{
    match field {
        Field::Typewriter => step_data_processing_keys(rd, model),
        Field::Lock => step_shift_lock(rd, model),
        Field::AutoRepeat => step_auto_repeat(rd, model),
        Field::Keyclick => step_keyclick(rd, model),
        Field::MarginBell => step_margin_bell(rd, model),
        Field::WarningBell => step_warning_bell(rd, model),
        Field::CharacterMode => step_position_mode(rd, model),
        Field::Backarrow => step_backarrow_bs(rd, model),
        Field::Compose => step_compose(rd, model),
        Field::Alt => step_report_alt(rd, model),
        Field::BreakKey => step_break_key(rd, model),
        Field::CommaKeys => step_comma_period_same(rd, model),
        Field::AngleKey => step_angle_sends_tilde(rd, model),
        Field::TildeKey => step_tilde_sends_escape(rd, model),
        Field::LocalKey(k) => step_local_key(rd, model, k),
        _ => {
            proof {
                lemma_no_step(field, rd.view(), model);
            }
            (false, rd)
        },
    }
}

/// Steps a feature field to its next setting. Returns false, with the
/// features unchanged, for fields that have none.
fn cycle_reading(field: Field, rd: Reading, model: Model) -> (res: (bool, Reading))
    requires
        cycle_ok(field, rd.view()),
    ensures
        match cycle_spec(field, rd.view(), model) {
            Some(g) => res.0 && res.1.view() == g,
            None => !res.0 && res.1.view() == rd.view(),
        },
{
    let g = field_group_of(field);
    if g == 0 {
        cycle_group_0(field, rd, model)
    } else if g == 1 {
        cycle_group_1(field, rd, model)
    } else if g == 2 {
        cycle_group_2(field, rd, model)
    } else {
        cycle_group_3(field, rd, model)
    }
}

/// Steps a feature field to its next setting. Returns false, with the
/// features unchanged, for fields that have none.
fn cycle(field: Field, f: &mut Features, model: Model) -> (r: bool)
    requires
        cycle_ok(field, old(f)@),
    ensures
        match cycle_spec(field, old(f)@, model) {
            Some(g) => r && final(f)@ == g,
            None => !r && final(f)@ == old(f)@,
        },
{
    let mut taken = Features::factory(model);
    std::mem::swap(&mut taken, f);
    let rd = reading_of(taken);
    let (stepped, rd) = cycle_reading(field, rd, model);
    *f = features_of(rd);
    stepped
}


/// Features Set-Up can show and step: those [`features_ok`] asks for, and a
/// printer session and a disconnect delay that can step by one.
pub open spec fn shown_ok(f: FeaturesView) -> bool {
    &&& features_ok(f)
    &&& f.global.printer_session < 255
    &&& f.modem.disconnect < 255
}

/// The entry after `x` is one of the options.
proof fn lemma_next_in_member<T>(options: Seq<T>, x: T)
    requires
        options.len() > 0,
    ensures
        options.contains(next_in(options, x)),
{
    reveal(next_in);
    let i = position_in(options, x);
    let k = ((if i < 0 { 0 } else { i }) + 1) % (options.len() as int);
    assert(options[k] == next_in(options, x));
}

/// What a Set-Up step keeps: a field that cannot step leaves the features
/// as they were (the step's own contract); national mode never ends up on
/// without a keyboard language; and stepping the columns toggles the width
/// and fits the tab stops to it, keeping the stops of the columns both
/// widths share.
#[verifier::spinoff_prover]
#[verifier::rlimit(40)]
pub proof fn lemma_cycle_laws(field: Field, f: FeaturesView, model: Model)
    requires
        field_ok(field),
        f.general.national ==> f.layout.keyboard_language is Some,
    ensures
        cycle_spec(field, f, model) matches Some(g) ==> (g.general.national ==> g.layout.keyboard_language is Some),
        field == Field::Columns ==> (cycle_spec(field, f, model) matches Some(g) && g.display.columns_132
            == !f.display.columns_132 && g.layout.tabs.len() == (if g.display.columns_132 { 132nat } else { 80nat })
            && forall|i: int| 0 <= i < f.layout.tabs.len() && i < g.layout.tabs.len() ==> g.layout.tabs[i]
            == f.layout.tabs[i]),
{
    reveal(cycle_spec);
}

/// Stepping a field keeps the features showable.
#[verifier::spinoff_prover]
#[verifier::rlimit(30)]
proof fn lemma_cycle_keeps(field: Field, f: FeaturesView, model: Model)
    requires
        shown_ok(f),
        field_ok(field),
    ensures
        cycle_spec(field, f, model) matches Some(g) ==> shown_ok(g),
{
    reveal(cycle_spec);
    lemma_next_in_member(page_lengths(model), f.display.page_length);
    let pl = next_in(page_lengths(model), f.display.page_length);
    assert(pl > 0) by {
        let k = choose|k: int| 0 <= k < page_lengths(model).len() && page_lengths(model)[k] == pl;
    }
}

fn copy_bytes(v: &Vec<u8>) -> (r: Vec<u8>)
    ensures
        r@ == v@,
{
    crate::text::slice_to_vec(v.as_slice(), 0, v.len())
}

fn copy_bools(v: &Vec<bool>) -> (r: Vec<bool>)
    ensures
        r@ == v@,
{
    let mut out: Vec<bool> = Vec::new();
    let mut i: usize = 0;
    while i < v.len()
        invariant
            i <= v@.len(),
            out@ == v@.subrange(0, i as int),
        decreases v@.len() - i,
    {
        out.push(v[i]);
        i = i + 1;
        assert(out@ =~= v@.subrange(0, i as int));
    }
    assert(v@.subrange(0, i as int) =~= v@);
    out
}

/// A copy of the features.
#[verifier::spinoff_prover]
#[verifier::rlimit(30)]
fn copy_features(f: &Features) -> (r: Features)
    ensures
        r@ == f@,
{
    Features {
        on_line: f.on_line,
        two_sessions: f.two_sessions,
        crt_saver: f.crt_saver,
        comm1_dec423: f.comm1_dec423,
        refresh_60hz: f.refresh_60hz,
        printer_session: f.printer_session,
        columns_132: f.columns_132,
        display_controls: f.display_controls,
        autowrap: f.autowrap,
        scroll: f.scroll,
        light_screen: f.light_screen,
        cursor: f.cursor,
        cursor_style: f.cursor_style,
        status: f.status,
        page_length: f.page_length,
        screen_lines: f.screen_lines,
        vertical_coupling: f.vertical_coupling,
        page_coupling: f.page_coupling,
        auto_resize: f.auto_resize,
        clear_on_column_change: f.clear_on_column_change,
        zero_style: f.zero_style,
        crt_saver_minutes: f.crt_saver_minutes,
        energy_saver_minutes: f.energy_saver_minutes,
        host_wake_up: f.host_wake_up,
        overscan: f.overscan,
        terminal_mode: f.terminal_mode,
        udk_locked: f.udk_locked,
        user_features_locked: f.user_features_locked,
        national: f.national,
        keypad_application: f.keypad_application,
        cursor_keys_application: f.cursor_keys_application,
        new_line: f.new_line,
        upss: f.upss,
        terminal_id: f.terminal_id,
        update: f.update,
        transmit_speed: f.transmit_speed,
        receive_speed: f.receive_speed,
        xoff: f.xoff,
        seven_bit_data: f.seven_bit_data,
        parity: f.parity,
        two_stop_bits: f.two_stop_bits,
        transmit_flow: f.transmit_flow,
        receive_flow: f.receive_flow,
        flow_threshold_high: f.flow_threshold_high,
        transmit_rate: f.transmit_rate,
        fkey_rate: f.fkey_rate,
        ignore_null: f.ignore_null,
        half_duplex: f.half_duplex,
        modem_high_speed: f.modem_high_speed,
        modem_low_speed: f.modem_low_speed,
        local_echo: f.local_echo,
        modem_control: f.modem_control,
        disconnect: f.disconnect,
        limited_transmit: f.limited_transmit,
        auto_answerback: f.auto_answerback,
        answerback: copy_bytes(&f.answerback),
        conceal_answerback: f.conceal_answerback,
        data_processing_keys: f.data_processing_keys,
        shift_lock: f.shift_lock,
        auto_repeat: f.auto_repeat,
        auto_repeat_rate: f.auto_repeat_rate,
        keyclick: f.keyclick,
        margin_bell: f.margin_bell,
        warning_bell: f.warning_bell,
        position_mode: f.position_mode,
        backarrow_bs: f.backarrow_bs,
        compose: f.compose,
        report_alt: f.report_alt,
        local_keys: f.local_keys,
        break_key: f.break_key,
        comma_period_same: f.comma_period_same,
        angle_sends_tilde: f.angle_sends_tilde,
        tilde_sends_escape: f.tilde_sends_escape,
        keyboard_language: f.keyboard_language,
        tabs: copy_bools(&f.tabs),
    }
}

/// How long a field's text is.
pub open spec fn label_len(field: Field, f: FeaturesView, model: Model) -> nat {
    label_text(field, f, model).len()
}

/// The longest text a field shows over the next `k` settings Enter steps
/// it to.
pub open spec fn more_width(field: Field, f: FeaturesView, model: Model, k: nat) -> nat
    decreases k,
{
    if k == 0 {
        0
    } else {
        match cycle_spec(field, f, model) {
            None => 0,
            Some(g) => {
                let rest = more_width(field, g, model, (k - 1) as nat);
                if label_len(field, g, model) >= rest { label_len(field, g, model) } else { rest }
            },
        }
    }
}

/// The widest text a field can show, its present one and the next sixteen
/// settings, so that fields keep their places as their settings change.
pub open spec fn width_spec(field: Field, f: FeaturesView, model: Model) -> nat {
    let m = more_width(field, f, model, 16);
    if label_len(field, f, model) >= m { label_len(field, f, model) } else { m }
}

/// The widest text a field can show.
fn width(field: Field, f: &Features, model: Model) -> (r: usize)
    requires
        field_ok(field),
        shown_ok(f@),
    ensures
        r == width_spec(field, f@, model),
{
    let mut probe = copy_features(f);
    let mut widest: usize = label(field, f, model).len();
    let mut n: usize = 0;
    while n < 16
        invariant
            n <= 16,
            field_ok(field),
            shown_ok(probe@),
            (if widest >= more_width(field, probe@, model, (16 - n) as nat) {
                widest as nat
            } else {
                more_width(field, probe@, model, (16 - n) as nat)
            }) == width_spec(field, f@, model),
        decreases 16 - n,
    {
        let ghost before = probe@;
        proof {
            lemma_cycle_keeps(field, before, model);
        }
        if cycle(field, &mut probe, model) {
            let len = label(field, &probe, model).len();
            if len > widest {
                widest = len;
            }
            n = n + 1;
        } else {
            n = 16;
        }
    }
    widest
}

/// Where each field of a row starts: two columns in, then each field
/// three columns after the widest text of the one before.
pub open spec fn position_spec(row: Seq<Field>, f: FeaturesView, model: Model, i: nat) -> nat
    decreases i,
{
    if i == 0 {
        2
    } else {
        let x = position_spec(row, f, model, (i - 1) as nat) + width_spec(row[i - 1], f, model) + 3;
        if x > usize::MAX { usize::MAX as nat } else { x }
    }
}

/// Whether every field of a row can be shown.
pub open spec fn row_ok(row: Seq<Field>) -> bool {
    forall|i: int| 0 <= i < row.len() ==> field_ok(#[trigger] row[i])
}

/// Column where each field of a row starts.
fn positions(row: &Vec<Field>, f: &Features, model: Model) -> (r: Vec<usize>)
    requires
        row_ok(row@),
        shown_ok(f@),
    ensures
        r@.len() == row@.len(),
        forall|i: int| 0 <= i < row@.len() ==> r@[i] == position_spec(row@, f@, model, i as nat),
{
    let mut out: Vec<usize> = Vec::new();
    let mut x: usize = 2;
    let mut i: usize = 0;
    while i < row.len()
        invariant
            i <= row@.len(),
            row_ok(row@),
            shown_ok(f@),
            out@.len() == i,
            x == position_spec(row@, f@, model, i as nat),
            forall|j: int| 0 <= j < i ==> out@[j] == position_spec(row@, f@, model, j as nat),
        decreases row@.len() - i,
    {
        out.push(x);
        let w = width(row[i], f, model);
        x = x.saturating_add(w).saturating_add(3);
        i = i + 1;
    }
    out
}


/// Every field of every screen can be shown.
proof fn lemma_rows_ok(s: Screen, r: int)
    requires
        0 <= r < screen_rows(s).len(),
    ensures
        row_ok(screen_rows(s)[r]),
        screen_rows(s)[r].len() > 0,
{
    reveal(screen_rows);
}

/// Every screen has rows.
proof fn lemma_rows_exist(s: Screen)
    ensures
        0 < screen_rows(s).len() <= 5,
{
    reveal(screen_rows);
}

/// The features as values, kept folded where Set-Up carries them along.
#[verifier::opaque]
pub open spec fn features_view(f: Features) -> FeaturesView {
    f@
}

proof fn lemma_features_view(f: Features)
    ensures
        features_view(f) == f@,
{
    reveal(features_view);
}

/// An open VT420 Set-Up, as values.
pub ghost struct ScreensView {
    pub model: Model,
    pub version: Seq<char>,
    pub features: FeaturesView,
    pub screen: Screen,
    pub row: nat,
    pub col: nat,
    pub tab_col: nat,
    pub entry: Option<Seq<u8>>,
    pub message: Option<Seq<char>>,
    pub clear_display: bool,
    pub aligning: bool,
}

/// An open VT420 Set-Up.
pub struct Screens {
    model: Model,
    version: String,
    features: Features,
    screen: Screen,
    row: usize,
    col: usize,
    tab_col: usize,
    entry: Option<Vec<u8>>,
    message: Option<&'static str>,
    clear_display: bool,
    aligning: bool,
}

impl View for Screens {
    type V = ScreensView;

    closed spec fn view(&self) -> ScreensView {
        ScreensView {
            model: self.model,
            version: self.version@,
            features: features_view(self.features),
            screen: self.screen,
            row: self.row as nat,
            col: self.col as nat,
            tab_col: self.tab_col as nat,
            entry: match self.entry {
                Some(e) => Some(e@),
                None => None,
            },
            message: match self.message {
                Some(m) => Some(m@),
                None => None,
            },
            clear_display: self.clear_display,
            aligning: self.aligning,
        }
    }
}

/// A Set-Up state the screens can be in: the field cursor on a field of
/// the screen, the tab column on the widest line, showable features and an
/// answerback message of at most 30 characters being typed.
pub open spec fn screens_ok(v: ScreensView) -> bool {
    &&& shown_ok(v.features)
    &&& screens_shape_ok(v)
}

/// The cursor is on a field of its screen, the tab column on the ruler,
/// and a message being typed fits.
pub open spec fn screens_shape_ok(v: ScreensView) -> bool {
    &&& v.row < screen_rows(v.screen).len()
    &&& v.col < screen_rows(v.screen)[v.row as int].len()
    &&& v.tab_col < 132
    &&& (v.entry matches Some(e) ==> e.len() <= 30)
}

/// The line width of the features.
pub open spec fn cols_of(f: FeaturesView) -> nat {
    if f.display.columns_132 { 132 } else { 80 }
}

/// The field under the cursor.
pub open spec fn current_field(v: ScreensView) -> Field {
    screen_rows(v.screen)[v.row as int][v.col as int]
}

/// On `screen`, the cursor on its first field.
pub open spec fn went(v: ScreensView, screen: Screen) -> ScreensView {
    ScreensView { screen, row: 0, col: 0, ..v }
}

/// The answerback typed so far with the ASCII characters of `text` added,
/// up to 30.
pub open spec fn typed_text(typed: Seq<u8>, text: Seq<char>) -> Seq<u8>
    decreases text.len(),
{
    if text.len() == 0 {
        typed
    } else {
        let c = text[0];
        let t = if (c as u32) < 128 && typed.len() < 30 { typed.push(c as u8) } else { typed };
        typed_text(t, text.drop_first())
    }
}

/// The first tab stop after column `from` and before `cols`; the last
/// column when there is none.
pub open spec fn next_stop(tabs: Seq<bool>, from: nat, cols: nat) -> nat
    decreases cols - from,
{
    if from >= cols {
        (cols - 1) as nat
    } else if from < tabs.len() && tabs[from as int] {
        from
    } else {
        next_stop(tabs, from + 1, cols)
    }
}

/// How far apart two columns are.
pub open spec fn distance(a: nat, b: nat) -> nat {
    if a >= b { (a - b) as nat } else { (b - a) as nat }
}

/// The first of `ps` nearest to `x`.
pub open spec fn closest(ps: Seq<nat>, x: nat) -> nat
    decreases ps.len(),
{
    if ps.len() <= 1 {
        0
    } else {
        let b = closest(ps.drop_last(), x);
        if distance(ps.last(), x) < distance(ps[b as int], x) { (ps.len() - 1) as nat } else { b }
    }
}

/// The columns where the fields of a row start.
pub open spec fn row_positions(row: Seq<Field>, f: FeaturesView, model: Model) -> Seq<nat> {
    Seq::new(row.len(), |i: int| position_spec(row, f, model, i as nat))
}

/// Enter on a tab field: Clear all tabs, Set 8 column tabs, or a stop of
/// the ruler flipped (not in the first column).
pub open spec fn tabs_spec(v: ScreensView, field: Field) -> ScreensView {
    let f = v.features;
    let tabs = if field == Field::ClearTabs {
        Seq::new(f.layout.tabs.len(), |i: int| false)
    } else if field == Field::SetTabs8 {
        default_tabs_spec(cols_of(f))
    } else if v.tab_col > 0 && v.tab_col < f.layout.tabs.len() {
        f.layout.tabs.update(v.tab_col as int, !f.layout.tabs[v.tab_col as int])
    } else {
        f.layout.tabs
    };
    ScreensView { features: with_tabs(f, tabs), ..v }
}

/// Enter on a feature field: the feature steps, or "Not available".
pub open spec fn feature_spec(v: ScreensView, field: Field) -> ScreensView {
    match cycle_spec(field, v.features, v.model) {
        Some(g) => ScreensView { features: g, ..v },
        None => ScreensView { message: Some("Not available"@), ..v },
    }
}

/// Enter on any other field: to another screen, an action or Exit
/// reported, or a flag of the screens set.
pub open spec fn plain_spec(v: ScreensView, field: Field) -> (ScreensView, Outcome) {
    match field {
        Field::Goto(s) => (went(v, s), Outcome::Redraw),
        Field::NextSetUp => (went(v, next_screen(v.screen)), Outcome::Redraw),
        Field::ToDirectory => (went(v, Screen::Directory), Outcome::Redraw),
        Field::Do(a) => (v, Outcome::Action(a)),
        Field::ClearDisplay => (ScreensView { clear_display: true, message: Some("Done"@), ..v }, Outcome::Redraw),
        Field::Exit => (v, Outcome::Exit),
        Field::ScreenAlign => (ScreensView { aligning: true, ..v }, Outcome::Redraw),
        Field::EnableSessions | Field::DisableSessions => (
            ScreensView { message: Some("Sessions not selected"@), ..v },
            Outcome::Redraw,
        ),
        Field::Answerback => (ScreensView { entry: Some(Seq::empty()), ..v }, Outcome::Redraw),
        _ => (ScreensView { message: Some("Not available"@), ..v }, Outcome::Redraw),
    }
}

/// What Enter does on a field: the state after it and what it reports.
pub open spec fn activate_spec(v: ScreensView, field: Field) -> (ScreensView, Outcome) {
    if field == Field::ClearTabs || field == Field::SetTabs8 || field == Field::Ruler {
        (tabs_spec(v, field), Outcome::Redraw)
    } else if steps(field) {
        (feature_spec(v, field), Outcome::Redraw)
    } else {
        plain_spec(v, field)
    }
}

/// What a key does while an answerback message is being typed: Enter
/// takes the message (no longer concealed), Set-Up drops it, Backspace
/// takes back a character, text and Tab add to it; other keys do nothing.
pub open spec fn entry_spec(v: ScreensView, typed: Seq<u8>, input: Input) -> ScreensView {
    match input {
        Input::Enter => ScreensView { features: with_answerback(v.features, typed), entry: None, ..v },
        Input::SetUp => ScreensView { entry: None, ..v },
        Input::Backspace => ScreensView {
            entry: Some(if typed.len() > 0 { typed.drop_last() } else { typed }),
            ..v
        },
        Input::Text(t) => ScreensView { entry: Some(typed_text(typed, t@)), ..v },
        Input::Tab => ScreensView { entry: Some(if typed.len() < 30 { typed.push(9u8) } else { typed }), ..v },
        _ => v,
    }
}

/// What a key does on a screen.
pub open spec fn move_spec(v: ScreensView, input: Input) -> (ScreensView, Outcome) {
    let rows = screen_rows(v.screen);
    let row = rows[v.row as int];
    let field = current_field(v);
    let cols = cols_of(v.features);
    match input {
        Input::SetUp => (v, Outcome::Exit),
        Input::Left => if field == Field::Ruler {
            (ScreensView { tab_col: ((v.tab_col + cols - 1) as nat) % cols, ..v }, Outcome::Redraw)
        } else {
            (ScreensView { col: if v.col > 0 { (v.col - 1) as nat } else { 0 }, ..v }, Outcome::Redraw)
        },
        Input::Right => if field == Field::Ruler {
            (ScreensView { tab_col: (v.tab_col + 1) % cols, ..v }, Outcome::Redraw)
        } else {
            (ScreensView { col: if v.col + 1 < row.len() { v.col + 1 } else { (row.len() - 1) as nat }, ..v }, Outcome::Redraw)
        },
        Input::Tab => if field == Field::Ruler {
            (ScreensView { tab_col: next_stop(v.features.layout.tabs, v.tab_col + 1, cols), ..v }, Outcome::Redraw)
        } else if v.col + 1 >= row.len() {
            (ScreensView { col: 0, row: (v.row + 1) % rows.len(), ..v }, Outcome::Redraw)
        } else {
            (ScreensView { col: v.col + 1, ..v }, Outcome::Redraw)
        },
        Input::Up | Input::Down => {
            let up = input is Up;
            if (up && v.row == 0) || (!up && v.row + 1 >= rows.len()) {
                (v, Outcome::Redraw)
            } else {
                let target: nat = if up { (v.row - 1) as nat } else { v.row + 1 };
                let x = row_positions(row, v.features, v.model)[v.col as int];
                let c = closest(row_positions(rows[target as int], v.features, v.model), x);
                (ScreensView { row: target, col: c, ..v }, Outcome::Redraw)
            }
        },
        Input::Enter => activate_spec(v, field),
        Input::Backspace | Input::Text(_) => (v, Outcome::Redraw),
    }
}

/// What a key does: every key clears the last message; any key ends the
/// screen alignment pattern.
pub open spec fn input_spec(v: ScreensView, input: Input) -> (ScreensView, Outcome) {
    let v0 = ScreensView { message: None, ..v };
    if v.aligning {
        (ScreensView { aligning: false, ..v0 }, Outcome::Redraw)
    } else {
        match v.entry {
            Some(typed) => (entry_spec(v0, typed, input), Outcome::Redraw),
            None => move_spec(v0, input),
        }
    }
}


/// `f` with these tab stops.
#[verifier::opaque]
pub open spec fn with_tabs(f: FeaturesView, tabs: Seq<bool>) -> FeaturesView {
    FeaturesView { layout: LayoutView { tabs, ..f.layout }, ..f }
}

/// `f` with this answerback message, no longer concealed.
#[verifier::opaque]
pub open spec fn with_answerback(f: FeaturesView, typed: Seq<u8>) -> FeaturesView {
    FeaturesView { modem: ModemView { answerback: typed, conceal_answerback: false, ..f.modem }, ..f }
}

/// New tab stops or a new answerback keep the features showable.
proof fn lemma_with_keeps(f: FeaturesView, tabs: Seq<bool>, typed: Seq<u8>)
    requires
        shown_ok(f),
    ensures
        shown_ok(with_tabs(f, tabs)),
        shown_ok(with_answerback(f, typed)),
{
    reveal(with_tabs);
    reveal(with_answerback);
}

#[verifier::spinoff_prover]
fn set_tabs_of(f: &mut Features, tabs: Vec<bool>)
    ensures
        features_view(*final(f)) == with_tabs(features_view(*old(f)), tabs@),
{
    proof {
        reveal(with_tabs);
        reveal(features_view);
    }
    f.tabs = tabs;
}

/// The answerback taken from the typed message, no longer concealed.
fn take_answerback(f: &mut Features, typed: Vec<u8>)
    ensures
        features_view(*final(f)) == with_answerback(features_view(*old(f)), typed@),
{
    proof {
        reveal(with_answerback);
        reveal(features_view);
    }
    let mut taken = Features::factory(Model::Vt100);
    std::mem::swap(&mut taken, f);
    let mut rd = reading_of(taken);
    rd.modem.answerback = typed;
    rd.modem.conceal_answerback = false;
    *f = features_of(rd);
}

/// The typed message with the ASCII characters of `text` added, up to 30.
pub(crate) fn add_typed(typed: Vec<u8>, text: &str) -> (r: Vec<u8>)
    ensures
        r@ == typed_text(typed@, text@),
{
    let cs = str_chars(text);
    let mut t = typed;
    let mut i: usize = 0;
    assert(cs@.subrange(0, cs@.len() as int) =~= cs@);
    while i < cs.len()
        invariant
            i <= cs@.len(),
            cs@ == text@,
            typed_text(t@, cs@.subrange(i as int, cs@.len() as int)) == typed_text(typed@, text@),
        decreases cs@.len() - i,
    {
        let ghost rest = cs@.subrange(i as int, cs@.len() as int);
        let c = cs[i];
        if (c as u32) < 128 && t.len() < 30 {
            t.push(c as u8);
        }
        proof {
            assert(rest[0] == c);
            assert(rest.drop_first() =~= cs@.subrange(i + 1, cs@.len() as int));
        }
        i = i + 1;
    }
    proof {
        assert(cs@.subrange(i as int, cs@.len() as int) =~= Seq::<char>::empty());
    }
    t
}

/// The first tab stop after column `from` and before `cols`, or the last
/// column.
fn next_stop_of(tabs: &Vec<bool>, from: usize, cols: usize) -> (r: usize)
    requires
        cols > 0,
    ensures
        r == next_stop(tabs@, from as nat, cols as nat),
    decreases cols - from,
{
    if from >= cols {
        cols - 1
    } else if from < tabs.len() && tabs[from] {
        from
    } else {
        next_stop_of(tabs, from + 1, cols)
    }
}

/// The column found is on the line.
proof fn lemma_next_stop(tabs: Seq<bool>, from: nat, cols: nat)
    requires
        cols > 0,
    ensures
        next_stop(tabs, from, cols) < cols,
    decreases cols - from,
{
    if from < cols {
        lemma_next_stop(tabs, from + 1, cols);
    }
}

fn distance_of(a: usize, b: usize) -> (r: usize)
    ensures
        r == distance(a as nat, b as nat),
{
    if a >= b { a - b } else { b - a }
}

/// The first of `ps` nearest to `x`.
fn closest_of(ps: &Vec<usize>, x: usize) -> (r: usize)
    requires
        ps@.len() > 0,
    ensures
        r == closest(ps@.map_values(|p: usize| p as nat), x as nat),
        r < ps@.len(),
{
    let ghost ns = ps@.map_values(|p: usize| p as nat);
    let mut best: usize = 0;
    let mut i: usize = 1;
    assert(ns.subrange(0, 1).len() == 1);
    while i < ps.len()
        invariant
            1 <= i <= ps@.len(),
            ns == ps@.map_values(|p: usize| p as nat),
            best < i,
            best == closest(ns.subrange(0, i as int), x as nat),
        decreases ps@.len() - i,
    {
        let ghost pre = ns.subrange(0, i + 1);
        proof {
            assert(pre.drop_last() =~= ns.subrange(0, i as int));
            assert(pre.last() == ps@[i as int] as nat);
            assert(pre[best as int] == ps@[best as int] as nat);
        }
        if distance_of(ps[i], x) < distance_of(ps[best], x) {
            best = i;
        }
        i = i + 1;
    }
    assert(ns.subrange(0, i as int) =~= ns);
    best
}

impl Screens {
    /// Opens Set-Up on the Set-Up Directory, with the field cursor on
    /// Global. `version` is shown after the model name.
    pub fn new(model: Model, version: &str, features: Features) -> (r: Screens)
        ensures
            r@ == (ScreensView {
                model,
                version: version@,
                features: features@,
                screen: Screen::Directory,
                row: 0,
                col: 0,
                tab_col: 8,
                entry: None,
                message: None,
                clear_display: false,
                aligning: false,
            }),
            screens_shape_ok(r@),
            shown_ok(features@) ==> screens_ok(r@),
    {
        let v = str_chars(version);
        proof {
            lemma_rows_exist(Screen::Directory);
            lemma_rows_ok(Screen::Directory, 0);
            lemma_features_view(features);
        }
        Screens {
            model,
            version: string_from(&v),
            features,
            screen: Screen::Directory,
            row: 0,
            col: 0,
            tab_col: 8,
            entry: None,
            message: None,
            clear_display: false,
            aligning: false,
        }
    }

    pub fn features(&self) -> (r: &Features)
        ensures
            r@ == self@.features,
    {
        proof {
            lemma_features_view(self.features);
        }
        &self.features
    }

    /// Replaces the features shown, after an action changed them.
    pub fn set_features(&mut self, features: Features)
        requires
            screens_shape_ok(old(self)@),
        ensures
            final(self)@ == (ScreensView { features: features@, ..old(self)@ }),
            screens_shape_ok(final(self)@),
    {
        proof {
            lemma_features_view(features);
        }
        self.features = features;
    }

    pub fn screen(&self) -> (r: Screen)
        ensures
            r == self@.screen,
    {
        self.screen
    }

    /// True if Clear Display was selected: clear the page on leaving.
    pub fn clear_display_on_exit(&self) -> (r: bool)
        ensures
            r == self@.clear_display,
    {
        self.clear_display
    }

    /// The message to show in place of the keyboard indicator line.
    pub fn message(&self) -> (r: Option<&'static str>)
        ensures
            match r {
                Some(m) => self@.message == Some(m@),
                None => self@.message is None,
            },
    {
        self.message
    }

    /// Reports that an action finished.
    pub fn done(&mut self)
        ensures
            final(self)@ == (ScreensView { message: Some("Done"@), ..old(self)@ }),
            screens_shape_ok(old(self)@) ==> screens_shape_ok(final(self)@),
    {
        self.message = Some("Done");
    }

    fn cols(&self) -> (r: usize)
        ensures
            r == cols_of(self@.features),
    {
        proof {
            lemma_features_view(self.features);
        }
        if self.features.columns_132 { 132 } else { 80 }
    }

    fn go(&mut self, screen: Screen)
        requires
            screens_ok(old(self)@),
        ensures
            final(self)@ == went(old(self)@, screen),
            screens_ok(final(self)@),
    {
        proof {
            lemma_rows_exist(screen);
            lemma_rows_ok(screen, 0);
        }
        self.screen = screen;
        self.row = 0;
        self.col = 0;
    }
}



/// Typing adds at most up to 30 characters.
proof fn lemma_typed_text_len(typed: Seq<u8>, text: Seq<char>)
    requires
        typed.len() <= 30,
    ensures
        typed_text(typed, text).len() <= 30,
    decreases text.len(),
{
    if text.len() > 0 {
        let c = text[0];
        let t = if (c as u32) < 128 && typed.len() < 30 { typed.push(c as u8) } else { typed };
        lemma_typed_text_len(t, text.drop_first());
    }
}

/// The field under the cursor.
fn current_of(s: &Screens) -> (r: Field)
    requires
        screens_ok(s@),
    ensures
        r == current_field(s@),
{
    let rows = rows(s.screen);
    proof {
        assert(rows@[s.row as int]@ == screen_rows(s.screen)[s.row as int]);
    }
    rows[s.row][s.col]
}

/// Enter on a field that moves between screens, reports or sets a flag.
#[verifier::spinoff_prover]
fn activate_plain(s: Screens, field: Field) -> (res: (Screens, Outcome))
    requires
        screens_ok(s@),
        field_ok(field),
        !steps(field),
        field != Field::ClearTabs && field != Field::SetTabs8 && field != Field::Ruler,
    ensures
        (res.0@, res.1) == plain_spec(s@, field),
        screens_ok(res.0@),
{
    let Screens { model, version, features, screen, row, col, tab_col, entry, message, clear_display, aligning } = s;
    let mut screen = screen;
    let mut row = row;
    let mut col = col;
    let mut message = message;
    let mut clear_display = clear_display;
    let mut aligning = aligning;
    let mut entry = entry;
    let mut outcome = Outcome::Redraw;
    match field {
        Field::Goto(t) => {
            screen = t;
            row = 0;
            col = 0;
        },
        Field::NextSetUp => {
            screen = screen.next();
            row = 0;
            col = 0;
        },
        Field::ToDirectory => {
            screen = Screen::Directory;
            row = 0;
            col = 0;
        },
        Field::Do(a) => outcome = Outcome::Action(a),
        Field::ClearDisplay => {
            clear_display = true;
            message = Some("Done");
        },
        Field::Exit => outcome = Outcome::Exit,
        Field::ScreenAlign => aligning = true,
        Field::EnableSessions | Field::DisableSessions => message = Some("Sessions not selected"),
        Field::Answerback => entry = Some(Vec::new()),
        _ => message = Some("Not available"),
    }
    proof {
        lemma_rows_exist(screen);
        lemma_rows_ok(screen, 0);
    }
    (Screens { model, version, features, screen, row, col, tab_col, entry, message, clear_display, aligning }, outcome)
}

/// The ruler's tab stops with the one at column `c` flipped, but for the
/// first column.
fn toggled(tabs: &Vec<bool>, c: usize) -> (r: Vec<bool>)
    ensures
        r@ == (if c > 0 && c < tabs@.len() { tabs@.update(c as int, !tabs@[c as int]) } else { tabs@ }),
{
    let mut t = copy_bools(tabs);
    if c > 0 && c < t.len() {
        let b = !t[c];
        t.set(c, b);
    }
    t
}

/// No tab stops over as many columns.
fn cleared(tabs: &Vec<bool>) -> (r: Vec<bool>)
    ensures
        r@ == Seq::new(tabs@.len(), |i: int| false),
{
    let n = tabs.len();
    let mut t: Vec<bool> = Vec::new();
    let mut i: usize = 0;
    while i < n
        invariant
            i <= n,
            t@ == Seq::new(i as nat, |j: int| false),
        decreases n - i,
    {
        t.push(false);
        i = i + 1;
        assert(t@ =~= Seq::new(i as nat, |j: int| false));
    }
    t
}

/// Enter on a tab field.
#[verifier::spinoff_prover]
fn activate_tabs(s: Screens, field: Field) -> (res: (Screens, Outcome))
    requires
        screens_ok(s@),
        field == Field::ClearTabs || field == Field::SetTabs8 || field == Field::Ruler,
    ensures
        res.0@ == tabs_spec(s@, field),
        res.1 == Outcome::Redraw,
        screens_ok(res.0@),
{
    proof {
        lemma_features_view(s.features);
    }
    let tabs = if field == Field::ClearTabs {
        cleared(&s.features.tabs)
    } else if field == Field::SetTabs8 {
        default_tabs(if s.features.columns_132 { 132 } else { 80 })
    } else {
        toggled(&s.features.tabs, s.tab_col)
    };
    proof {
        lemma_with_keeps(features_view(s.features), tabs@, Seq::empty());
    }
    let mut s = s;
    set_tabs_of(&mut s.features, tabs);
    (s, Outcome::Redraw)
}

/// Enter on a feature field: the feature steps, or "Not available".
#[verifier::spinoff_prover]
fn activate_feature(s: Screens, field: Field) -> (res: (Screens, Outcome))
    requires
        screens_ok(s@),
        field_ok(field),
        steps(field),
    ensures
        res.0@ == feature_spec(s@, field),
        res.1 == Outcome::Redraw,
        screens_ok(res.0@),
{
    proof {
        lemma_cycle_keeps(field, s@.features, s@.model);
        lemma_features_view(s.features);
    }
    let mut s = s;
    let model = s.model;
    let stepped = cycle(field, &mut s.features, model);
    proof {
        lemma_features_view(s.features);
    }
    if !stepped {
        s.message = Some("Not available");
    }
    (s, Outcome::Redraw)
}

fn steps_of(field: Field) -> (r: bool)
    ensures
        r == steps(field),
{
    match field {
        Field::Goto(..) | Field::NextSetUp | Field::ToDirectory | Field::Do(..) | Field::ClearDisplay
        | Field::Language | Field::EnableSessions | Field::DisableSessions | Field::Exit | Field::ScreenAlign
        | Field::Answerback | Field::ModemHigh | Field::ModemLow | Field::ClearTabs | Field::SetTabs8
        | Field::Ruler => false,
        _ => true,
    }
}

/// Enter on the field under the cursor.
fn activate(s: Screens, field: Field) -> (res: (Screens, Outcome))
    requires
        screens_ok(s@),
        field == current_field(s@),
    ensures
        (res.0@, res.1) == activate_spec(s@, field),
        screens_ok(res.0@),
{
    proof {
        lemma_rows_ok(s@.screen, s@.row as int);
    }
    if field == Field::ClearTabs || field == Field::SetTabs8 || field == Field::Ruler {
        activate_tabs(s, field)
    } else if steps_of(field) {
        activate_feature(s, field)
    } else {
        activate_plain(s, field)
    }
}

/// A key while an answerback message is being typed.
#[verifier::spinoff_prover]
fn entry_input(s: Screens, input: Input) -> (r: Screens)
    requires
        screens_ok(s@),
        s@.entry is Some,
    ensures
        r@ == entry_spec(s@, s@.entry->0, input),
        screens_ok(r@),
{
    let Screens { model, version, features, screen, row, col, tab_col, entry, message, clear_display, aligning } = s;
    let mut typed = match entry {
        Some(t) => t,
        None => Vec::new(),
    };
    let mut features = features;
    let entry = match input {
        Input::Enter => {
            proof {
                lemma_with_keeps(features_view(features), Seq::empty(), typed@);
            }
            take_answerback(&mut features, typed);
            None
        },
        Input::SetUp => None,
        Input::Backspace => {
            typed.pop();
            Some(typed)
        },
        Input::Text(text) => {
            proof {
                lemma_typed_text_len(typed@, text@);
            }
            Some(add_typed(typed, text.as_str()))
        },
        Input::Tab => {
            if typed.len() < 30 {
                typed.push(9);
            }
            Some(typed)
        },
        _ => Some(typed),
    };
    Screens { model, version, features, screen, row, col, tab_col, entry, message, clear_display, aligning }
}

fn tabs_ref(f: &Features) -> (r: &Vec<bool>)
    ensures
        r@ == features_view(*f).layout.tabs,
{
    proof {
        lemma_features_view(*f);
    }
    &f.tabs
}

fn wide_of(f: &Features) -> (r: bool)
    ensures
        r == features_view(*f).display.columns_132,
{
    proof {
        lemma_features_view(*f);
    }
    f.columns_132
}

/// Column where each field of a row starts.
fn positions_of(row: &Vec<Field>, f: &Features, model: Model) -> (r: Vec<usize>)
    requires
        row_ok(row@),
        shown_ok(features_view(*f)),
    ensures
        r@.len() == row@.len(),
        forall|i: int| 0 <= i < row@.len() ==> r@[i] == position_spec(row@, features_view(*f), model, i as nat),
{
    proof {
        lemma_features_view(*f);
    }
    positions(row, f, model)
}

/// A key that moves the cursor along a row or the tab ruler.
#[verifier::spinoff_prover]
fn move_along(s: Screens, input: Input) -> (res: (Screens, Outcome))
    requires
        screens_ok(s@),
        input is Left || input is Right || input is Tab,
    ensures
        (res.0@, res.1) == move_spec(s@, input),
        screens_ok(res.0@),
{
    let rows = rows(s.screen);
    proof {
        lemma_rows_ok(s.screen, s.row as int);
        assert(rows@[s.row as int]@ == screen_rows(s.screen)[s.row as int]);
    }
    let field = current_of(&s);
    let cols: usize = if wide_of(&s.features) { 132 } else { 80 };
    let len = rows[s.row].len();
    let nrows = rows.len();
    proof {
        assert(rows_view(rows@).len() == rows@.len());
        lemma_next_stop(s@.features.layout.tabs, (s.tab_col + 1) as nat, cols as nat);
    }
    let Screens { model, version, features, screen, row, col, tab_col, entry, message, clear_display, aligning } = s;
    let mut row = row;
    let mut col = col;
    let mut tab_col = tab_col;
    if field == Field::Ruler {
        tab_col = match input {
            Input::Left => (tab_col + cols - 1) % cols,
            Input::Right => (tab_col + 1) % cols,
            _ => next_stop_of(tabs_ref(&features), tab_col + 1, cols),
        };
    } else {
        match input {
            Input::Left => {
                if col > 0 {
                    col = col - 1;
                }
            },
            Input::Right => {
                col = if col + 1 < len { col + 1 } else { len - 1 };
            },
            _ => {
                if col + 1 >= len {
                    col = 0;
                    row = (row + 1) % nrows;
                    proof {
                        lemma_rows_ok(screen, row as int);
                    }
                } else {
                    col = col + 1;
                }
            },
        }
    }
    (Screens { model, version, features, screen, row, col, tab_col, entry, message, clear_display, aligning }, Outcome::Redraw)
}

/// Up or Down: to the field of the row above or below nearest to where
/// the cursor was.
#[verifier::spinoff_prover]
fn move_across(s: Screens, up: bool) -> (res: (Screens, Outcome))
    requires
        screens_ok(s@),
    ensures
        (res.0@, res.1) == move_spec(s@, if up { Input::Up } else { Input::Down }),
        screens_ok(res.0@),
{
    let rows = rows(s.screen);
    let ghost srows = screen_rows(s.screen);
    proof {
        assert(rows_view(rows@).len() == rows@.len());
        lemma_rows_exist(s.screen);
    }
    if (up && s.row == 0) || (!up && s.row >= rows.len() - 1) {
        return (s, Outcome::Redraw);
    }
    let target: usize = if up { s.row - 1 } else { s.row + 1 };
    proof {
        lemma_rows_ok(s.screen, s.row as int);
        lemma_rows_ok(s.screen, target as int);
        assert(rows@[s.row as int]@ == srows[s.row as int]);
        assert(rows@[target as int]@ == srows[target as int]);
    }
    let here = positions_of(&rows[s.row], &s.features, s.model);
    let there = positions_of(&rows[target], &s.features, s.model);
    let x = here[s.col];
    let c = closest_of(&there, x);
    proof {
        assert(there@.map_values(|p: usize| p as nat) =~= row_positions(srows[target as int], s@.features, s@.model));
        assert(x as nat == row_positions(srows[s.row as int], s@.features, s@.model)[s.col as int]);
    }
    let Screens { model, version, features, screen, row, col, tab_col, entry, message, clear_display, aligning } = s;
    (Screens { model, version, features, screen, row: target, col: c, tab_col, entry, message, clear_display, aligning }, Outcome::Redraw)
}

/// A key on a screen.
fn move_input(s: Screens, input: Input) -> (res: (Screens, Outcome))
    requires
        screens_ok(s@),
    ensures
        (res.0@, res.1) == move_spec(s@, input),
        screens_ok(res.0@),
{
    match input {
        Input::SetUp => (s, Outcome::Exit),
        Input::Left | Input::Right | Input::Tab => move_along(s, input),
        Input::Up => move_across(s, true),
        Input::Down => move_across(s, false),
        Input::Enter => {
            let field = current_of(&s);
            activate(s, field)
        },
        Input::Backspace | Input::Text(_) => (s, Outcome::Redraw),
    }
}

/// The screens every key leaves in place while a new value is made.
fn placeholder() -> (r: Screens)
    ensures
        screens_ok(r@),
{
    Screens::new(Model::Vt100, "", Features::factory(Model::Vt100))
}

impl Screens {
    /// Handles a key. Every key clears the last message.
    pub fn input(&mut self, input: Input) -> (r: Outcome)
        requires
            screens_ok(old(self)@),
        ensures
            (final(self)@, r) == input_spec(old(self)@, input),
            screens_ok(final(self)@),
    {
        let mut s = placeholder();
        std::mem::swap(&mut s, self);
        s.message = None;
        if s.aligning {
            s.aligning = false;
            *self = s;
            return Outcome::Redraw;
        }
        if s.entry.is_some() {
            *self = entry_input(s, input);
            return Outcome::Redraw;
        }
        let (next, out) = move_input(s, input);
        *self = next;
        out
    }
}


/// The UTF-8 encoding of a character.
pub open spec fn utf8_char(c: char) -> Seq<u8> {
    let n = c as u32;
    if n < 0x80 {
        seq![n as u8]
    } else if n < 0x800 {
        seq![(0xC0 + n / 64) as u8, (0x80 + n % 64) as u8]
    } else if n < 0x10000 {
        seq![(0xE0 + n / 4096) as u8, (0x80 + (n / 64) % 64) as u8, (0x80 + n % 64) as u8]
    } else {
        seq![
            (0xF0 + n / 262144) as u8,
            (0x80 + (n / 4096) % 64) as u8,
            (0x80 + (n / 64) % 64) as u8,
            (0x80 + n % 64) as u8,
        ]
    }
}

/// The UTF-8 encoding of a text.
pub open spec fn utf8_text(s: Seq<char>) -> Seq<u8>
    decreases s.len(),
{
    if s.len() == 0 {
        Seq::empty()
    } else {
        utf8_text(s.drop_last()) + utf8_char(s.last())
    }
}

fn push_utf8(out: &mut Vec<u8>, c: char)
    ensures
        final(out)@ == old(out)@ + utf8_char(c),
{
    let n = c as u32;
    assert(n <= 0x10FFFF);
    if n < 0x80 {
        out.push(n as u8);
    } else if n < 0x800 {
        out.push((0xC0 + n / 64) as u8);
        out.push((0x80 + n % 64) as u8);
    } else if n < 0x10000 {
        out.push((0xE0 + n / 4096) as u8);
        out.push((0x80 + (n / 64) % 64) as u8);
        out.push((0x80 + n % 64) as u8);
    } else {
        out.push((0xF0 + n / 262144) as u8);
        out.push((0x80 + (n / 4096) % 64) as u8);
        out.push((0x80 + (n / 64) % 64) as u8);
        out.push((0x80 + n % 64) as u8);
    }
    assert(out@ =~= old(out)@ + utf8_char(c));
}

/// The UTF-8 encoding of a text.
pub(crate) fn utf8_of(s: &Vec<char>) -> (r: Vec<u8>)
    ensures
        r@ == utf8_text(s@),
{
    let mut out: Vec<u8> = Vec::new();
    let mut i: usize = 0;
    while i < s.len()
        invariant
            i <= s@.len(),
            out@ == utf8_text(s@.subrange(0, i as int)),
        decreases s@.len() - i,
    {
        let ghost pre = s@.subrange(0, i + 1);
        proof {
            assert(pre.drop_last() =~= s@.subrange(0, i as int));
            assert(pre.last() == s@[i as int]);
        }
        push_utf8(&mut out, s[i]);
        i = i + 1;
    }
    assert(s@.subrange(0, i as int) =~= s@);
    out
}

/// Control characters and bytes past ASCII of an answerback message shown
/// as `·`.
pub open spec fn printable(data: Seq<u8>) -> Seq<char> {
    data.map_values(|b: u8| if 0x20 <= b < 0x7F { b as char } else { '\u{b7}' })
}

pub(crate) fn printable_of(data: &Vec<u8>) -> (r: Vec<char>)
    ensures
        r@ == printable(data@),
{
    let mut out: Vec<char> = Vec::new();
    let mut i: usize = 0;
    while i < data.len()
        invariant
            i <= data@.len(),
            out@ == printable(data@.subrange(0, i as int)),
        decreases data@.len() - i,
    {
        let b = data[i];
        out.push(if 0x20 <= b && b < 0x7F { b as char } else { '\u{b7}' });
        i = i + 1;
        assert(out@ =~= printable(data@.subrange(0, i as int)));
    }
    assert(data@.subrange(0, i as int) =~= data@);
    out
}

/// Cursor position `line`, `col` (1-based): `CSI line ; col H`.
pub open spec fn goto_text(line: nat, col: nat) -> Seq<char> {
    "\x1b["@ + dec(line) + ";"@ + dec(col) + "H"@
}

pub(crate) fn push_goto(out: &mut Vec<char>, line: u64, col: u64)
    ensures
        final(out)@ == old(out)@ + goto_text(line as nat, col as nat),
{
    push_str(out, "\x1b[");
    push_dec(out, line);
    push_str(out, ";");
    push_dec(out, col);
    push_str(out, "H");
    assert(out@ =~= old(out)@ + goto_text(line as nat, col as nat));
}

/// Screen line of each field row (rows are two lines apart).
pub open spec fn row_line(row: nat) -> nat {
    3 + 2 * row
}

/// The digit of a number's last place.
pub open spec fn last_digit(n: nat) -> char {
    ((n % 10) + 48) as char
}

/// One column of the tab ruler: `T` for a stop, or a blank, on `line`,
/// reversed when selected, and the column's last digit below.
pub open spec fn ruler_column(tabs: Seq<bool>, line: nat, c: nat, selected: bool) -> Seq<char> {
    let tab = c < tabs.len() && tabs[c as int];
    goto_text(line, c + 1) + (if selected { "\x1b[7m"@ } else { Seq::empty() }) + seq![if tab { 'T' } else { ' ' }]
        + "\x1b[m"@ + goto_text(line + 1, c + 1) + seq![last_digit(c + 1)]
}

/// The first `n` columns of the tab ruler.
pub open spec fn ruler_text(tabs: Seq<bool>, line: nat, active: bool, tab_col: nat, n: nat) -> Seq<char>
    decreases n,
{
    if n == 0 {
        Seq::empty()
    } else {
        ruler_text(tabs, line, active, tab_col, (n - 1) as nat) + ruler_column(
            tabs,
            line,
            (n - 1) as nat,
            active && (n - 1) as nat == tab_col,
        )
    }
}

/// One field of a row: its text where it starts, reversed when the cursor
/// is on it; nothing when it would run past the line.
pub open spec fn field_text(v: ScreensView, r: nat, c: nat) -> Seq<char> {
    let row = screen_rows(v.screen)[r as int];
    let x = position_spec(row, v.features, v.model, c);
    let text = label_text(row[c as int], v.features, v.model);
    if x + utf8_text(text).len() > cols_of(v.features) {
        Seq::empty()
    } else {
        goto_text(row_line(r), x + 1) + (if r == v.row && c == v.col { "\x1b[7m"@ } else { Seq::empty() }) + text
            + "\x1b[m"@
    }
}

/// The first `n` fields of row `r`.
pub open spec fn fields_text(v: ScreensView, r: nat, n: nat) -> Seq<char>
    decreases n,
{
    if n == 0 {
        Seq::empty()
    } else {
        fields_text(v, r, (n - 1) as nat) + field_text(v, r, (n - 1) as nat)
    }
}

/// Row `r`: the tab ruler two lines down, or its fields.
pub open spec fn row_text(v: ScreensView, r: nat) -> Seq<char> {
    let row = screen_rows(v.screen)[r as int];
    if row[0] == Field::Ruler {
        ruler_text(v.features.layout.tabs, row_line(r) + 2, r == v.row, v.tab_col, cols_of(v.features))
    } else {
        fields_text(v, r, row.len())
    }
}

/// The first `n` rows.
pub open spec fn rows_text(v: ScreensView, n: nat) -> Seq<char>
    decreases n,
{
    if n == 0 {
        Seq::empty()
    } else {
        rows_text(v, (n - 1) as nat) + row_text(v, (n - 1) as nat)
    }
}

/// Blanks.
pub open spec fn blanks(n: nat) -> Seq<char> {
    Seq::new(n, |i: int| ' ')
}

/// The title line: the screen's title and, at the right of the double-width
/// line, the model and version underlined.
pub open spec fn title_text(v: ScreensView) -> Seq<char> {
    let model = ascii_upper(exact_name(v.model)) + " V"@ + v.version;
    let half = cols_of(v.features) / 2;
    let title = screen_title(v.screen);
    let used = utf8_text(title).len() + utf8_text(model).len() + 1;
    let gap: nat = if half > used { (half - used) as nat } else { 0 };
    "\x1b[1;1H\x1b#6\x1b[1m"@ + title + blanks(gap) + "\x1b[4m"@ + model + "\x1b[m"@
}

/// The bottom line: the answerback being typed, the last message, or the
/// answerback message under the cursor on the Communications screen
/// unless concealed.
pub open spec fn bottom_text(v: ScreensView) -> Seq<char> {
    match v.entry {
        Some(typed) => "\x1b[24;3HAnswerback="@ + printable(typed) + "_"@,
        None => match v.message {
            Some(m) => "\x1b[24;3H\x1b[1m"@ + m + "\x1b[m"@,
            None => if v.screen == Screen::Communications && current_field(v) == Field::Answerback
                && !v.features.modem.conceal_answerback && v.features.modem.answerback.len() > 0 {
                "\x1b[24;3HAnswerback="@ + printable(v.features.modem.answerback)
            } else {
                Seq::empty()
            },
        },
    }
}

/// The Set-Up screen as terminal output for a blank 24-line terminal of
/// the session's width, as characters. The status line is left to the
/// caller.
pub open spec fn render_text(v: ScreensView) -> Seq<char> {
    let start = "\x1b[?7l\x1b[?25l\x1b[H\x1b[2J"@;
    if v.aligning {
        start + "\x1b#8"@
    } else {
        let rows = screen_rows(v.screen);
        start + title_text(v) + rows_text(v, rows.len()) + (if v.screen == Screen::Directory {
            goto_text(row_line(rows.len()), 3) + "veetee "@ + v.version
                + " - free software under the MIT or Apache-2.0 licence"@
        } else {
            Seq::empty()
        }) + (if v.screen == Screen::Printer {
            goto_text(row_line(2), 3) + "Print jobs go to a PDF or a printer, chosen in the window menu."@
        } else {
            Seq::empty()
        }) + bottom_text(v)
    }
}

fn utf8_len(s: &Vec<char>) -> (r: usize)
    ensures
        r == utf8_text(s@).len(),
{
    utf8_of(s).len()
}

fn label_of(field: Field, f: &Features, model: Model) -> (r: Vec<char>)
    requires
        field_ok(field),
        features_ok(features_view(*f)),
    ensures
        r@ == label_text(field, features_view(*f), model),
{
    proof {
        lemma_features_view(*f);
    }
    label(field, f, model)
}

fn ruler_column_of(tabs: &Vec<bool>, line: u64, c: usize, selected: bool) -> (r: Vec<char>)
    requires
        line < 1000,
        c < 132,
    ensures
        r@ == ruler_column(tabs@, line as nat, c as nat, selected),
{
    let mut out: Vec<char> = Vec::new();
    push_goto(&mut out, line, (c + 1) as u64);
    if selected {
        push_str(&mut out, "\x1b[7m");
    }
    let tab = c < tabs.len() && tabs[c];
    out.push(if tab { 'T' } else { ' ' });
    push_str(&mut out, "\x1b[m");
    push_goto(&mut out, line + 1, (c + 1) as u64);
    out.push(char_from_digit(((c + 1) % 10) as u32));
    assert(out@ =~= ruler_column(tabs@, line as nat, c as nat, selected));
    out
}

fn push_ruler(out: &mut Vec<char>, tabs: &Vec<bool>, line: u64, active: bool, tab_col: usize, cols: usize)
    requires
        line < 1000,
        cols <= 132,
    ensures
        final(out)@ == old(out)@ + ruler_text(tabs@, line as nat, active, tab_col as nat, cols as nat),
{
    let mut c: usize = 0;
    while c < cols
        invariant
            c <= cols <= 132,
            line < 1000,
            out@ == old(out)@ + ruler_text(tabs@, line as nat, active, tab_col as nat, c as nat),
        decreases cols - c,
    {
        let piece = ruler_column_of(tabs, line, c, active && c == tab_col);
        crate::text::push_all(out, piece.as_slice());
        proof {
            assert(ruler_text(tabs@, line as nat, active, tab_col as nat, (c + 1) as nat) == ruler_text(
                tabs@,
                line as nat,
                active,
                tab_col as nat,
                c as nat,
            ) + piece@);
            assert(out@ =~= old(out)@ + ruler_text(tabs@, line as nat, active, tab_col as nat, (c + 1) as nat));
        }
        c = c + 1;
    }
}

fn field_piece_of(s: &Screens, r: usize, row: &Vec<Field>, c: usize, x: usize, cols: usize) -> (res: Vec<char>)
    requires
        screens_ok(s@),
        r < 5,
        row@ == screen_rows(s@.screen)[r as int],
        row_ok(row@),
        c < row@.len(),
        x == position_spec(row@, s@.features, s@.model, c as nat),
        cols == cols_of(s@.features),
    ensures
        res@ == field_text(s@, r as nat, c as nat),
{
    proof {
        assert(field_ok(row@[c as int]));
    }
    let text = label_of(row[c], &s.features, s.model);
    let len = utf8_len(&text);
    let mut out: Vec<char> = Vec::new();
    if x <= cols && len <= cols - x {
        push_goto(&mut out, 3 + 2 * (r as u64), (x + 1) as u64);
        if r == s.row && c == s.col {
            push_str(&mut out, "\x1b[7m");
        }
        crate::text::push_all(&mut out, text.as_slice());
        push_str(&mut out, "\x1b[m");
    }
    assert(out@ =~= field_text(s@, r as nat, c as nat));
    out
}

fn push_fields(out: &mut Vec<char>, s: &Screens, r: usize, row: &Vec<Field>)
    requires
        screens_ok(s@),
        r < screen_rows(s@.screen).len(),
        row@ == screen_rows(s@.screen)[r as int],
        row_ok(row@),
    ensures
        final(out)@ == old(out)@ + fields_text(s@, r as nat, row@.len()),
{
    proof {
        lemma_rows_exist(s@.screen);
    }
    let xs = positions_of(row, &s.features, s.model);
    let cols: usize = if wide_of(&s.features) { 132 } else { 80 };
    let mut c: usize = 0;
    while c < row.len()
        invariant
            c <= row@.len(),
            screens_ok(s@),
            r < 5,
            cols == cols_of(s@.features),
            row@ == screen_rows(s@.screen)[r as int],
            row_ok(row@),
            xs@.len() == row@.len(),
            forall|i: int| 0 <= i < row@.len() ==> xs@[i] == position_spec(row@, s@.features, s@.model, i as nat),
            out@ == old(out)@ + fields_text(s@, r as nat, c as nat),
        decreases row@.len() - c,
    {
        let piece = field_piece_of(s, r, row, c, xs[c], cols);
        crate::text::push_all(out, piece.as_slice());
        proof {
            assert(fields_text(s@, r as nat, (c + 1) as nat) == fields_text(s@, r as nat, c as nat) + piece@);
            assert(out@ =~= old(out)@ + fields_text(s@, r as nat, (c + 1) as nat));
        }
        c = c + 1;
    }
}

fn push_title(out: &mut Vec<char>, s: &Screens)
    requires
        screens_ok(s@),
    ensures
        final(out)@ == old(out)@ + title_text(s@),
{
    let cols: usize = if wide_of(&s.features) { 132 } else { 80 };
    let name = s.model.setup_name();
    let mut model = str_chars(name.as_str());
    push_str(&mut model, " V");
    push_str(&mut model, s.version.as_str());
    let title = str_chars(s.screen.title());
    let half = cols / 2;
    let used = utf8_len(&title).saturating_add(utf8_len(&model)).saturating_add(1);
    let gap: usize = if half > used { half - used } else { 0 };
    let ghost start = out@;
    push_str(out, "\x1b[1;1H\x1b#6\x1b[1m");
    crate::text::push_all(out, title.as_slice());
    let mut i: usize = 0;
    while i < gap
        invariant
            i <= gap,
            out@ == start + "\x1b[1;1H\x1b#6\x1b[1m"@ + title@ + blanks(i as nat),
        decreases gap - i,
    {
        out.push(' ');
        i = i + 1;
        assert(out@ =~= start + "\x1b[1;1H\x1b#6\x1b[1m"@ + title@ + blanks(i as nat));
    }
    push_str(out, "\x1b[4m");
    crate::text::push_all(out, model.as_slice());
    push_str(out, "\x1b[m");
    assert(out@ =~= start + title_text(s@));
}

#[verifier::spinoff_prover]
#[verifier::rlimit(40)]
fn push_rows(out: &mut Vec<char>, s: &Screens)
    requires
        screens_ok(s@),
    ensures
        final(out)@ == old(out)@ + rows_text(s@, screen_rows(s@.screen).len()),
{
    let cols: usize = if wide_of(&s.features) { 132 } else { 80 };
    let rows = rows(s.screen);
    proof {
        assert(rows_view(rows@).len() == rows@.len());
        lemma_rows_exist(s.screen);
    }
    let ghost start = out@;
    let mut r: usize = 0;
    while r < rows.len()
        invariant
            r <= rows@.len(),
            screens_ok(s@),
            rows_view(rows@) == screen_rows(s@.screen),
            rows@.len() == screen_rows(s@.screen).len(),
            rows@.len() <= 5,
            cols == cols_of(s@.features),
            out@ == start + rows_text(s@, r as nat),
        decreases rows@.len() - r,
    {
        let ghost before = out@;
        proof {
            lemma_rows_ok(s.screen, r as int);
            assert(rows@[r as int]@ == screen_rows(s@.screen)[r as int]);
        }
        if rows[r][0] == Field::Ruler {
            push_ruler(out, tabs_ref(&s.features), 5 + 2 * (r as u64), r == s.row, s.tab_col, cols);
        } else {
            push_fields(out, s, r, &rows[r]);
        }
        proof {
            assert(out@ =~= before + row_text(s@, r as nat));
        }
        r = r + 1;
    }
}

fn push_notes(out: &mut Vec<char>, s: &Screens)
    requires
        screens_ok(s@),
    ensures
        final(out)@ == old(out)@ + (if s@.screen == Screen::Directory {
            goto_text(row_line(screen_rows(s@.screen).len()), 3) + "veetee "@ + s@.version
                + " - free software under the MIT or Apache-2.0 licence"@
        } else {
            Seq::empty()
        }) + (if s@.screen == Screen::Printer {
            goto_text(row_line(2), 3) + "Print jobs go to a PDF or a printer, chosen in the window menu."@
        } else {
            Seq::empty()
        }),
{
    let ghost start = out@;
    let rows = rows(s.screen);
    proof {
        assert(rows_view(rows@).len() == rows@.len());
        lemma_rows_exist(s.screen);
    }
    if s.screen == Screen::Directory {
        push_goto(out, 3 + 2 * (rows.len() as u64), 3);
        push_str(out, "veetee ");
        push_str(out, s.version.as_str());
        push_str(out, " - free software under the MIT or Apache-2.0 licence");
    }
    let ghost mid = out@;
    if s.screen == Screen::Printer {
        push_goto(out, 7, 3);
        push_str(out, "Print jobs go to a PDF or a printer, chosen in the window menu.");
    }
    assert(out@ =~= start + (mid.subrange(start.len() as int, mid.len() as int)) + out@.subrange(mid.len() as int, out@.len() as int));
}

fn push_bottom(out: &mut Vec<char>, s: &Screens)
    requires
        screens_ok(s@),
    ensures
        final(out)@ == old(out)@ + bottom_text(s@),
{
    let ghost start = out@;
    match &s.entry {
        Some(typed) => {
            // An answerback message is typed on the bottom line (VT420 table 5-5).
            push_str(out, "\x1b[24;3HAnswerback=");
            let p = printable_of(typed);
            crate::text::push_all(out, p.as_slice());
            push_str(out, "_");
        },
        None => match s.message {
            Some(m) => {
                push_str(out, "\x1b[24;3H\x1b[1m");
                push_str(out, m);
                push_str(out, "\x1b[m");
            },
            None => {
                let ab = answerback_ref(&s.features);
                if s.screen == Screen::Communications && current_of(s) == Field::Answerback
                    && !concealed_of(&s.features) && ab.len() > 0 {
                    push_str(out, "\x1b[24;3HAnswerback=");
                    let p = printable_of(ab);
                    crate::text::push_all(out, p.as_slice());
                }
            },
        },
    }
    assert(out@ =~= start + bottom_text(s@));
}

impl Screens {
    /// The Set-Up screen as terminal output for a blank 24-line terminal of
    /// the session's width. The status line is left to the caller.
    pub fn render(&self) -> (r: Vec<u8>)
        requires
            screens_ok(self@),
        ensures
            r@ == utf8_text(render_text(self@)),
    {
        let mut out: Vec<char> = Vec::new();
        push_str(&mut out, "\x1b[?7l\x1b[?25l\x1b[H\x1b[2J");
        if self.aligning {
            push_str(&mut out, "\x1b#8");
            return utf8_of(&out);
        }
        push_title(&mut out, self);
        push_rows(&mut out, self);
        push_notes(&mut out, self);
        push_bottom(&mut out, self);
        assert(out@ =~= render_text(self@));
        utf8_of(&out)
    }
}

fn answerback_ref(f: &Features) -> (r: &Vec<u8>)
    ensures
        r@ == features_view(*f).modem.answerback,
{
    proof {
        lemma_features_view(*f);
    }
    &f.answerback
}

fn concealed_of(f: &Features) -> (r: bool)
    ensures
        r == features_view(*f).modem.conceal_answerback,
{
    proof {
        lemma_features_view(*f);
    }
    f.conceal_answerback
}

} // verus!
