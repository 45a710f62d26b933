//! An open Set-Up: the VT420 screens or, for the VT500 series, the menus.

use vstd::prelude::*;
use crate::config::{max_level, Model};
use crate::setup::menus::{menus_initial, menus_input, menus_ok, menus_render, summary_line_text, Menus, MenusView};
use crate::setup::screens::{input_spec, render_text, screens_ok, screens_shape_ok, shown_ok, utf8_text, Screens, ScreensView, Screen};
use crate::setup::{Features, Input, Outcome};

verus! {

/// An open Set-Up: the VT420 screens or the VT500 menus, by model.
pub enum SetupMenu {
    Screens(Screens),
    Menus(Menus),
}

/// The Set-Up can take keys, whichever style it has.
pub open spec fn setup_ok(m: SetupMenu) -> bool {
    match m {
        SetupMenu::Screens(s) => screens_shape_ok(s@),
        SetupMenu::Menus(m) => menus_ok(m@),
    }
}

/// The features the Set-Up shows.
pub open spec fn setup_features(m: SetupMenu) -> crate::setup::FeaturesView {
    match m {
        SetupMenu::Screens(s) => s@.features,
        SetupMenu::Menus(m) => m@.features,
    }
}

/// The Set-Up's message, if any.
pub open spec fn setup_message(m: SetupMenu) -> Option<Seq<char>> {
    match m {
        SetupMenu::Screens(s) => s@.message,
        SetupMenu::Menus(m) => m@.message,
    }
}

/// Whether Clear Display was chosen.
pub open spec fn setup_clears(m: SetupMenu) -> bool {
    match m {
        SetupMenu::Screens(s) => s@.clear_display,
        SetupMenu::Menus(m) => m@.clear_display,
    }
}

/// Keys can be handled: the screens also need features they can show.
pub open spec fn setup_ready(m: SetupMenu) -> bool {
    match m {
        SetupMenu::Screens(s) => screens_ok(s@),
        SetupMenu::Menus(m) => menus_ok(m@),
    }
}

impl SetupMenu {
    /// Opens Set-Up for `model`: the menus for the VT500 series, the
    /// screens before it. `version` is the firmware version Set-Up shows.
    pub fn new(model: Model, version: &str, features: Features) -> (r: SetupMenu)
        ensures
            setup_ok(r),
            max_level(model) >= 5 ==> (r matches SetupMenu::Menus(m) && m@ == menus_initial(model, version@, features@)),
            max_level(model) < 5 ==> (r matches SetupMenu::Screens(s) && s@ == (ScreensView {
                model,
                version: version@,
                features: features@,
                screen: Screen::Directory,
                row: 0,
                col: 0,
                tab_col: 8,
                entry: None,
                message: None,
                clear_display: false,
                aligning: false,
            })),
    {
        if model.max_level() >= 5 {
            SetupMenu::Menus(Menus::new(model, version, features))
        } else {
            SetupMenu::Screens(Screens::new(model, version, features))
        }
    }

    /// The session Set-Up was opened in (1 or 2), shown by the VT500
    /// summary line.
    pub fn set_session(&mut self, session: u8)
        requires
            setup_ok(*old(self)),
        ensures
            setup_ok(*final(self)),
            match (*old(self), *final(self)) {
                (SetupMenu::Menus(a), SetupMenu::Menus(b)) => b@ == (MenusView { session, ..a@ }),
                (SetupMenu::Screens(a), SetupMenu::Screens(b)) => b@ == a@,
                _ => false,
            },
    {
        match self {
            SetupMenu::Menus(m) => m.set_session(session),
            SetupMenu::Screens(_) => {},
        }
    }

    pub fn features(&self) -> (r: &Features)
        ensures
            r@ == setup_features(*self),
    {
        match self {
            SetupMenu::Screens(m) => m.features(),
            SetupMenu::Menus(m) => m.features(),
        }
    }

    /// Replaces the features shown, after an action changed them.
    pub fn set_features(&mut self, features: Features)
        requires
            setup_ok(*old(self)),
        ensures
            setup_ok(*final(self)),
            match (*old(self), *final(self)) {
                (SetupMenu::Menus(a), SetupMenu::Menus(b)) => b@ == (MenusView { features: features@, ..a@ }),
                (SetupMenu::Screens(a), SetupMenu::Screens(b)) => b@ == (ScreensView { features: features@, ..a@ }),
                _ => false,
            },
    {
        match self {
            SetupMenu::Screens(m) => m.set_features(features),
            SetupMenu::Menus(m) => m.set_features(features),
        }
    }

    /// True if Clear Display was selected: clear the page on leaving.
    pub fn clear_display_on_exit(&self) -> (r: bool)
        ensures
            r == setup_clears(*self),
    {
        match self {
            SetupMenu::Screens(m) => m.clear_display_on_exit(),
            SetupMenu::Menus(m) => m.clear_display_on_exit(),
        }
    }

    /// The last status message ("Done"), until the next key.
    pub fn message(&self) -> (r: Option<&'static str>)
        ensures
            match r {
                Some(m) => setup_message(*self) == Some(m@),
                None => setup_message(*self) is None,
            },
    {
        match self {
            SetupMenu::Screens(m) => m.message(),
            SetupMenu::Menus(m) => m.message(),
        }
    }

    /// Reports that an action finished.
    pub fn done(&mut self)
        requires
            setup_ok(*old(self)),
        ensures
            setup_ok(*final(self)),
            match (*old(self), *final(self)) {
                (SetupMenu::Menus(a), SetupMenu::Menus(b)) => b@ == (MenusView { message: Some("Done"@), ..a@ }),
                (SetupMenu::Screens(a), SetupMenu::Screens(b)) => b@ == (ScreensView { message: Some("Done"@), ..a@ }),
                _ => false,
            },
    {
        match self {
            SetupMenu::Screens(m) => m.done(),
            SetupMenu::Menus(m) => m.done(),
        }
    }

    /// What the status line shows in Set-Up: `None` keeps the keyboard
    /// indicator line (VT420); the VT500s show the Set-Up summary line, or
    /// a message in its place.
    pub fn status_line(&self) -> (r: Option<String>)
        ensures
            match *self {
                SetupMenu::Screens(_) => r is None,
                SetupMenu::Menus(m) => r matches Some(t) && t@ == summary_line_text(m@),
            },
    {
        match self {
            SetupMenu::Screens(_) => None,
            SetupMenu::Menus(m) => Some(m.summary_line()),
        }
    }

    /// Handles a key.
    pub fn input(&mut self, input: Input) -> (r: Outcome)
        requires
            setup_ready(*old(self)),
        ensures
            setup_ready(*final(self)),
            match (*old(self), *final(self)) {
                (SetupMenu::Menus(a), SetupMenu::Menus(b)) => (b@, r) == menus_input(a@, input),
                (SetupMenu::Screens(a), SetupMenu::Screens(b)) => (b@, r) == input_spec(a@, input),
                _ => false,
            },
    {
        match self {
            SetupMenu::Screens(m) => m.input(input),
            SetupMenu::Menus(m) => m.input(input),
        }
    }

    /// Set-Up as terminal output for a blank 24-line terminal of the
    /// session's width, with UTF-8 and dim text for the VT500 menus.
    pub fn render(&self) -> (r: Vec<u8>)
        requires
            setup_ready(*self),
        ensures
            match *self {
                SetupMenu::Screens(s) => r@ == utf8_text(render_text(s@)),
                SetupMenu::Menus(m) => r@ == menus_render(m@),
            },
    {
        match self {
            SetupMenu::Screens(m) => m.render(),
            SetupMenu::Menus(m) => m.render(),
        }
    }
}

} // verus!
