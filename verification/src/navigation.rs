//! Screen navigation of the device UI: a bounded history of the screens the
//! user came from, and what each button press loads.

use vstd::prelude::*;

verus! {

/// Depth of the navigation history.
pub const NAV_STACK_SIZE: usize = 10;

/// Screens of the device UI.
#[derive(Debug, Clone, Copy, PartialEq, Eq, Structural)]
pub enum Screen {
    Home,
    Ams,
    Encode,
    Catalog,
    Settings,
    Settings2,
    ScaleCalibration,
    NfcReader,
    DisplayBrightness,
    About,
    ScanResult,
    SpoolDetail,
    AdvancedSettings,
    WifiSettings,
    BackendSettings,
    AddPrinter,
}

/// Buttons that move between screens.
#[derive(Debug, Clone, Copy, PartialEq, Eq, Structural)]
pub enum NavButton {
    AmsSetup,
    EncodeTag,
    Catalog,
    Settings,
    Back,
    BackToSettings,
    BackToSettings2,
    Settings2,
    ScaleCalibration,
    NfcReader,
    DisplayBrightness,
    AdvancedSettings,
    About,
    WifiSettings,
    BackendSettings,
    AddPrinter,
}

/// Abstract navigation state: the history (oldest first), the screen on
/// display, and the main-section code (0 = Home, 1 = AMS, 2 = Encode,
/// 3 = Catalog, 4 = Settings).
pub struct NavView {
    pub history: Seq<Screen>,
    pub active: Screen,
    pub section: u8,
}

/// The history after remembering `screen`: a full history stays as it is.
pub open spec fn history_push(history: Seq<Screen>, screen: Screen) -> Seq<Screen> {
    if history.len() < NAV_STACK_SIZE {
        history.push(screen)
    } else {
        history
    }
}

/// The history after taking the most recent screen, and that screen; an
/// empty history gives Home.
pub open spec fn history_pop(history: Seq<Screen>) -> (Seq<Screen>, Screen) {
    if history.len() > 0 {
        (history.drop_last(), history.last())
    } else {
        (history, Screen::Home)
    }
}

/// Going to `target`: the screen on display is remembered unless it already
/// is the target.
pub open spec fn navigate_to_spec(v: NavView, target: Screen) -> NavView {
    NavView {
        history: if v.active != target {
            history_push(v.history, v.active)
        } else {
            v.history
        },
        active: target,
        section: v.section,
    }
}

/// Going back to the most recent screen of the history (Home when empty).
pub open spec fn navigate_back_spec(v: NavView) -> NavView {
    NavView { history: history_pop(v.history).0, active: history_pop(v.history).1, section: v.section }
}

/// Where a button leads: `None` for the back buttons.
pub open spec fn button_target(button: NavButton) -> Option<Screen> {
    match button {
        NavButton::AmsSetup => Some(Screen::Ams),
        NavButton::EncodeTag => Some(Screen::Encode),
        NavButton::Catalog => Some(Screen::Catalog),
        NavButton::Settings => Some(Screen::Settings),
        NavButton::Back | NavButton::BackToSettings | NavButton::BackToSettings2 => None,
        NavButton::Settings2 => Some(Screen::Settings2),
        NavButton::ScaleCalibration => Some(Screen::ScaleCalibration),
        NavButton::NfcReader => Some(Screen::NfcReader),
        NavButton::DisplayBrightness => Some(Screen::DisplayBrightness),
        NavButton::AdvancedSettings => Some(Screen::AdvancedSettings),
        NavButton::About => Some(Screen::About),
        NavButton::WifiSettings => Some(Screen::WifiSettings),
        NavButton::BackendSettings => Some(Screen::BackendSettings),
        NavButton::AddPrinter => Some(Screen::AddPrinter),
    }
}

/// The main-section code a button sets, if it sets one.
pub open spec fn button_section(button: NavButton) -> Option<u8> {
    match button {
        NavButton::AmsSetup => Some(1u8),
        NavButton::EncodeTag => Some(2u8),
        NavButton::Catalog => Some(3u8),
        NavButton::Settings => Some(4u8),
        _ => None,
    }
}

/// The state after a button press.
pub open spec fn press_spec(v: NavView, button: NavButton) -> NavView {
    let moved = match button_target(button) {
        Some(target) => navigate_to_spec(v, target),
        None => navigate_back_spec(v),
    };
    NavView {
        history: moved.history,
        active: moved.active,
        section: match button_section(button) {
            Some(code) => code,
            None => v.section,
        },
    }
}

/// Navigation state of the device UI.
pub struct Navigator {
    history: Vec<Screen>,
    active: Screen,
    section: u8,
}

impl View for Navigator {
    type V = NavView;

    closed spec fn view(&self) -> NavView {
        NavView { history: self.history@, active: self.active, section: self.section }
    }
}

impl Navigator {
    /// The history never holds more than `NAV_STACK_SIZE` screens.
    pub closed spec fn wf(&self) -> bool {
        self.history@.len() <= NAV_STACK_SIZE
    }

    /// A well-formed navigator remembers at most `NAV_STACK_SIZE` screens.
    pub proof fn lemma_wf_bounds_history(&self)
        requires
            self.wf(),
        ensures
            self@.history.len() <= NAV_STACK_SIZE,
    {
    }

    /// Home on display, nothing in the history.
    pub fn new() -> (nav: Self)
        ensures
            nav.wf(),
            nav@.history == Seq::<Screen>::empty(),
            nav@.active == Screen::Home,
            nav@.section == 0,
    {
        let nav = Navigator { history: Vec::new(), active: Screen::Home, section: 0 };
        assert(nav@.history =~= Seq::<Screen>::empty());
        nav
    }

    /// The screen on display.
    pub fn active(&self) -> (s: Screen)
        ensures
            s == self@.active,
    {
        self.active
    }

    /// The main-section code (0 = Home, 1 = AMS, 2 = Encode, 3 = Catalog,
    /// 4 = Settings).
    pub fn current_screen(&self) -> (code: u8)
        ensures
            code == self@.section,
    {
        self.section
    }

    /// Number of screens in the history.
    pub fn depth(&self) -> (n: usize)
        ensures
            n == self@.history.len(),
            self.wf() ==> n <= NAV_STACK_SIZE,
    {
        self.history.len()
    }

    /// Remembers `screen` in the history; a full history is left unchanged.
    pub fn nav_push(&mut self, screen: Screen)
        requires
            old(self).wf(),
        ensures
            final(self).wf(),
            final(self)@ == (NavView {
                history: history_push(old(self)@.history, screen),
                active: old(self)@.active,
                section: old(self)@.section,
            }),
    {
        if self.history.len() < NAV_STACK_SIZE {
            self.history.push(screen);
        }
    }

    /// Takes the most recent screen from the history; Home when it is empty.
    pub fn nav_pop(&mut self) -> (screen: Screen)
        requires
            old(self).wf(),
        ensures
            final(self).wf(),
            screen == history_pop(old(self)@.history).1,
            final(self)@ == (NavView {
                history: history_pop(old(self)@.history).0,
                active: old(self)@.active,
                section: old(self)@.section,
            }),
    {
        match self.history.pop() {
            Some(screen) => screen,
            None => Screen::Home,
        }
    }

    /// Goes to `target`, remembering the screen on display unless it already
    /// is the target. Returns the screen to load.
    pub fn navigate_to(&mut self, target: Screen) -> (load: Screen)
        requires
            old(self).wf(),
        ensures
            final(self).wf(),
            load == target,
            final(self)@ == navigate_to_spec(old(self)@, target),
    {
        let current = self.active;
        if current != target {
            self.nav_push(current);
        }
        self.active = target;
        target
    }

    /// Goes back to the most recent screen of the history (Home when the
    /// history is empty). Returns the screen to load.
    pub fn navigate_back(&mut self) -> (load: Screen)
        requires
            old(self).wf(),
        ensures
            final(self).wf(),
            final(self)@ == navigate_back_spec(old(self)@),
            load == final(self)@.active,
    {
        let prev = self.nav_pop();
        self.active = prev;
        prev
    }

    /// Handles a button press. Returns the screen to load.
    pub fn press(&mut self, button: NavButton) -> (load: Screen)
        requires
            old(self).wf(),
        ensures
            final(self).wf(),
            final(self)@ == press_spec(old(self)@, button),
            load == final(self)@.active,
    {
        match button {
            NavButton::AmsSetup => {
                self.section = 1;
                self.navigate_to(Screen::Ams)
            },
            NavButton::EncodeTag => {
                self.section = 2;
                self.navigate_to(Screen::Encode)
            },
            NavButton::Catalog => {
                self.section = 3;
                self.navigate_to(Screen::Catalog)
            },
            NavButton::Settings => {
                self.section = 4;
                self.navigate_to(Screen::Settings)
            },
            NavButton::Back | NavButton::BackToSettings | NavButton::BackToSettings2 => {
                self.navigate_back()
            },
            NavButton::Settings2 => self.navigate_to(Screen::Settings2),
            NavButton::ScaleCalibration => self.navigate_to(Screen::ScaleCalibration),
            NavButton::NfcReader => self.navigate_to(Screen::NfcReader),
            NavButton::DisplayBrightness => self.navigate_to(Screen::DisplayBrightness),
            NavButton::AdvancedSettings => self.navigate_to(Screen::AdvancedSettings),
            NavButton::About => self.navigate_to(Screen::About),
            NavButton::WifiSettings => self.navigate_to(Screen::WifiSettings),
            NavButton::BackendSettings => self.navigate_to(Screen::BackendSettings),
            NavButton::AddPrinter => self.navigate_to(Screen::AddPrinter),
        }
    }
}

/// The history never grows past `NAV_STACK_SIZE`, whatever is pushed.
pub proof fn lemma_history_bounded(history: Seq<Screen>, screen: Screen)
    requires
        history.len() <= NAV_STACK_SIZE,
    ensures
        history_push(history, screen).len() <= NAV_STACK_SIZE,
        history_pop(history).0.len() <= NAV_STACK_SIZE,
{
}

/// Taking right after remembering gives back the remembered screen and the
/// history from before, as long as the history had room.
pub proof fn lemma_push_then_pop(history: Seq<Screen>, screen: Screen)
    requires
        history.len() < NAV_STACK_SIZE,
    ensures
        history_pop(history_push(history, screen)) == (history, screen),
{
    assert(history.push(screen).drop_last() =~= history);
}

/// Going back from an empty history lands on Home.
pub proof fn lemma_back_from_empty_is_home(v: NavView)
    requires
        v.history.len() == 0,
    ensures
        navigate_back_spec(v).active == Screen::Home,
        navigate_back_spec(v).history == v.history,
{
}

/// Going to another screen and then back returns to the screen and history
/// from before, as long as the history had room.
pub proof fn lemma_navigate_then_back(v: NavView, target: Screen)
    requires
        v.history.len() < NAV_STACK_SIZE,
        v.active != target,
    ensures
        navigate_back_spec(navigate_to_spec(v, target)) == v,
{
    lemma_push_then_pop(v.history, v.active);
}

/// Going to the screen already on display leaves the history as it is.
pub proof fn lemma_navigate_to_active_keeps_history(v: NavView)
    ensures
        navigate_to_spec(v, v.active) == v,
{
}

/// With a full history, going to another screen forgets the screen left
/// behind: the history keeps the oldest entries.
pub proof fn lemma_full_history_keeps_oldest(v: NavView, target: Screen)
    requires
        v.history.len() == NAV_STACK_SIZE,
    ensures
        navigate_to_spec(v, target).history == v.history,
{
}

} // verus!
