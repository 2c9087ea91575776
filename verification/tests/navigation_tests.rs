use spoolbuddy::navigation::{NavButton, Navigator, Screen, NAV_STACK_SIZE};

#[test]
fn starts_on_home() {
    let nav = Navigator::new();
    assert_eq!(nav.active(), Screen::Home);
    assert_eq!(nav.depth(), 0);
    assert_eq!(nav.current_screen(), 0);
}

#[test]
fn push_then_pop_returns_screen() {
    let mut nav = Navigator::new();
    nav.nav_push(Screen::Catalog);
    nav.nav_push(Screen::About);
    assert_eq!(nav.depth(), 2);
    assert_eq!(nav.nav_pop(), Screen::About);
    assert_eq!(nav.nav_pop(), Screen::Catalog);
    assert_eq!(nav.depth(), 0);
}

#[test]
fn pop_of_empty_history_is_home() {
    let mut nav = Navigator::new();
    assert_eq!(nav.nav_pop(), Screen::Home);
    assert_eq!(nav.depth(), 0);
}

#[test]
fn full_history_drops_new_entries() {
    let mut nav = Navigator::new();
    for _ in 0..NAV_STACK_SIZE {
        nav.nav_push(Screen::Settings);
    }
    assert_eq!(nav.depth(), 10);
    nav.nav_push(Screen::About);
    assert_eq!(nav.depth(), 10);
    assert_eq!(nav.nav_pop(), Screen::Settings);
}

#[test]
fn navigate_to_then_back() {
    let mut nav = Navigator::new();
    assert_eq!(nav.navigate_to(Screen::Settings), Screen::Settings);
    assert_eq!(nav.navigate_to(Screen::Settings2), Screen::Settings2);
    assert_eq!(nav.navigate_to(Screen::About), Screen::About);
    assert_eq!(nav.depth(), 3);
    assert_eq!(nav.navigate_back(), Screen::Settings2);
    assert_eq!(nav.navigate_back(), Screen::Settings);
    assert_eq!(nav.navigate_back(), Screen::Home);
    assert_eq!(nav.active(), Screen::Home);
    assert_eq!(nav.navigate_back(), Screen::Home);
    assert_eq!(nav.depth(), 0);
}

#[test]
fn navigate_to_current_screen_keeps_history() {
    let mut nav = Navigator::new();
    nav.navigate_to(Screen::Home);
    assert_eq!(nav.depth(), 0);
    nav.navigate_to(Screen::Catalog);
    nav.navigate_to(Screen::Catalog);
    assert_eq!(nav.depth(), 1);
}

#[test]
fn buttons_set_section_and_screen() {
    let mut nav = Navigator::new();
    assert_eq!(nav.press(NavButton::AmsSetup), Screen::Ams);
    assert_eq!(nav.current_screen(), 1);
    assert_eq!(nav.press(NavButton::EncodeTag), Screen::Encode);
    assert_eq!(nav.current_screen(), 2);
    assert_eq!(nav.press(NavButton::Catalog), Screen::Catalog);
    assert_eq!(nav.current_screen(), 3);
    assert_eq!(nav.press(NavButton::Settings), Screen::Settings);
    assert_eq!(nav.current_screen(), 4);
    assert_eq!(nav.press(NavButton::Settings2), Screen::Settings2);
    assert_eq!(nav.current_screen(), 4);
    assert_eq!(nav.press(NavButton::ScaleCalibration), Screen::ScaleCalibration);
    assert_eq!(nav.press(NavButton::Back), Screen::Settings2);
    assert_eq!(nav.press(NavButton::NfcReader), Screen::NfcReader);
    assert_eq!(nav.press(NavButton::BackToSettings2), Screen::Settings2);
    assert_eq!(nav.press(NavButton::BackToSettings), Screen::Settings);
    assert_eq!(nav.press(NavButton::DisplayBrightness), Screen::DisplayBrightness);
    assert_eq!(nav.press(NavButton::AdvancedSettings), Screen::AdvancedSettings);
    assert_eq!(nav.press(NavButton::About), Screen::About);
    assert_eq!(nav.press(NavButton::WifiSettings), Screen::WifiSettings);
    assert_eq!(nav.press(NavButton::BackendSettings), Screen::BackendSettings);
    assert_eq!(nav.press(NavButton::AddPrinter), Screen::AddPrinter);
    assert_eq!(nav.depth(), 10);
    assert_eq!(nav.press(NavButton::Back), Screen::BackendSettings);
    assert_eq!(nav.current_screen(), 4);
}
