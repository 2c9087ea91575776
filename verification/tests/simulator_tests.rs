use spoolbuddy::simulator::{
    encode_display_bmp, event_action, headless_saved, headless_screens, key_action, snapshot_path, SimAction,
    SimEvent, SimKey, SimScreen,
};

fn read_u32(b: &[u8], at: usize) -> u32 {
    u32::from_le_bytes([b[at], b[at + 1], b[at + 2], b[at + 3]])
}

#[test]
fn display_bmp_pads_rows() {
    // 3 x 2 display: rows of 9 bytes padded to 12.
    let px = [0xFFFFu16, 0x0000, 0xF800, 0x07E0, 0x001F, 0x8410];
    let bmp = encode_display_bmp(3, 2, &px);
    assert_eq!(bmp.len(), 54 + 24);
    assert_eq!(read_u32(&bmp, 2), 78);
    assert_eq!(read_u32(&bmp, 34), 24);
    assert_eq!(i32::from_le_bytes([bmp[18], bmp[19], bmp[20], bmp[21]]), 3);
    assert_eq!(i32::from_le_bytes([bmp[22], bmp[23], bmp[24], bmp[25]]), -2);
    let row0 = &bmp[54..66];
    assert_eq!(row0, &[255, 255, 255, 0, 0, 0, 0, 0, 255, 0, 0, 0]);
    let row1 = &bmp[66..78];
    // 0x8410: r = 16 -> 131, g = 32 -> 129, b = 16 -> 131
    assert_eq!(row1, &[0, 255, 0, 255, 0, 0, 131, 129, 131, 0, 0, 0]);
}

#[test]
fn display_bmp_without_padding() {
    let px = vec![0x001Fu16; 4 * 3];
    let bmp = encode_display_bmp(4, 3, &px);
    assert_eq!(bmp.len(), 54 + 4 * 3 * 3);
    assert!(bmp[54..].chunks(3).all(|c| c == [255, 0, 0]));
}

#[test]
fn display_bmp_of_full_display() {
    let px = vec![0u16; 800 * 480];
    let bmp = encode_display_bmp(800, 480, &px);
    assert_eq!(bmp.len(), 54 + 2400 * 480);
    assert_eq!(read_u32(&bmp, 2) as usize, bmp.len());
}

#[test]
fn empty_display_bmp() {
    let bmp = encode_display_bmp(0, 0, &[]);
    assert_eq!(bmp.len(), 54);
    assert_eq!(read_u32(&bmp, 2), 54);
}

#[test]
fn simulator_keys() {
    assert_eq!(key_action(SimKey::Q), SimAction::Quit);
    assert_eq!(key_action(SimKey::Escape), SimAction::Quit);
    assert_eq!(key_action(SimKey::Num1), SimAction::Navigate(SimScreen::Home));
    assert_eq!(key_action(SimKey::Num2), SimAction::Navigate(SimScreen::SpoolInfo));
    assert_eq!(key_action(SimKey::Num3), SimAction::Navigate(SimScreen::AmsSelect));
    assert_eq!(key_action(SimKey::Num4), SimAction::Navigate(SimScreen::Settings));
    assert_eq!(key_action(SimKey::Num5), SimAction::Navigate(SimScreen::Calibration));
    assert_eq!(key_action(SimKey::Num6), SimAction::Navigate(SimScreen::WifiSetup));
    assert_eq!(key_action(SimKey::W), SimAction::IncreaseWeight);
    assert_eq!(key_action(SimKey::S), SimAction::DecreaseWeight);
    assert_eq!(key_action(SimKey::Space), SimAction::ToggleStable);
    assert_eq!(key_action(SimKey::P), SimAction::LoadDemoSpool);
    assert_eq!(key_action(SimKey::Other), SimAction::Ignore);
}

#[test]
fn simulator_events() {
    assert_eq!(event_action(SimEvent::Quit), SimAction::Quit);
    assert_eq!(event_action(SimEvent::KeyDown(SimKey::Num4)), SimAction::Navigate(SimScreen::Settings));
    assert_eq!(
        event_action(SimEvent::MouseButtonDown { x: 120, y: 44 }),
        SimAction::TouchPress { x: 120, y: 44 }
    );
    assert_eq!(
        event_action(SimEvent::MouseButtonUp { x: 799, y: 479 }),
        SimAction::TouchRelease { x: 799, y: 479 }
    );
    assert_eq!(
        event_action(SimEvent::MouseButtonDown { x: -1, y: 65536 + 5 }),
        SimAction::TouchPress { x: 65535, y: 5 }
    );
    assert_eq!(event_action(SimEvent::MouseMove { x: 1, y: 2 }), SimAction::Ignore);
    assert_eq!(event_action(SimEvent::Other), SimAction::Ignore);
}

#[test]
fn headless_plan_and_paths() {
    let screens = headless_screens();
    assert_eq!(
        screens,
        vec![
            (SimScreen::Home, "home"),
            (SimScreen::SpoolInfo, "spool_info"),
            (SimScreen::AmsSelect, "ams_select"),
            (SimScreen::Settings, "settings"),
            (SimScreen::Calibration, "calibration"),
            (SimScreen::WifiSetup, "wifi_setup"),
        ]
    );
    assert_eq!(snapshot_path("home"), "screenshots/home.png");
    assert_eq!(snapshot_path("wifi_setup"), "screenshots/wifi_setup.png");
    assert_eq!(snapshot_path(""), "screenshots/.png");
}

#[test]
fn headless_skips_failed_renders() {
    let all = headless_saved(&[true; 6]);
    assert_eq!(all, headless_screens());
    let some = headless_saved(&[true, false, true, true, false, true]);
    assert_eq!(
        some,
        vec![
            (SimScreen::Home, "home"),
            (SimScreen::AmsSelect, "ams_select"),
            (SimScreen::Settings, "settings"),
            (SimScreen::WifiSetup, "wifi_setup"),
        ]
    );
    assert!(headless_saved(&[false; 6]).is_empty());
}
