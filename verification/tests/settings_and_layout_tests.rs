use spoolbuddy::settings_tabs::{settings_tab_clicked, TabLook, COLOR_TAB_INACTIVE};
use spoolbuddy::display::{COLOR_ACCENT, COLOR_TEXT_MUTED, COLOR_WHITE};
use spoolbuddy::ui_layout::{
    ams_slot_style, catalog_card_position, centered_x, compact_housing, compact_spool_xs,
    filter_pill_style, four_color_square_x, name_badge_x, nozzle_badge_position, slot_badge_style, slot_label_shown,
    slot_number_color, spool_tint_origin, status_dot_color, swatch_color, unit_border_color,
    BadgeStyle, SlotStyle,
};
use spoolbuddy::wifi_init::{is_configured, ssid_is_configured, WIFI_SSID};

#[test]
fn settings_tab_selection() {
    let tabs = [100usize, 200, 300, 400];
    let (active, looks) = settings_tab_clicked(&tabs, 300).unwrap();
    assert_eq!(active, 2);
    assert_eq!(looks.len(), 4);
    for (j, look) in looks.iter().enumerate() {
        if j == 2 {
            assert_eq!(*look, TabLook { bg_color: COLOR_ACCENT, panel_hidden: false });
        } else {
            assert_eq!(*look, TabLook { bg_color: COLOR_TAB_INACTIVE, panel_hidden: true });
        }
    }
    assert!(settings_tab_clicked(&tabs, 500).is_none());
    let dup = [7usize, 7, 8];
    assert_eq!(settings_tab_clicked(&dup, 7).unwrap().0, 0);
}

#[test]
fn wifi_credentials_configured() {
    assert!(is_configured());
    assert_eq!(WIFI_SSID, "NYHC!");
    assert!(!ssid_is_configured(""));
    assert!(!ssid_is_configured("YOUR_WIFI_SSID"));
    assert!(ssid_is_configured("YOUR_WIFI_SSID2"));
    assert!(ssid_is_configured("HomeNetwork"));
}

#[test]
fn slot_colours() {
    assert_eq!(swatch_color(0), 0x505050);
    assert_eq!(swatch_color(0xFF6B6B), 0xFF6B6B);
    assert_eq!(status_dot_color("green"), COLOR_ACCENT);
    assert_eq!(status_dot_color("gray"), COLOR_TEXT_MUTED);
    assert_eq!(status_dot_color(""), COLOR_TEXT_MUTED);
    assert_eq!(slot_number_color(0xFFFFFF), 0x000000);
    assert_eq!(slot_number_color(0xECEFF1), 0x000000);
    assert_eq!(slot_number_color(0xCDDC39), 0x000000);
    assert_eq!(slot_number_color(0xF5C518), COLOR_WHITE);
    assert_eq!(
        ams_slot_style(true),
        SlotStyle { bg_color: 0x1A2A1A, border_color: COLOR_ACCENT, border_width: 2, glow: true }
    );
    assert_eq!(
        ams_slot_style(false),
        SlotStyle { bg_color: 0x2A2A2A, border_color: 0x3D3D3D, border_width: 1, glow: false }
    );
}

#[test]
fn widget_positions() {
    assert_eq!((0..4).map(four_color_square_x).collect::<Vec<_>>(), vec![5, 21, 37, 53]);
    assert_eq!(catalog_card_position(0), (16, 100));
    assert_eq!(catalog_card_position(3), (592, 100));
    assert_eq!(catalog_card_position(4), (16, 222));
    assert_eq!(catalog_card_position(11), (592, 344));
    assert_eq!(spool_tint_origin(15, 0), (22, 1));
    let pill = filter_pill_style("In AMS (6)".len(), false);
    assert_eq!(pill.width, 75);
    assert_eq!(pill.border_color, Some(0x505050));
    let pill = filter_pill_style("PLA".len(), true);
    assert_eq!(pill.width, 50);
    assert_eq!(pill.border_width, 0);
    assert_eq!(pill.text_color, 0);
}

#[test]
fn compact_unit_spool_row() {
    // housing 188 wide, four spools: row 166 wide, start (188 - 166) / 2 - 4 = 7
    assert_eq!(compact_spool_xs(188, 4), vec![7, 49, 91, 133]);
    // more slots than fit: the row is laid out for four, extra spools continue
    assert_eq!(compact_spool_xs(188, 5), vec![7, 49, 91, 133, 175]);
    // one spool: (60 - 40) / 2 - 4 = 6
    assert_eq!(compact_spool_xs(60, 1), vec![6]);
    // narrow housing: division truncates toward zero, (-1 - 40) / 2 = -20
    assert_eq!(compact_spool_xs(-1, 1), vec![-24]);
    assert!(compact_spool_xs(100, 0).is_empty());
}

#[test]
fn compact_unit_frame() {
    assert_eq!(compact_housing(200, 180), (188, 150));
    assert_eq!(centered_x(188, 40), 74);
    assert_eq!(centered_x(188, 36), 76);
    assert_eq!(centered_x(10, 40), -15);
    assert_eq!(name_badge_x("AMS A".len(), 7, 12), 47);
    assert_eq!(name_badge_x("EXT".len(), 6, 4), 22);
    assert_eq!(
        slot_badge_style(true),
        BadgeStyle { bg_color: COLOR_ACCENT, bg_opa: None, text_color: 0x1A1A1A }
    );
    assert_eq!(
        slot_badge_style(false),
        BadgeStyle { bg_color: 0, bg_opa: Some(153), text_color: COLOR_WHITE }
    );
    assert_eq!(slot_label_shown(0xFF6B6B, true), (true, true));
    assert_eq!(slot_label_shown(0xFF6B6B, false), (true, false));
    assert_eq!(slot_label_shown(0, true), (false, false));
}

#[test]
fn ams_unit_border_and_nozzle_badge() {
    assert_eq!(unit_border_color(false), 0x404040);
    assert_eq!(unit_border_color(true), COLOR_ACCENT);
    // "AMS B" is 5 bytes: 5 * 7 + 12 = 47, three pixels down
    assert_eq!(nozzle_badge_position("AMS B".len()), (47, 3));
    assert_eq!(nozzle_badge_position(0), (12, 3));
}
