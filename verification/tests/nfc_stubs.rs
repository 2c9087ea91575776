use spoolbuddy::nfc::pn5180::{
    commands, rf_config, registers, Iso14443aCard, MifareKeyType, Pn5180Error, Pn5180State,
};
use spoolbuddy::nfc::{detect_tag_stub, init_stub, rf_field_off_stub, rf_field_on_stub, BAMBULAB_KEY};

fn card(sak: u8) -> Iso14443aCard {
    Iso14443aCard { uid: [1, 2, 3, 4, 0, 0, 0, 0, 0, 0], uid_len: 4, atqa: [0x44, 0x00], sak }
}

#[test]
fn new_state_is_fresh() {
    let s = Pn5180State::new();
    assert!(!s.initialized);
    assert_eq!(s.firmware_version, (0, 0, 0));
    assert!(s.last_uid.is_none());
    assert_eq!(s.last_uid_len, 0);
    assert!(!s.rf_on);
    let d = Pn5180State::default();
    assert!(!d.initialized && !d.rf_on && d.last_uid.is_none());
}

#[test]
fn init_stub_keeps_reader_uninitialized() {
    let mut s = Pn5180State::new();
    s.initialized = true;
    s.firmware_version = (3, 5, 0);
    s.rf_on = true;
    s.last_uid = Some([9; 10]);
    s.last_uid_len = 7;
    assert!(init_stub(&mut s).is_ok());
    assert!(!s.initialized);
    assert_eq!(s.firmware_version, (0, 0, 0));
    assert!(s.rf_on);
    assert_eq!(s.last_uid, Some([9; 10]));
    assert_eq!(s.last_uid_len, 7);
}

#[test]
fn detect_tag_stub_finds_nothing() {
    let s = Pn5180State::new();
    assert!(matches!(detect_tag_stub(&s), Ok(None)));
}

#[test]
fn rf_field_on_then_off() {
    let mut s = Pn5180State::new();
    assert!(rf_field_on_stub(&mut s).is_ok());
    assert!(s.rf_on);
    assert!(rf_field_on_stub(&mut s).is_ok());
    assert!(s.rf_on);
    assert!(rf_field_off_stub(&mut s).is_ok());
    assert!(!s.rf_on);
    assert!(!s.initialized);
    assert_eq!(s.firmware_version, (0, 0, 0));
}

#[test]
fn card_kind_by_sak() {
    assert!(card(0x00).is_ntag());
    assert!(!card(0x00).is_mifare_classic_1k());
    assert!(!card(0x00).is_mifare_classic_4k());
    assert!(card(0x08).is_mifare_classic_1k());
    assert!(!card(0x08).is_ntag());
    assert!(card(0x18).is_mifare_classic_4k());
    assert!(!card(0x18).is_mifare_classic_1k());
    let other = card(0x20);
    assert!(!other.is_ntag() && !other.is_mifare_classic_1k() && !other.is_mifare_classic_4k());
}

#[test]
fn card_kinds_never_overlap() {
    for sak in 0..=255u8 {
        let c = card(sak);
        let kinds = [c.is_ntag(), c.is_mifare_classic_1k(), c.is_mifare_classic_4k()];
        assert!(kinds.iter().filter(|k| **k).count() <= 1);
    }
}

#[test]
fn pn5180_constants() {
    assert_eq!(BAMBULAB_KEY, [0xFF; 6]);
    assert_eq!(commands::RF_ON, 0x16);
    assert_eq!(commands::RF_OFF, 0x17);
    assert_eq!(commands::MIFARE_AUTHENTICATE, 0x0C);
    assert_eq!(registers::RF_STATUS, 0x1D);
    assert_eq!(rf_config::ISO_14443A_106_RX, 0x80);
    assert!(matches!(MifareKeyType::KeyA, MifareKeyType::KeyA));
    assert!(matches!(Pn5180Error::NoCard, Pn5180Error::NoCard));
}
