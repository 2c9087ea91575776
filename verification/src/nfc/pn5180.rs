//! PN5180 NFC controller driver state.
//!
//! The PN5180 talks SPI (MOSI, MISO, SCLK, NSS) plus a BUSY line (active
//! high) and a RST line (active low). Commands are sent as
//! `[CMD_BYTE] [PAYLOAD...]`; responses are read once BUSY goes low.
//!
//! The hardware is not wired yet, so the driver entry points are stubs that
//! only track the reader state.

pub mod commands;
pub mod registers;
pub mod rf_config;

use vstd::prelude::*;

verus! {

/// MIFARE authentication key type.
#[derive(Debug, Clone, Copy)]
pub enum MifareKeyType {
    KeyA,
    KeyB,
}

/// Bambu Lab MIFARE key (Crypto-1), placeholder value.
pub const BAMBULAB_KEY: [u8; 6] = [0xFF, 0xFF, 0xFF, 0xFF, 0xFF, 0xFF];

/// PN5180 driver state (tracked without hardware access).
pub struct Pn5180State {
    /// Whether the PN5180 has been initialized.
    pub initialized: bool,
    /// Firmware version (major, minor, patch).
    pub firmware_version: (u8, u8, u8),
    /// Last detected card UID (up to 10 bytes).
    pub last_uid: Option<[u8; 10]>,
    /// Length of the last UID.
    pub last_uid_len: u8,
    /// Whether the RF field is on.
    pub rf_on: bool,
}

impl Pn5180State {
    /// The state of a reader that was never touched.
    pub open spec fn fresh() -> Pn5180State {
        Pn5180State {
            initialized: false,
            firmware_version: (0, 0, 0),
            last_uid: None,
            last_uid_len: 0,
            rf_on: false,
        }
    }

    /// This state with the RF field flag set to `on`, everything else kept.
    pub open spec fn with_rf(self, on: bool) -> Pn5180State {
        Pn5180State {
            initialized: self.initialized,
            firmware_version: self.firmware_version,
            last_uid: self.last_uid,
            last_uid_len: self.last_uid_len,
            rf_on: on,
        }
    }

    pub fn new() -> (s: Self)
        ensures
            s == Pn5180State::fresh(),
    {
        Self {
            initialized: false,
            firmware_version: (0, 0, 0),
            last_uid: None,
            last_uid_len: 0,
            rf_on: false,
        }
    }
}

impl Default for Pn5180State {
    fn default() -> (s: Self)
        ensures
            s == Pn5180State::fresh(),
    {
        Self::new()
    }
}

/// Initialize the PN5180 reader (stub: hardware not connected).
///
/// The firmware version is reset and the reader stays marked as not
/// initialized until real hardware answers.
pub fn init_stub(state: &mut Pn5180State) -> (r: Result<(), Pn5180Error>)
    ensures
        r is Ok,
        final(state).initialized == false,
        final(state).firmware_version == (0u8, 0u8, 0u8),
        final(state).last_uid == old(state).last_uid,
        final(state).last_uid_len == old(state).last_uid_len,
        final(state).rf_on == old(state).rf_on,
{
    state.firmware_version = (0, 0, 0);
    state.initialized = false;
    Ok(())
}

/// Check whether a tag is present (stub: never detects one).
pub fn detect_tag_stub(_state: &Pn5180State) -> (r: Result<Option<Iso14443aCard>, Pn5180Error>)
    ensures
        r matches Ok(None),
{
    Ok(None)
}

/// Turn the RF field on (stub).
pub fn rf_field_on_stub(state: &mut Pn5180State) -> (r: Result<(), Pn5180Error>)
    ensures
        r is Ok,
        *final(state) == old(state).with_rf(true),
{
    state.rf_on = true;
    Ok(())
}

/// Turn the RF field off (stub).
pub fn rf_field_off_stub(state: &mut Pn5180State) -> (r: Result<(), Pn5180Error>)
    ensures
        r is Ok,
        *final(state) == old(state).with_rf(false),
{
    state.rf_on = false;
    Ok(())
}

/// SAK value of an NTAG.
pub open spec fn sak_is_ntag(sak: u8) -> bool {
    sak == 0x00
}

/// SAK value of a MIFARE Classic 1K.
pub open spec fn sak_is_mifare_classic_1k(sak: u8) -> bool {
    sak == 0x08
}

/// SAK value of a MIFARE Classic 4K.
pub open spec fn sak_is_mifare_classic_4k(sak: u8) -> bool {
    sak == 0x18
}

/// ISO 14443A card info.
#[derive(Debug, Clone)]
pub struct Iso14443aCard {
    /// UID (4, 7, or 10 bytes used).
    pub uid: [u8; 10],
    /// UID length (4, 7, or 10).
    pub uid_len: u8,
    /// ATQA (2 bytes).
    pub atqa: [u8; 2],
    /// SAK byte.
    pub sak: u8,
}

impl Iso14443aCard {
    /// Check if this is an NTAG (based on SAK).
    pub fn is_ntag(&self) -> (r: bool)
        ensures
            r == sak_is_ntag(self.sak),
    {
        self.sak == 0x00
    }

    /// Check if this is a MIFARE Classic 1K (based on SAK).
    pub fn is_mifare_classic_1k(&self) -> (r: bool)
        ensures
            r == sak_is_mifare_classic_1k(self.sak),
    {
        self.sak == 0x08
    }

    /// Check if this is a MIFARE Classic 4K (based on SAK).
    pub fn is_mifare_classic_4k(&self) -> (r: bool)
        ensures
            r == sak_is_mifare_classic_4k(self.sak),
    {
        self.sak == 0x18
    }
}

/// PN5180 errors.
#[derive(Debug, Clone, Copy)]
pub enum Pn5180Error {
    SpiError,
    GpioError,
    Timeout,
    NoCard,
    AuthFailed,
    ReadFailed,
    WriteFailed,
    InvalidResponse,
}

/// A card is classified as at most one of NTAG, MIFARE Classic 1K and
/// MIFARE Classic 4K.
pub proof fn lemma_card_kinds_exclusive(sak: u8)
    ensures
        !(sak_is_ntag(sak) && sak_is_mifare_classic_1k(sak)),
        !(sak_is_ntag(sak) && sak_is_mifare_classic_4k(sak)),
        !(sak_is_mifare_classic_1k(sak) && sak_is_mifare_classic_4k(sak)),
{
}

/// Switching the RF field on and then off gives back the state from before,
/// when the field was off to begin with.
pub proof fn lemma_rf_on_then_off(s: Pn5180State)
    requires
        s.rf_on == false,
    ensures
        s.with_rf(true).with_rf(false) == s,
{
}

/// Switching the RF field is idempotent: the second switch in the same
/// direction changes nothing.
pub proof fn lemma_rf_switch_idempotent(s: Pn5180State, on: bool)
    ensures
        s.with_rf(on).with_rf(on) == s.with_rf(on),
        s.with_rf(on).rf_on == on,
{
}

} // verus!
