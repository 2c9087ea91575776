//! NFC support for the PN5180 reader.

pub mod pn5180;

pub use pn5180::{Pn5180State, Pn5180Error, Iso14443aCard, MifareKeyType, BAMBULAB_KEY};
pub use pn5180::{init_stub, detect_tag_stub, rf_field_on_stub, rf_field_off_stub};
