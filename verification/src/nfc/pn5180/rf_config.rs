//! PN5180 RF configuration protocols.

use vstd::prelude::*;

verus! {

pub const ISO_14443A_106_TX: u8 = 0x00;
pub const ISO_14443A_106_RX: u8 = 0x80;
pub const ISO_14443A_212_TX: u8 = 0x01;
pub const ISO_14443A_212_RX: u8 = 0x81;
pub const ISO_14443A_424_TX: u8 = 0x02;
pub const ISO_14443A_424_RX: u8 = 0x82;
pub const ISO_14443A_848_TX: u8 = 0x03;
pub const ISO_14443A_848_RX: u8 = 0x83;

} // verus!
