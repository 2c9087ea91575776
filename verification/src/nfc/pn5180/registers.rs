//! PN5180 register addresses.

use vstd::prelude::*;

verus! {

pub const SYSTEM_CONFIG: u8 = 0x00;
pub const IRQ_ENABLE: u8 = 0x01;
pub const IRQ_STATUS: u8 = 0x02;
pub const IRQ_CLEAR: u8 = 0x03;
pub const TRANSCEIVE_CONTROL: u8 = 0x04;
pub const TIMER1_CONFIG: u8 = 0x0F;
pub const TIMER1_RELOAD: u8 = 0x10;
pub const TIMER1_VALUE: u8 = 0x11;
pub const TX_DATA_NUM: u8 = 0x14;
pub const RX_STATUS: u8 = 0x15;
pub const RF_STATUS: u8 = 0x1D;

} // verus!
