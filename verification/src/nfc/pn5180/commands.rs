//! PN5180 command codes.

use vstd::prelude::*;

verus! {

pub const WRITE_REGISTER: u8 = 0x00;
pub const WRITE_REGISTER_OR_MASK: u8 = 0x01;
pub const WRITE_REGISTER_AND_MASK: u8 = 0x02;
pub const READ_REGISTER: u8 = 0x04;
pub const WRITE_EEPROM: u8 = 0x06;
pub const READ_EEPROM: u8 = 0x07;
pub const SEND_DATA: u8 = 0x09;
pub const READ_DATA: u8 = 0x0A;
pub const SWITCH_MODE: u8 = 0x0B;
pub const MIFARE_AUTHENTICATE: u8 = 0x0C;
pub const EPC_INVENTORY: u8 = 0x0D;
pub const EPC_RESUME_INVENTORY: u8 = 0x0E;
pub const EPC_RETRIEVE_INVENTORY_RESULT_SIZE: u8 = 0x0F;
pub const EPC_RETRIEVE_INVENTORY_RESULT: u8 = 0x10;
pub const LOAD_RF_CONFIG: u8 = 0x11;
pub const UPDATE_RF_CONFIG: u8 = 0x12;
pub const RETRIEVE_RF_CONFIG_SIZE: u8 = 0x13;
pub const RETRIEVE_RF_CONFIG: u8 = 0x14;
pub const RF_ON: u8 = 0x16;
pub const RF_OFF: u8 = 0x17;

} // verus!
