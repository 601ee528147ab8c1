//! Wire-protocol constants shared by the framer, decoder and dispatcher.

use vstd::prelude::*;

verus! {

/// SLIP frame delimiter byte.
pub const DELIMITER: u8 = 0xc0;
/// SLIP escape byte.
pub const ESCAPE: u8 = 0xdb;
/// Second byte of the escape sequence standing for an embedded delimiter.
pub const ESC_DELIMITER: u8 = 0xdc;
/// Second byte of the escape sequence standing for an embedded escape byte.
pub const ESC_ESCAPE: u8 = 0xdd;

/// Direction marker of a host-to-stub request packet.
pub const DIR_REQUEST: u8 = 0x00;
/// Direction marker of a stub-to-host response packet.
pub const DIR_RESPONSE: u8 = 0x01;

pub const OP_FLASH_BEGIN: u8 = 0x02;
pub const OP_FLASH_DATA: u8 = 0x03;
pub const OP_FLASH_END: u8 = 0x04;
pub const OP_MEM_BEGIN: u8 = 0x05;
pub const OP_MEM_END: u8 = 0x06;
pub const OP_MEM_DATA: u8 = 0x07;
pub const OP_SYNC: u8 = 0x08;
pub const OP_WRITE_REG: u8 = 0x09;
pub const OP_READ_REG: u8 = 0x0a;
pub const OP_CHANGE_BAUDRATE: u8 = 0x0f;
pub const OP_FLASH_DEFL_BEGIN: u8 = 0x10;
pub const OP_FLASH_DEFL_DATA: u8 = 0x11;
pub const OP_FLASH_DEFL_END: u8 = 0x12;
pub const OP_SPI_FLASH_MD5: u8 = 0x13;
pub const OP_ERASE_FLASH: u8 = 0xd0;
pub const OP_ERASE_REGION: u8 = 0xd1;
pub const OP_READ_FLASH: u8 = 0xd2;
pub const OP_RUN_USER_CODE: u8 = 0xd3;

} // verus!
