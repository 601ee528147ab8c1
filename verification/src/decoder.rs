//! Command decoding: a framed packet is split into a fixed eight-byte header
//! and a payload, and the payload is parsed into a typed command according to
//! the opcode. Every declared length is validated before a byte is used.

use vstd::prelude::*;
use vstd::bytes::spec_u16_from_le_bytes;
use vstd::bytes::spec_u32_from_le_bytes;
use vstd::bytes::u16_from_le_bytes;
use vstd::bytes::u32_from_le_bytes;
use vstd::slice::slice_subrange;
use vstd::slice::slice_to_vec;
use crate::proto::DIR_REQUEST;
use crate::proto::OP_FLASH_BEGIN;
use crate::proto::OP_FLASH_DATA;
use crate::proto::OP_FLASH_END;
use crate::proto::OP_MEM_BEGIN;
use crate::proto::OP_MEM_END;
use crate::proto::OP_MEM_DATA;
use crate::proto::OP_SYNC;
use crate::proto::OP_WRITE_REG;
use crate::proto::OP_READ_REG;
use crate::proto::OP_CHANGE_BAUDRATE;
use crate::proto::OP_FLASH_DEFL_BEGIN;
use crate::proto::OP_FLASH_DEFL_DATA;
use crate::proto::OP_FLASH_DEFL_END;
use crate::proto::OP_SPI_FLASH_MD5;
use crate::proto::OP_ERASE_FLASH;
use crate::proto::OP_ERASE_REGION;
use crate::proto::OP_READ_FLASH;
use crate::proto::OP_RUN_USER_CODE;

verus! {

/// Protocol-level error codes carried in a failure response.
#[derive(Clone, Copy, PartialEq, Eq, Structural, Debug)]
pub enum ErrorCode {
    /// A declared length disagrees with the bytes present or the block bound.
    BadDataLen,
    /// The checksum declared for a data payload does not match the payload.
    BadDataChecksum,
    /// A session was begun with a block size the target cannot take.
    BadBlocksize,
    /// The opcode is not one the stub implements.
    InvalidCommand,
    /// A flash operation was refused (out of bounds or controller failure).
    FailedSpiOp,
    /// A data command arrived while no matching session was active.
    NotInFlashMode,
    /// A compressed payload could not be inflated.
    InflateError,
    /// Inflating produced less data than the session has still to write.
    NotEnoughData,
    /// Inflating produced more data than the session declared in total.
    TooMuchData,
    /// A register access fell outside the allow-listed ranges.
    RegAccessDenied,
    /// A data block arrived with a sequence number other than the expected one.
    BadDataSeq,
}

/// The wire byte that encodes each error code.
pub open spec fn spec_error_byte(e: ErrorCode) -> u8 {
    match e {
        ErrorCode::BadDataLen => 0xc0,
        ErrorCode::BadDataChecksum => 0xc1,
        ErrorCode::BadBlocksize => 0xc2,
        ErrorCode::InvalidCommand => 0xc3,
        ErrorCode::FailedSpiOp => 0xc4,
        ErrorCode::NotInFlashMode => 0xc6,
        ErrorCode::InflateError => 0xc7,
        ErrorCode::NotEnoughData => 0xc8,
        ErrorCode::TooMuchData => 0xc9,
        ErrorCode::RegAccessDenied => 0xca,
        ErrorCode::BadDataSeq => 0xcb,
    }
}

impl ErrorCode {
    /// Returns the wire byte of this error code.
    pub fn byte(&self) -> (r: u8)
        ensures
            r == spec_error_byte(*self),
    {
        match self {
            ErrorCode::BadDataLen => 0xc0,
            ErrorCode::BadDataChecksum => 0xc1,
            ErrorCode::BadBlocksize => 0xc2,
            ErrorCode::InvalidCommand => 0xc3,
            ErrorCode::FailedSpiOp => 0xc4,
            ErrorCode::NotInFlashMode => 0xc6,
            ErrorCode::InflateError => 0xc7,
            ErrorCode::NotEnoughData => 0xc8,
            ErrorCode::TooMuchData => 0xc9,
            ErrorCode::RegAccessDenied => 0xca,
            ErrorCode::BadDataSeq => 0xcb,
        }
    }
}

/// Little-endian `u32` read at offset `off` of `s`.
pub open spec fn spec_u32le(s: Seq<u8>, off: int) -> u32 {
    spec_u32_from_le_bytes(s.subrange(off, off + 4))
}

/// A framed packet split into header fields and payload.
pub struct Packet {
    /// Command opcode from the header.
    pub opcode: u8,
    /// Header checksum/value field; the payload checksum of data commands.
    pub checksum: u32,
    /// The bytes after the eight-byte header.
    pub payload: Vec<u8>,
}

/// A well-formed request packet: full header, request direction marker, and a
/// declared length that equals the number of payload bytes present.
pub open spec fn spec_packet_wf(s: Seq<u8>) -> bool {
    &&& s.len() >= 8
    &&& s[0] == DIR_REQUEST
    &&& spec_u16_from_le_bytes(s.subrange(2, 4)) == s.len() - 8
}

/// Splits a frame into header fields and payload, validating the direction
/// marker and the declared payload length against the bytes present.
pub fn parse_packet(s: &[u8]) -> (r: Result<Packet, ErrorCode>)
    ensures
        r is Ok <==> spec_packet_wf(s@),
        r matches Ok(p) ==> {
            &&& p.opcode == s@[1]
            &&& p.checksum == spec_u32le(s@, 4)
            &&& p.payload@ == s@.skip(8)
        },
        r matches Err(e) ==> e == (if s@.len() < 8 {
            ErrorCode::BadDataLen
        } else if s@[0] != DIR_REQUEST {
            ErrorCode::InvalidCommand
        } else {
            ErrorCode::BadDataLen
        }),
{
    if s.len() < 8 {
        return Err(ErrorCode::BadDataLen);
    }
    if s[0] != DIR_REQUEST {
        return Err(ErrorCode::InvalidCommand);
    }
    let declared = u16_from_le_bytes(slice_subrange(s, 2, 4));
    if declared as usize != s.len() - 8 {
        return Err(ErrorCode::BadDataLen);
    }
    let checksum = u32_from_le_bytes(slice_subrange(s, 4, 8));
    let payload = slice_to_vec(slice_subrange(s, 8, s.len()));
    proof {
        assert(s@.subrange(8, s@.len() as int) =~= s@.skip(8));
    }
    Ok(Packet { opcode: s[1], checksum, payload })
}

/// A typed command, decoded from an opcode and a payload.
pub enum Command {
    FlashBegin { erase_size: u32, num_blocks: u32, block_size: u32, offset: u32 },
    FlashData { size: u32, seq: u32, data: Vec<u8> },
    FlashEnd { flag: u32 },
    MemBegin { total_size: u32, num_blocks: u32, block_size: u32, offset: u32 },
    MemData { size: u32, seq: u32, data: Vec<u8> },
    MemEnd { flag: u32, entry: u32 },
    Sync,
    WriteReg { addr: u32, value: u32, mask: u32, delay_us: u32 },
    ReadReg { addr: u32 },
    ChangeBaudrate { new_baud: u32, old_baud: u32 },
    FlashDeflBegin { uncompressed_size: u32, num_blocks: u32, block_size: u32, offset: u32 },
    FlashDeflData { size: u32, seq: u32, data: Vec<u8> },
    FlashDeflEnd { flag: u32 },
    SpiFlashMd5 { addr: u32, len: u32 },
    EraseFlash,
    EraseRegion { offset: u32, size: u32 },
    ReadFlash { offset: u32, len: u32, block_size: u32, max_in_flight: u32 },
    RunUserCode,
}

/// Spec-level mirror of `Command`, with payload bytes as a sequence.
pub ghost enum CommandModel {
    FlashBegin { erase_size: u32, num_blocks: u32, block_size: u32, offset: u32 },
    FlashData { size: u32, seq: u32, data: Seq<u8> },
    FlashEnd { flag: u32 },
    MemBegin { total_size: u32, num_blocks: u32, block_size: u32, offset: u32 },
    MemData { size: u32, seq: u32, data: Seq<u8> },
    MemEnd { flag: u32, entry: u32 },
    Sync,
    WriteReg { addr: u32, value: u32, mask: u32, delay_us: u32 },
    ReadReg { addr: u32 },
    ChangeBaudrate { new_baud: u32, old_baud: u32 },
    FlashDeflBegin { uncompressed_size: u32, num_blocks: u32, block_size: u32, offset: u32 },
    FlashDeflData { size: u32, seq: u32, data: Seq<u8> },
    FlashDeflEnd { flag: u32 },
    SpiFlashMd5 { addr: u32, len: u32 },
    EraseFlash,
    EraseRegion { offset: u32, size: u32 },
    ReadFlash { offset: u32, len: u32, block_size: u32, max_in_flight: u32 },
    RunUserCode,
}

impl Command {
    /// The spec-level value of this command.
    pub open spec fn model(&self) -> CommandModel {
        match self {
            Command::FlashBegin { erase_size, num_blocks, block_size, offset } =>
                CommandModel::FlashBegin {
                    erase_size: *erase_size,
                    num_blocks: *num_blocks,
                    block_size: *block_size,
                    offset: *offset,
                },
            Command::FlashData { size, seq, data } => CommandModel::FlashData {
                size: *size,
                seq: *seq,
                data: data@,
            },
            Command::FlashEnd { flag } => CommandModel::FlashEnd { flag: *flag },
            Command::MemBegin { total_size, num_blocks, block_size, offset } =>
                CommandModel::MemBegin {
                    total_size: *total_size,
                    num_blocks: *num_blocks,
                    block_size: *block_size,
                    offset: *offset,
                },
            Command::MemData { size, seq, data } => CommandModel::MemData {
                size: *size,
                seq: *seq,
                data: data@,
            },
            Command::MemEnd { flag, entry } => CommandModel::MemEnd {
                flag: *flag,
                entry: *entry,
            },
            Command::Sync => CommandModel::Sync,
            Command::WriteReg { addr, value, mask, delay_us } => CommandModel::WriteReg {
                addr: *addr,
                value: *value,
                mask: *mask,
                delay_us: *delay_us,
            },
            Command::ReadReg { addr } => CommandModel::ReadReg { addr: *addr },
            Command::ChangeBaudrate { new_baud, old_baud } => CommandModel::ChangeBaudrate {
                new_baud: *new_baud,
                old_baud: *old_baud,
            },
            Command::FlashDeflBegin { uncompressed_size, num_blocks, block_size, offset } =>
                CommandModel::FlashDeflBegin {
                    uncompressed_size: *uncompressed_size,
                    num_blocks: *num_blocks,
                    block_size: *block_size,
                    offset: *offset,
                },
            Command::FlashDeflData { size, seq, data } => CommandModel::FlashDeflData {
                size: *size,
                seq: *seq,
                data: data@,
            },
            Command::FlashDeflEnd { flag } => CommandModel::FlashDeflEnd { flag: *flag },
            Command::SpiFlashMd5 { addr, len } => CommandModel::SpiFlashMd5 {
                addr: *addr,
                len: *len,
            },
            Command::EraseFlash => CommandModel::EraseFlash,
            Command::EraseRegion { offset, size } => CommandModel::EraseRegion {
                offset: *offset,
                size: *size,
            },
            Command::ReadFlash { offset, len, block_size, max_in_flight } =>
                CommandModel::ReadFlash {
                    offset: *offset,
                    len: *len,
                    block_size: *block_size,
                    max_in_flight: *max_in_flight,
                },
            Command::RunUserCode => CommandModel::RunUserCode,
        }
    }
}

/// The layout of a data-carrying payload: a sixteen-byte sub-header whose
/// first word declares the number of data bytes that follow it.
pub open spec fn spec_data_payload_wf(pl: Seq<u8>) -> bool {
    &&& pl.len() >= 16
    &&& spec_u32le(pl, 0) == pl.len() - 16
}

/// What each opcode's payload decodes to; the layout of every command.
pub open spec fn spec_decode(op: u8, pl: Seq<u8>) -> Result<CommandModel, ErrorCode> {
    if op == OP_FLASH_BEGIN {
        if pl.len() == 16 {
            Ok(CommandModel::FlashBegin {
                erase_size: spec_u32le(pl, 0),
                num_blocks: spec_u32le(pl, 4),
                block_size: spec_u32le(pl, 8),
                offset: spec_u32le(pl, 12),
            })
        } else {
            Err(ErrorCode::BadDataLen)
        }
    } else if op == OP_FLASH_DATA {
        if spec_data_payload_wf(pl) {
            Ok(CommandModel::FlashData {
                size: spec_u32le(pl, 0),
                seq: spec_u32le(pl, 4),
                data: pl.skip(16),
            })
        } else {
            Err(ErrorCode::BadDataLen)
        }
    } else if op == OP_FLASH_END {
        if pl.len() == 4 {
            Ok(CommandModel::FlashEnd { flag: spec_u32le(pl, 0) })
        } else {
            Err(ErrorCode::BadDataLen)
        }
    } else if op == OP_MEM_BEGIN {
        if pl.len() == 16 {
            Ok(CommandModel::MemBegin {
                total_size: spec_u32le(pl, 0),
                num_blocks: spec_u32le(pl, 4),
                block_size: spec_u32le(pl, 8),
                offset: spec_u32le(pl, 12),
            })
        } else {
            Err(ErrorCode::BadDataLen)
        }
    } else if op == OP_MEM_DATA {
        if spec_data_payload_wf(pl) {
            Ok(CommandModel::MemData {
                size: spec_u32le(pl, 0),
                seq: spec_u32le(pl, 4),
                data: pl.skip(16),
            })
        } else {
            Err(ErrorCode::BadDataLen)
        }
    } else if op == OP_MEM_END {
        if pl.len() == 8 {
            Ok(CommandModel::MemEnd { flag: spec_u32le(pl, 0), entry: spec_u32le(pl, 4) })
        } else {
            Err(ErrorCode::BadDataLen)
        }
    } else if op == OP_SYNC {
        Ok(CommandModel::Sync)
    } else if op == OP_WRITE_REG {
        if pl.len() == 16 {
            Ok(CommandModel::WriteReg {
                addr: spec_u32le(pl, 0),
                value: spec_u32le(pl, 4),
                mask: spec_u32le(pl, 8),
                delay_us: spec_u32le(pl, 12),
            })
        } else {
            Err(ErrorCode::BadDataLen)
        }
    } else if op == OP_READ_REG {
        if pl.len() == 4 {
            Ok(CommandModel::ReadReg { addr: spec_u32le(pl, 0) })
        } else {
            Err(ErrorCode::BadDataLen)
        }
    } else if op == OP_CHANGE_BAUDRATE {
        if pl.len() == 8 {
            Ok(CommandModel::ChangeBaudrate {
                new_baud: spec_u32le(pl, 0),
                old_baud: spec_u32le(pl, 4),
            })
        } else {
            Err(ErrorCode::BadDataLen)
        }
    } else if op == OP_FLASH_DEFL_BEGIN {
        if pl.len() == 16 {
            Ok(CommandModel::FlashDeflBegin {
                uncompressed_size: spec_u32le(pl, 0),
                num_blocks: spec_u32le(pl, 4),
                block_size: spec_u32le(pl, 8),
                offset: spec_u32le(pl, 12),
            })
        } else {
            Err(ErrorCode::BadDataLen)
        }
    } else if op == OP_FLASH_DEFL_DATA {
        if spec_data_payload_wf(pl) {
            Ok(CommandModel::FlashDeflData {
                size: spec_u32le(pl, 0),
                seq: spec_u32le(pl, 4),
                data: pl.skip(16),
            })
        } else {
            Err(ErrorCode::BadDataLen)
        }
    } else if op == OP_FLASH_DEFL_END {
        if pl.len() == 4 {
            Ok(CommandModel::FlashDeflEnd { flag: spec_u32le(pl, 0) })
        } else {
            Err(ErrorCode::BadDataLen)
        }
    } else if op == OP_SPI_FLASH_MD5 {
        if pl.len() == 16 {
            Ok(CommandModel::SpiFlashMd5 { addr: spec_u32le(pl, 0), len: spec_u32le(pl, 4) })
        } else {
            Err(ErrorCode::BadDataLen)
        }
    } else if op == OP_ERASE_FLASH {
        if pl.len() == 0 {
            Ok(CommandModel::EraseFlash)
        } else {
            Err(ErrorCode::BadDataLen)
        }
    } else if op == OP_ERASE_REGION {
        if pl.len() == 8 {
            Ok(CommandModel::EraseRegion { offset: spec_u32le(pl, 0), size: spec_u32le(pl, 4) })
        } else {
            Err(ErrorCode::BadDataLen)
        }
    } else if op == OP_READ_FLASH {
        if pl.len() == 16 {
            Ok(CommandModel::ReadFlash {
                offset: spec_u32le(pl, 0),
                len: spec_u32le(pl, 4),
                block_size: spec_u32le(pl, 8),
                max_in_flight: spec_u32le(pl, 12),
            })
        } else {
            Err(ErrorCode::BadDataLen)
        }
    } else if op == OP_RUN_USER_CODE {
        Ok(CommandModel::RunUserCode)
    } else {
        Err(ErrorCode::InvalidCommand)
    }
}

/// Little-endian `u32` read at offset `off` of `pl`.
fn read_u32(pl: &[u8], off: usize) -> (r: u32)
    requires
        off + 4 <= pl@.len(),
        pl@.len() <= usize::MAX,
    ensures
        r == spec_u32le(pl@, off as int),
{
    u32_from_le_bytes(slice_subrange(pl, off, off + 4))
}

/// Decodes a payload into the typed command its opcode calls for, validating
/// the payload length; fails exactly where `spec_decode` fails.
pub fn decode_command(op: u8, pl: &[u8]) -> (r: Result<Command, ErrorCode>)
    ensures
        r matches Ok(c) ==> spec_decode(op, pl@) == Ok::<CommandModel, ErrorCode>(c.model()),
        r matches Err(e) ==> spec_decode(op, pl@) == Err::<CommandModel, ErrorCode>(e),
{
    let n = pl.len();
    if op == OP_FLASH_BEGIN {
        if n == 16 {
            Ok(Command::FlashBegin {
                erase_size: read_u32(pl, 0),
                num_blocks: read_u32(pl, 4),
                block_size: read_u32(pl, 8),
                offset: read_u32(pl, 12),
            })
        } else {
            Err(ErrorCode::BadDataLen)
        }
    } else if op == OP_FLASH_DATA || op == OP_MEM_DATA || op == OP_FLASH_DEFL_DATA {
        if n < 16 {
            return Err(ErrorCode::BadDataLen);
        }
        let size = read_u32(pl, 0);
        if size as usize != n - 16 {
            return Err(ErrorCode::BadDataLen);
        }
        let seq = read_u32(pl, 4);
        let data = slice_to_vec(slice_subrange(pl, 16, n));
        proof {
            assert(data@ =~= pl@.skip(16));
        }
        if op == OP_FLASH_DATA {
            Ok(Command::FlashData { size, seq, data })
        } else if op == OP_MEM_DATA {
            Ok(Command::MemData { size, seq, data })
        } else {
            Ok(Command::FlashDeflData { size, seq, data })
        }
    } else if op == OP_FLASH_END {
        if n == 4 {
            Ok(Command::FlashEnd { flag: read_u32(pl, 0) })
        } else {
            Err(ErrorCode::BadDataLen)
        }
    } else if op == OP_MEM_BEGIN {
        if n == 16 {
            Ok(Command::MemBegin {
                total_size: read_u32(pl, 0),
                num_blocks: read_u32(pl, 4),
                block_size: read_u32(pl, 8),
                offset: read_u32(pl, 12),
            })
        } else {
            Err(ErrorCode::BadDataLen)
        }
    } else if op == OP_MEM_END {
        if n == 8 {
            Ok(Command::MemEnd { flag: read_u32(pl, 0), entry: read_u32(pl, 4) })
        } else {
            Err(ErrorCode::BadDataLen)
        }
    } else if op == OP_SYNC {
        Ok(Command::Sync)
    } else if op == OP_WRITE_REG {
        if n == 16 {
            Ok(Command::WriteReg {
                addr: read_u32(pl, 0),
                value: read_u32(pl, 4),
                mask: read_u32(pl, 8),
                delay_us: read_u32(pl, 12),
            })
        } else {
            Err(ErrorCode::BadDataLen)
        }
    } else if op == OP_READ_REG {
        if n == 4 {
            Ok(Command::ReadReg { addr: read_u32(pl, 0) })
        } else {
            Err(ErrorCode::BadDataLen)
        }
    } else if op == OP_CHANGE_BAUDRATE {
        if n == 8 {
            Ok(Command::ChangeBaudrate { new_baud: read_u32(pl, 0), old_baud: read_u32(pl, 4) })
        } else {
            Err(ErrorCode::BadDataLen)
        }
    } else if op == OP_FLASH_DEFL_BEGIN {
        if n == 16 {
            Ok(Command::FlashDeflBegin {
                uncompressed_size: read_u32(pl, 0),
                num_blocks: read_u32(pl, 4),
                block_size: read_u32(pl, 8),
                offset: read_u32(pl, 12),
            })
        } else {
            Err(ErrorCode::BadDataLen)
        }
    } else if op == OP_FLASH_DEFL_END {
        if n == 4 {
            Ok(Command::FlashDeflEnd { flag: read_u32(pl, 0) })
        } else {
            Err(ErrorCode::BadDataLen)
        }
    } else if op == OP_SPI_FLASH_MD5 {
        if n == 16 {
            Ok(Command::SpiFlashMd5 { addr: read_u32(pl, 0), len: read_u32(pl, 4) })
        } else {
            Err(ErrorCode::BadDataLen)
        }
    } else if op == OP_ERASE_FLASH {
        if n == 0 {
            Ok(Command::EraseFlash)
        } else {
            Err(ErrorCode::BadDataLen)
        }
    } else if op == OP_ERASE_REGION {
        if n == 8 {
            Ok(Command::EraseRegion { offset: read_u32(pl, 0), size: read_u32(pl, 4) })
        } else {
            Err(ErrorCode::BadDataLen)
        }
    } else if op == OP_READ_FLASH {
        if n == 16 {
            Ok(Command::ReadFlash {
                offset: read_u32(pl, 0),
                len: read_u32(pl, 4),
                block_size: read_u32(pl, 8),
                max_in_flight: read_u32(pl, 12),
            })
        } else {
            Err(ErrorCode::BadDataLen)
        }
    } else if op == OP_RUN_USER_CODE {
        Ok(Command::RunUserCode)
    } else {
        Err(ErrorCode::InvalidCommand)
    }
}

} // verus!
