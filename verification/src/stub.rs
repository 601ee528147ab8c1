//! The protocol state machine. A `Stub` holds at most one active write
//! session, routes each decoded command to its handler, mutates the flash and
//! RAM models, and builds exactly one response per command. Work the engine
//! cannot perform itself (a reset, a jump, a baud-rate switch) is returned as
//! an `Action` for the surrounding firmware to carry out.

use vstd::prelude::*;
use vstd::arithmetic::div_mod::lemma_mod_decreases;
use vstd::arithmetic::div_mod::lemma_mod_bound;
use crate::checksum;
use crate::spec_checksum;
use crate::decoder::Command;
use crate::decoder::CommandModel;
use crate::decoder::ErrorCode;
use crate::decoder::decode_command;
use crate::decoder::parse_packet;
use crate::decoder::spec_decode;
use crate::decoder::spec_packet_wf;
use crate::decoder::spec_u32le;
use crate::digest::md5_of;
use crate::digest::md5_digest;
use crate::flash::Flash;
use crate::flash::spec_erase;
use crate::flash::spec_store;
use crate::inflate::InflateStatus;
use crate::inflate::inflate_step;
use crate::inflate::inflater_new;
use crate::proto::DIR_REQUEST;
use crate::proto::OP_FLASH_BEGIN;
use crate::proto::OP_FLASH_DATA;
use crate::proto::OP_FLASH_END;
use crate::proto::OP_MEM_BEGIN;
use crate::proto::OP_MEM_END;
use crate::proto::OP_MEM_DATA;
use crate::proto::OP_SYNC;
use crate::proto::OP_WRITE_REG;
use crate::proto::OP_READ_REG;
use crate::proto::OP_CHANGE_BAUDRATE;
use crate::proto::OP_FLASH_DEFL_BEGIN;
use crate::proto::OP_FLASH_DEFL_DATA;
use crate::proto::OP_FLASH_DEFL_END;
use crate::proto::OP_SPI_FLASH_MD5;
use crate::proto::OP_ERASE_FLASH;
use crate::proto::OP_ERASE_REGION;
use crate::proto::OP_READ_FLASH;
use crate::proto::OP_RUN_USER_CODE;
use crate::response::RespStatus;
use crate::response::Response;
use crate::response::ResponseModel;
use crate::response::encode_response;
use crate::response::spec_encode_response;
use crate::targets::AddrRange;
use crate::targets::TargetParams;
use crate::targets::spec_reg_allowed;

verus! {

/// A register write recorded by the engine's model of the MMIO space.
#[derive(Clone, Copy, PartialEq, Eq, Structural, Debug)]
pub struct RegEntry {
    pub addr: u32,
    pub value: u32,
}

/// One RAM write recorded by a memory-load session.
pub struct MemSegment {
    pub addr: u32,
    pub data: Vec<u8>,
}

/// The at-most-one active write session.
pub enum Session {
    /// No session is active.
    Idle,
    /// A plain flash write session.
    Flash { base: u32, block_size: u32, total_size: u32, next_seq: u32, bytes_written: u32 },
    /// A compressed flash write session with its streaming decompressor.
    Defl {
        base: u32,
        block_size: u32,
        total_size: u32,
        next_seq: u32,
        bytes_written: u32,
        inflater: Box<miniz_oxide::inflate::stream::InflateState>,
    },
    /// A RAM load session.
    Mem { base: u32, block_size: u32, total_size: u32, next_seq: u32, bytes_written: u32 },
}

/// Spec-level mirror of `Session` (without the opaque decompressor).
#[verifier::ext_equal]
pub ghost enum SessionModel {
    Idle,
    Flash { base: u32, block_size: u32, total_size: u32, next_seq: u32, bytes_written: u32 },
    Defl { base: u32, block_size: u32, total_size: u32, next_seq: u32, bytes_written: u32 },
    Mem { base: u32, block_size: u32, total_size: u32, next_seq: u32, bytes_written: u32 },
}

impl Session {
    /// The spec-level value of this session.
    pub open spec fn model(&self) -> SessionModel {
        match self {
            Session::Idle => SessionModel::Idle,
            Session::Flash { base, block_size, total_size, next_seq, bytes_written } =>
                SessionModel::Flash {
                    base: *base,
                    block_size: *block_size,
                    total_size: *total_size,
                    next_seq: *next_seq,
                    bytes_written: *bytes_written,
                },
            Session::Defl { base, block_size, total_size, next_seq, bytes_written, inflater: _ } =>
                SessionModel::Defl {
                    base: *base,
                    block_size: *block_size,
                    total_size: *total_size,
                    next_seq: *next_seq,
                    bytes_written: *bytes_written,
                },
            Session::Mem { base, block_size, total_size, next_seq, bytes_written } =>
                SessionModel::Mem {
                    base: *base,
                    block_size: *block_size,
                    total_size: *total_size,
                    next_seq: *next_seq,
                    bytes_written: *bytes_written,
                },
        }
    }
}

/// What the surrounding firmware must do after a response is sent.
#[derive(Clone, Copy, PartialEq, Eq, Structural, Debug)]
pub enum Action {
    /// Keep reading commands.
    Continue,
    /// Reset the chip.
    Reboot,
    /// Jump to the given entry point.
    JumpTo { entry: u32 },
    /// Leave the stub and run the user application.
    RunUserCode,
    /// Switch the transport to the given baud rate.
    SetBaud { baud: u32 },
}

/// Spec-level state of the whole engine.
#[verifier::ext_equal]
pub ghost struct StubModel {
    pub session: SessionModel,
    pub flash: Seq<u8>,
    pub ram: Seq<(u32, Seq<u8>)>,
    pub regs: Seq<RegEntry>,
    pub max_write_block: u32,
    pub sector_size: u32,
    pub reg_ranges: Seq<AddrRange>,
}

/// The value the engine's register model yields at `addr`: the last write,
/// or zero where nothing was written.
pub open spec fn spec_reg_read(regs: Seq<RegEntry>, addr: u32) -> u32
    decreases regs.len(),
{
    if regs.len() == 0 {
        0u32
    } else if regs.last().addr == addr {
        regs.last().value
    } else {
        spec_reg_read(regs.drop_last(), addr)
    }
}

/// First cell of the erase-sector span holding `offset`: `offset` rounded
/// down to a sector boundary.
pub open spec fn spec_erase_start(offset: u32, sector: u32) -> int {
    offset - offset as int % sector as int
}

/// First cell past the erase-sector span holding `[offset, offset + size)`:
/// the end of the region rounded up to a sector boundary.
pub open spec fn spec_erase_end(offset: u32, size: u32, sector: u32) -> int {
    (offset + size + sector - 1) - (offset + size + sector - 1) % (sector as int)
}

/// Well-formedness of a session against the flash size: what a `*_BEGIN`
/// establishes and every `*_DATA` preserves.
pub open spec fn spec_session_wf(s: SessionModel, flen: int) -> bool {
    match s {
        SessionModel::Idle => true,
        SessionModel::Flash { base, block_size: _, total_size, next_seq: _, bytes_written } => {
            &&& bytes_written <= total_size
            &&& base + total_size <= flen
        },
        SessionModel::Defl { base, block_size: _, total_size, next_seq: _, bytes_written } => {
            &&& bytes_written <= total_size
            &&& base + total_size <= flen
        },
        SessionModel::Mem { base, block_size: _, total_size, next_seq: _, bytes_written } => {
            &&& bytes_written <= total_size
            &&& base + total_size <= 0x1_0000_0000
        },
    }
}

impl StubModel {
    /// Invariant of the engine state.
    pub open spec fn wf(self) -> bool {
        &&& self.max_write_block > 0
        &&& self.sector_size > 0
        &&& self.max_write_block <= 0x4000
        &&& self.flash.len() <= 0xffff_ffff
        &&& spec_session_wf(self.session, self.flash.len() as int)
    }
}

/// A success response without data.
pub open spec fn resp_ok(op: u8, value: u32) -> ResponseModel {
    ResponseModel { opcode: op, value, data: Seq::<u8>::empty(), status: RespStatus::Success }
}

/// A success response carrying data.
pub open spec fn resp_data(op: u8, data: Seq<u8>) -> ResponseModel {
    ResponseModel { opcode: op, value: 0u32, data, status: RespStatus::Success }
}

/// A failure response carrying `e`.
pub open spec fn resp_fail(op: u8, e: ErrorCode) -> ResponseModel {
    ResponseModel { opcode: op, value: 0u32, data: Seq::<u8>::empty(), status: RespStatus::Failure(e) }
}

/// The engine's transition function: what each command (except the
/// nondeterministic `FLASH_DEFL_DATA`, see `spec_defl_post`) does to the
/// state, what it answers, and what it asks the firmware to do.
pub open spec fn spec_step(m: StubModel, cmd: CommandModel, chk: u32) -> (StubModel, ResponseModel, Action) {
    match cmd {
        CommandModel::FlashBegin { erase_size, num_blocks: _, block_size, offset } => {
            let op = OP_FLASH_BEGIN;
            if block_size == 0 || block_size > m.max_write_block {
                (m, resp_fail(op, ErrorCode::BadBlocksize), Action::Continue)
            } else {
                let start = spec_erase_start(offset, m.sector_size);
                let end = spec_erase_end(offset, erase_size, m.sector_size);
                if end > m.flash.len() {
                    (m, resp_fail(op, ErrorCode::FailedSpiOp), Action::Continue)
                } else {
                    let m2 = StubModel {
                        session: SessionModel::Flash {
                            base: offset,
                            block_size,
                            total_size: erase_size,
                            next_seq: 0u32,
                            bytes_written: 0u32,
                        },
                        flash: spec_erase(m.flash, start, end - start),
                        ..m
                    };
                    (m2, resp_ok(op, 0), Action::Continue)
                }
            }
        },
        CommandModel::FlashData { size: _, seq, data } => {
            let op = OP_FLASH_DATA;
            match m.session {
                SessionModel::Flash { base, block_size, total_size, next_seq, bytes_written } => {
                    if data.len() > block_size {
                        (m, resp_fail(op, ErrorCode::BadDataLen), Action::Continue)
                    } else if seq != next_seq {
                        (m, resp_fail(op, ErrorCode::BadDataSeq), Action::Continue)
                    } else if chk != spec_checksum(data) as u32 {
                        (m, resp_fail(op, ErrorCode::BadDataChecksum), Action::Continue)
                    } else if next_seq == 0xffff_ffffu32 {
                        (m, resp_fail(op, ErrorCode::BadDataSeq), Action::Continue)
                    } else if bytes_written + data.len() > total_size {
                        (m, resp_fail(op, ErrorCode::TooMuchData), Action::Continue)
                    } else {
                        let m2 = StubModel {
                            session: SessionModel::Flash {
                                base,
                                block_size,
                                total_size,
                                next_seq: (next_seq + 1) as u32,
                                bytes_written: (bytes_written + data.len()) as u32,
                            },
                            flash: spec_store(m.flash, base + bytes_written, data),
                            ..m
                        };
                        (m2, resp_ok(op, 0), Action::Continue)
                    }
                },
                _ => (m, resp_fail(op, ErrorCode::NotInFlashMode), Action::Continue),
            }
        },
        CommandModel::FlashEnd { flag } => {
            let op = OP_FLASH_END;
            match m.session {
                SessionModel::Flash { .. } => {
                    let m2 = StubModel { session: SessionModel::Idle, ..m };
                    let act = if flag == 0 { Action::Reboot } else { Action::Continue };
                    (m2, resp_ok(op, 0), act)
                },
                _ => (m, resp_fail(op, ErrorCode::NotInFlashMode), Action::Continue),
            }
        },
        CommandModel::MemBegin { total_size, num_blocks: _, block_size, offset } => {
            let op = OP_MEM_BEGIN;
            if block_size == 0 || block_size > m.max_write_block {
                (m, resp_fail(op, ErrorCode::BadBlocksize), Action::Continue)
            } else if offset + total_size > 0x1_0000_0000 {
                (m, resp_fail(op, ErrorCode::BadDataLen), Action::Continue)
            } else {
                let m2 = StubModel {
                    session: SessionModel::Mem {
                        base: offset,
                        block_size,
                        total_size,
                        next_seq: 0u32,
                        bytes_written: 0u32,
                    },
                    ..m
                };
                (m2, resp_ok(op, 0), Action::Continue)
            }
        },
        CommandModel::MemData { size: _, seq, data } => {
            let op = OP_MEM_DATA;
            match m.session {
                SessionModel::Mem { base, block_size, total_size, next_seq, bytes_written } => {
                    if data.len() > block_size {
                        (m, resp_fail(op, ErrorCode::BadDataLen), Action::Continue)
                    } else if seq != next_seq {
                        (m, resp_fail(op, ErrorCode::BadDataSeq), Action::Continue)
                    } else if chk != spec_checksum(data) as u32 {
                        (m, resp_fail(op, ErrorCode::BadDataChecksum), Action::Continue)
                    } else if next_seq == 0xffff_ffffu32 {
                        (m, resp_fail(op, ErrorCode::BadDataSeq), Action::Continue)
                    } else if bytes_written + data.len() > total_size {
                        (m, resp_fail(op, ErrorCode::TooMuchData), Action::Continue)
                    } else {
                        let m2 = StubModel {
                            session: SessionModel::Mem {
                                base,
                                block_size,
                                total_size,
                                next_seq: (next_seq + 1) as u32,
                                bytes_written: (bytes_written + data.len()) as u32,
                            },
                            ram: m.ram.push(((base + bytes_written) as u32, data)),
                            ..m
                        };
                        (m2, resp_ok(op, 0), Action::Continue)
                    }
                },
                _ => (m, resp_fail(op, ErrorCode::NotInFlashMode), Action::Continue),
            }
        },
        CommandModel::MemEnd { flag, entry } => {
            let op = OP_MEM_END;
            match m.session {
                SessionModel::Mem { .. } => {
                    let m2 = StubModel { session: SessionModel::Idle, ..m };
                    let act = if flag == 0 { Action::JumpTo { entry } } else { Action::Continue };
                    (m2, resp_ok(op, 0), act)
                },
                _ => (m, resp_fail(op, ErrorCode::NotInFlashMode), Action::Continue),
            }
        },
        CommandModel::Sync => {
            let m2 = StubModel { session: SessionModel::Idle, ..m };
            (m2, resp_ok(OP_SYNC, 0), Action::Continue)
        },
        CommandModel::WriteReg { addr, value, mask, delay_us: _ } => {
            let op = OP_WRITE_REG;
            if !spec_reg_allowed(m.reg_ranges, addr) {
                (m, resp_fail(op, ErrorCode::RegAccessDenied), Action::Continue)
            } else {
                let stored = (spec_reg_read(m.regs, addr) & !mask) | (value & mask);
                let m2 = StubModel { regs: m.regs.push(RegEntry { addr, value: stored }), ..m };
                (m2, resp_ok(op, 0), Action::Continue)
            }
        },
        CommandModel::ReadReg { addr } => {
            let op = OP_READ_REG;
            if !spec_reg_allowed(m.reg_ranges, addr) {
                (m, resp_fail(op, ErrorCode::RegAccessDenied), Action::Continue)
            } else {
                (m, resp_ok(op, spec_reg_read(m.regs, addr)), Action::Continue)
            }
        },
        CommandModel::ChangeBaudrate { new_baud, old_baud: _ } => {
            (m, resp_ok(OP_CHANGE_BAUDRATE, 0), Action::SetBaud { baud: new_baud })
        },
        CommandModel::FlashDeflBegin { uncompressed_size, num_blocks: _, block_size, offset } => {
            let op = OP_FLASH_DEFL_BEGIN;
            if block_size == 0 || block_size > m.max_write_block {
                (m, resp_fail(op, ErrorCode::BadBlocksize), Action::Continue)
            } else {
                let start = spec_erase_start(offset, m.sector_size);
                let end = spec_erase_end(offset, uncompressed_size, m.sector_size);
                if end > m.flash.len() {
                    (m, resp_fail(op, ErrorCode::FailedSpiOp), Action::Continue)
                } else {
                    let m2 = StubModel {
                        session: SessionModel::Defl {
                            base: offset,
                            block_size,
                            total_size: uncompressed_size,
                            next_seq: 0u32,
                            bytes_written: 0u32,
                        },
                        flash: spec_erase(m.flash, start, end - start),
                        ..m
                    };
                    (m2, resp_ok(op, 0), Action::Continue)
                }
            }
        },
        CommandModel::FlashDeflData { .. } => {
            // Nondeterministic (depends on the decompressor); see `spec_defl_post`.
            (m, resp_fail(OP_FLASH_DEFL_DATA, ErrorCode::NotInFlashMode), Action::Continue)
        },
        CommandModel::FlashDeflEnd { flag } => {
            let op = OP_FLASH_DEFL_END;
            match m.session {
                SessionModel::Defl { base: _, block_size: _, total_size, next_seq: _, bytes_written } => {
                    let m2 = StubModel { session: SessionModel::Idle, ..m };
                    if bytes_written == total_size {
                        let act = if flag == 0 { Action::Reboot } else { Action::Continue };
                        (m2, resp_ok(op, 0), act)
                    } else {
                        (m2, resp_fail(op, ErrorCode::NotEnoughData), Action::Continue)
                    }
                },
                _ => (m, resp_fail(op, ErrorCode::NotInFlashMode), Action::Continue),
            }
        },
        CommandModel::SpiFlashMd5 { addr, len } => {
            let op = OP_SPI_FLASH_MD5;
            if addr + len > m.flash.len() {
                (m, resp_fail(op, ErrorCode::FailedSpiOp), Action::Continue)
            } else {
                (m, resp_data(op, md5_of(m.flash.subrange(addr as int, addr + len))), Action::Continue)
            }
        },
        CommandModel::EraseFlash => {
            let m2 = StubModel { flash: spec_erase(m.flash, 0, m.flash.len() as int), ..m };
            (m2, resp_ok(OP_ERASE_FLASH, 0), Action::Continue)
        },
        CommandModel::EraseRegion { offset, size } => {
            let op = OP_ERASE_REGION;
            if offset % m.sector_size != 0 || size % m.sector_size != 0 {
                (m, resp_fail(op, ErrorCode::FailedSpiOp), Action::Continue)
            } else if offset + size > m.flash.len() {
                (m, resp_fail(op, ErrorCode::FailedSpiOp), Action::Continue)
            } else {
                let m2 = StubModel { flash: spec_erase(m.flash, offset as int, size as int), ..m };
                (m2, resp_ok(op, 0), Action::Continue)
            }
        },
        CommandModel::ReadFlash { offset, len, block_size: _, max_in_flight: _ } => {
            let op = OP_READ_FLASH;
            if len > m.max_write_block {
                (m, resp_fail(op, ErrorCode::BadDataLen), Action::Continue)
            } else if offset + len > m.flash.len() {
                (m, resp_fail(op, ErrorCode::FailedSpiOp), Action::Continue)
            } else {
                (m, resp_data(op, m.flash.subrange(offset as int, offset + len)), Action::Continue)
            }
        },
        CommandModel::RunUserCode => {
            let m2 = StubModel { session: SessionModel::Idle, ..m };
            (m2, resp_ok(OP_RUN_USER_CODE, 0), Action::RunUserCode)
        },
    }
}

/// What processing a `FLASH_DEFL_DATA` command guarantees: the sequencing and
/// checksum rules of a plain data block, and, because the decompressor is an
/// outside component, for the write itself only that *some* inflated byte
/// string within the session's declared size was programmed at the session's
/// write position — or the session was aborted with an explicit error.
pub open spec fn spec_defl_post(
    m: StubModel,
    m2: StubModel,
    seq: u32,
    data: Seq<u8>,
    chk: u32,
    resp: ResponseModel,
    act: Action,
) -> bool {
    &&& act == Action::Continue
    &&& resp.opcode == OP_FLASH_DEFL_DATA
    &&& resp.value == 0
    &&& resp.data == Seq::<u8>::empty()
    &&& match m.session {
        SessionModel::Defl { base, block_size, total_size, next_seq, bytes_written } => {
            if data.len() > block_size {
                m2 == m && resp.status == RespStatus::Failure(ErrorCode::BadDataLen)
            } else if seq != next_seq {
                m2 == m && resp.status == RespStatus::Failure(ErrorCode::BadDataSeq)
            } else if chk != spec_checksum(data) as u32 {
                m2 == m && resp.status == RespStatus::Failure(ErrorCode::BadDataChecksum)
            } else if next_seq == 0xffff_ffffu32 {
                m2 == m && resp.status == RespStatus::Failure(ErrorCode::BadDataSeq)
            } else {
                match resp.status {
                    RespStatus::Success => exists|prod: Seq<u8>|
                        {
                            &&& bytes_written + prod.len() <= total_size
                            &&& m2.flash == #[trigger] spec_store(m.flash, base + bytes_written, prod)
                            &&& m2.session == SessionModel::Defl {
                                base,
                                block_size,
                                total_size,
                                next_seq: (next_seq + 1) as u32,
                                bytes_written: (bytes_written + prod.len()) as u32,
                            }
                            &&& m2.ram == m.ram
                            &&& m2.regs == m.regs
                            &&& m2.max_write_block == m.max_write_block
                            &&& m2.sector_size == m.sector_size
                            &&& m2.reg_ranges == m.reg_ranges
                        },
                    RespStatus::Failure(e) => {
                        &&& (e == ErrorCode::InflateError || e == ErrorCode::TooMuchData)
                        &&& m2 == (StubModel { session: SessionModel::Idle, ..m })
                    },
                }
            }
        },
        _ => m2 == m && resp.status == RespStatus::Failure(ErrorCode::NotInFlashMode),
    }
}



/// The engine itself: target table, flash and MMIO models, RAM-load record,
/// and the at-most-one active session.
pub struct Stub {
    /// The chip-variant table the engine was built for.
    pub target: TargetParams,
    /// The flash array model.
    pub flash: Flash,
    /// The active session, if any.
    pub session: Session,
    /// Every RAM write performed by memory-load sessions, in order.
    pub ram: Vec<MemSegment>,
    /// Every register write performed, in order.
    pub regs: Vec<RegEntry>,
}

impl Stub {
    /// The spec-level state of the engine.
    pub open spec fn model(&self) -> StubModel {
        StubModel {
            session: self.session.model(),
            flash: self.flash@,
            ram: Seq::new(self.ram@.len(), |i: int| (self.ram@[i].addr, self.ram@[i].data@)),
            regs: self.regs@,
            max_write_block: self.target.max_write_block,
            sector_size: self.target.sector_size,
            reg_ranges: self.target.reg_ranges@,
        }
    }

    /// Invariant of the engine state.
    pub open spec fn wf(&self) -> bool {
        self.model().wf()
    }

    /// A fresh engine over an erased flash array, with no session.
    pub fn new(target: TargetParams, flash_size: usize) -> (r: Stub)
        requires
            target.wf(),
            flash_size <= 0xffff_ffff,
        ensures
            r.wf(),
            r.model().session == SessionModel::Idle,
            r.model().flash =~= Seq::new(flash_size as nat, |i: int| crate::flash::ERASED_BYTE),
            r.model().ram =~= Seq::<(u32, Seq<u8>)>::empty(),
            r.model().regs =~= Seq::<RegEntry>::empty(),
            r.model().max_write_block == target.max_write_block,
            r.model().sector_size == target.sector_size,
            r.model().reg_ranges == target.reg_ranges@,
    {
        let flash = Flash::new(flash_size);
        Stub { target, flash, session: Session::Idle, ram: Vec::new(), regs: Vec::new() }
    }

    /// Shared by `FLASH_BEGIN` and `FLASH_DEFL_BEGIN` (block size already
    /// validated): erases the sector span covering the region and opens the
    /// session, or refuses a region past the end of flash.
    fn begin_flash_session(&mut self, size: u32, block_size: u32, offset: u32, compressed: bool)
        -> (r: Result<(), ErrorCode>)
        requires
            old(self).wf(),
            block_size > 0,
            block_size <= old(self).target.max_write_block,
        ensures
            final(self).wf(),
            final(self).model().ram == old(self).model().ram,
            final(self).model().regs == old(self).model().regs,
            final(self).target == old(self).target,
            ({
                let m = old(self).model();
                let start = spec_erase_start(offset, m.sector_size);
                let end = spec_erase_end(offset, size, m.sector_size);
                match r {
                    Ok(_) => {
                        &&& end <= m.flash.len()
                        &&& final(self).model().flash == spec_erase(m.flash, start, end - start)
                        &&& final(self).model().session == (if compressed {
                            SessionModel::Defl {
                                base: offset,
                                block_size,
                                total_size: size,
                                next_seq: 0u32,
                                bytes_written: 0u32,
                            }
                        } else {
                            SessionModel::Flash {
                                base: offset,
                                block_size,
                                total_size: size,
                                next_seq: 0u32,
                                bytes_written: 0u32,
                            }
                        })
                    },
                    Err(e) => {
                        &&& e == ErrorCode::FailedSpiOp
                        &&& end > m.flash.len()
                        &&& final(self).model() == m
                    },
                }
            }),
    {
        let sector = self.target.sector_size;
        let sum64 = offset as u64 + size as u64 + sector as u64 - 1;
        proof {
            lemma_mod_decreases(offset as nat, sector as nat);
            lemma_mod_decreases(sum64 as nat, sector as nat);
            lemma_mod_bound(offset as int, sector as int);
            lemma_mod_bound(sum64 as int, sector as int);
        }
        let start64 = offset as u64 - offset as u64 % sector as u64;
        let end64 = sum64 - sum64 % sector as u64;
        let flen = self.flash.len();
        if end64 > flen as u64 {
            return Err(ErrorCode::FailedSpiOp);
        }
        proof {
            assert(start64 as int == spec_erase_start(offset, sector));
            assert(end64 as int == spec_erase_end(offset, size, sector));
            assert(end64 >= offset as u64 + size as u64);
            assert(start64 <= offset as u64);
        }
        self.flash.erase(start64 as usize, (end64 - start64) as usize);
        if compressed {
            self.session = Session::Defl {
                base: offset,
                block_size,
                total_size: size,
                next_seq: 0,
                bytes_written: 0,
                inflater: inflater_new(),
            };
        } else {
            self.session = Session::Flash {
                base: offset,
                block_size,
                total_size: size,
                next_seq: 0,
                bytes_written: 0,
            };
        }
        Ok(())
    }

    /// The framed greeting (the bytes of "OHAI") that announces a live
    /// stub to the host after boot.
    pub fn greeting() -> (r: Vec<u8>)
        ensures
            r@ == crate::slip::spec_encode(seq![0x4fu8, 0x48u8, 0x41u8, 0x49u8]),
    {
        let mut msg: Vec<u8> = Vec::new();
        msg.push(0x4f);
        msg.push(0x48);
        msg.push(0x41);
        msg.push(0x49);
        proof {
            assert(msg@ =~= seq![0x4fu8, 0x48u8, 0x41u8, 0x49u8]);
        }
        crate::slip::encode_frame(msg.as_slice())
    }

    /// Routes one decoded command to its handler: mutates the session, flash,
    /// RAM and register state exactly as `spec_step` (or, for compressed
    /// data, `spec_defl_post`) says, and builds the one response.
    #[verifier::rlimit(80)]
    pub fn handle_command(&mut self, cmd: Command, chk: u32) -> (r: (Response, Action))
        requires
            old(self).wf(),
        ensures
            final(self).wf(),
            !(cmd.model() is FlashDeflData) ==> (final(self).model(), r.0.model(), r.1)
                == spec_step(old(self).model(), cmd.model(), chk),
            cmd.model() matches CommandModel::FlashDeflData { size: _, seq, data }
                ==> spec_defl_post(old(self).model(), final(self).model(), seq, data, chk,
                    r.0.model(), r.1),
            r.0.data@.len() <= 0x4000,
    {
        match cmd {
            Command::FlashBegin { erase_size, num_blocks: _, block_size, offset } => {
                let op = OP_FLASH_BEGIN;
                if block_size == 0 || block_size > self.target.max_write_block {
                    return (Response::failure(op, ErrorCode::BadBlocksize), Action::Continue);
                }
                match self.begin_flash_session(erase_size, block_size, offset, false) {
                    Ok(_) => {
                        proof {
                            assert(self.model() =~= spec_step(old(self).model(), cmd.model(),
                                chk).0);
                        }
                        (Response::ok(op, 0), Action::Continue)
                    },
                    Err(e) => (Response::failure(op, e), Action::Continue),
                }
            },
            Command::FlashData { size: _, seq, data } => {
                let op = OP_FLASH_DATA;
                let (is_flash, base, block_size, total_size, next_seq, bytes_written) =
                    match &self.session {
                    Session::Flash { base, block_size, total_size, next_seq, bytes_written } => (
                        true,
                        *base,
                        *block_size,
                        *total_size,
                        *next_seq,
                        *bytes_written,
                    ),
                    _ => (false, 0u32, 0u32, 0u32, 0u32, 0u32),
                };
                if !is_flash {
                    return (Response::failure(op, ErrorCode::NotInFlashMode), Action::Continue);
                }
                if data.len() as u64 > block_size as u64 {
                    return (Response::failure(op, ErrorCode::BadDataLen), Action::Continue);
                }
                if seq != next_seq {
                    return (Response::failure(op, ErrorCode::BadDataSeq), Action::Continue);
                }
                let cs = checksum(data.as_slice());
                if chk != cs as u32 {
                    return (Response::failure(op, ErrorCode::BadDataChecksum), Action::Continue);
                }
                if next_seq == 0xffff_ffff {
                    return (Response::failure(op, ErrorCode::BadDataSeq), Action::Continue);
                }
                if bytes_written as u64 + data.len() as u64 > total_size as u64 {
                    return (Response::failure(op, ErrorCode::TooMuchData), Action::Continue);
                }
                let addr = base as u64 + bytes_written as u64;
                self.flash.write(addr as usize, data.as_slice());
                self.session = Session::Flash {
                    base,
                    block_size,
                    total_size,
                    next_seq: next_seq + 1,
                    bytes_written: bytes_written + data.len() as u32,
                };
                proof {
                    assert(self.model() =~= spec_step(old(self).model(), cmd.model(), chk).0);
                }
                (Response::ok(op, 0), Action::Continue)
            },
            Command::FlashEnd { flag } => {
                let op = OP_FLASH_END;
                let is_flash = match &self.session {
                    Session::Flash { .. } => true,
                    _ => false,
                };
                if !is_flash {
                    return (Response::failure(op, ErrorCode::NotInFlashMode), Action::Continue);
                }
                self.session = Session::Idle;
                proof {
                    assert(self.model() =~= spec_step(old(self).model(), cmd.model(), chk).0);
                }
                let act = if flag == 0 { Action::Reboot } else { Action::Continue };
                (Response::ok(op, 0), act)
            },
            Command::MemBegin { total_size, num_blocks: _, block_size, offset } => {
                let op = OP_MEM_BEGIN;
                if block_size == 0 || block_size > self.target.max_write_block {
                    return (Response::failure(op, ErrorCode::BadBlocksize), Action::Continue);
                }
                if offset as u64 + total_size as u64 > 0x1_0000_0000u64 {
                    return (Response::failure(op, ErrorCode::BadDataLen), Action::Continue);
                }
                self.session = Session::Mem {
                    base: offset,
                    block_size,
                    total_size,
                    next_seq: 0,
                    bytes_written: 0,
                };
                proof {
                    assert(self.model() =~= spec_step(old(self).model(), cmd.model(), chk).0);
                }
                (Response::ok(op, 0), Action::Continue)
            },
            Command::MemData { size: _, seq, data } => {
                let op = OP_MEM_DATA;
                let (is_mem, base, block_size, total_size, next_seq, bytes_written) =
                    match &self.session {
                    Session::Mem { base, block_size, total_size, next_seq, bytes_written } => (
                        true,
                        *base,
                        *block_size,
                        *total_size,
                        *next_seq,
                        *bytes_written,
                    ),
                    _ => (false, 0u32, 0u32, 0u32, 0u32, 0u32),
                };
                if !is_mem {
                    return (Response::failure(op, ErrorCode::NotInFlashMode), Action::Continue);
                }
                if data.len() as u64 > block_size as u64 {
                    return (Response::failure(op, ErrorCode::BadDataLen), Action::Continue);
                }
                if seq != next_seq {
                    return (Response::failure(op, ErrorCode::BadDataSeq), Action::Continue);
                }
                let cs = checksum(data.as_slice());
                if chk != cs as u32 {
                    return (Response::failure(op, ErrorCode::BadDataChecksum), Action::Continue);
                }
                if next_seq == 0xffff_ffff {
                    return (Response::failure(op, ErrorCode::BadDataSeq), Action::Continue);
                }
                if bytes_written as u64 + data.len() as u64 > total_size as u64 {
                    return (Response::failure(op, ErrorCode::TooMuchData), Action::Continue);
                }
                let ghost dataview = data@;
                let n = data.len();
                let addr = (base as u64 + bytes_written as u64) as u32;
                self.ram.push(MemSegment { addr, data });
                self.session = Session::Mem {
                    base,
                    block_size,
                    total_size,
                    next_seq: next_seq + 1,
                    bytes_written: bytes_written + n as u32,
                };
                proof {
                    let m = old(self).model();
                    assert(self.model().ram =~= m.ram.push(((base + bytes_written) as u32,
                        dataview)));
                    assert(self.model() =~= spec_step(m, cmd.model(), chk).0);
                }
                (Response::ok(op, 0), Action::Continue)
            },
            Command::MemEnd { flag, entry } => {
                let op = OP_MEM_END;
                let is_mem = match &self.session {
                    Session::Mem { .. } => true,
                    _ => false,
                };
                if !is_mem {
                    return (Response::failure(op, ErrorCode::NotInFlashMode), Action::Continue);
                }
                self.session = Session::Idle;
                proof {
                    assert(self.model() =~= spec_step(old(self).model(), cmd.model(), chk).0);
                }
                let act = if flag == 0 { Action::JumpTo { entry } } else { Action::Continue };
                (Response::ok(op, 0), act)
            },
            Command::Sync => {
                self.session = Session::Idle;
                proof {
                    assert(self.model() =~= spec_step(old(self).model(), cmd.model(), chk).0);
                }
                (Response::ok(OP_SYNC, 0), Action::Continue)
            },
            Command::WriteReg { addr, value, mask, delay_us: _ } => {
                let op = OP_WRITE_REG;
                if !self.target.reg_allowed(addr) {
                    return (Response::failure(op, ErrorCode::RegAccessDenied), Action::Continue);
                }
                let old_val = reg_read(&self.regs, addr);
                let stored = (old_val & !mask) | (value & mask);
                self.regs.push(RegEntry { addr, value: stored });
                proof {
                    assert(self.model() =~= spec_step(old(self).model(), cmd.model(), chk).0);
                }
                (Response::ok(op, 0), Action::Continue)
            },
            Command::ReadReg { addr } => {
                let op = OP_READ_REG;
                if !self.target.reg_allowed(addr) {
                    return (Response::failure(op, ErrorCode::RegAccessDenied), Action::Continue);
                }
                let value = reg_read(&self.regs, addr);
                (Response::ok(op, value), Action::Continue)
            },
            Command::ChangeBaudrate { new_baud, old_baud: _ } => {
                (Response::ok(OP_CHANGE_BAUDRATE, 0), Action::SetBaud { baud: new_baud })
            },
            Command::FlashDeflBegin { uncompressed_size, num_blocks: _, block_size, offset } => {
                let op = OP_FLASH_DEFL_BEGIN;
                if block_size == 0 || block_size > self.target.max_write_block {
                    return (Response::failure(op, ErrorCode::BadBlocksize), Action::Continue);
                }
                match self.begin_flash_session(uncompressed_size, block_size, offset, true) {
                    Ok(_) => {
                        proof {
                            assert(self.model() =~= spec_step(old(self).model(), cmd.model(),
                                chk).0);
                        }
                        (Response::ok(op, 0), Action::Continue)
                    },
                    Err(e) => (Response::failure(op, e), Action::Continue),
                }
            },
            Command::FlashDeflData { size: _, seq, data } => {
                self.handle_defl_data(seq, data, chk)
            },
            Command::FlashDeflEnd { flag } => {
                let op = OP_FLASH_DEFL_END;
                let (is_defl, total_size, bytes_written) = match &self.session {
                    Session::Defl { base: _, block_size: _, total_size, next_seq: _,
                        bytes_written, inflater: _ } => (true, *total_size, *bytes_written),
                    _ => (false, 0u32, 0u32),
                };
                if !is_defl {
                    return (Response::failure(op, ErrorCode::NotInFlashMode), Action::Continue);
                }
                self.session = Session::Idle;
                proof {
                    assert(self.model() =~= spec_step(old(self).model(), cmd.model(), chk).0);
                }
                if bytes_written == total_size {
                    let act = if flag == 0 { Action::Reboot } else { Action::Continue };
                    (Response::ok(op, 0), act)
                } else {
                    (Response::failure(op, ErrorCode::NotEnoughData), Action::Continue)
                }
            },
            Command::SpiFlashMd5 { addr, len } => {
                let op = OP_SPI_FLASH_MD5;
                let flen = self.flash.len();
                if addr as u64 + len as u64 > flen as u64 {
                    return (Response::failure(op, ErrorCode::FailedSpiOp), Action::Continue);
                }
                let region = self.flash.read(addr as usize, len as usize);
                let digest = md5_digest(region.as_slice());
                let resp = Response {
                    opcode: op,
                    value: 0,
                    data: digest,
                    status: RespStatus::Success,
                };
                proof {
                    assert(resp.model() =~= spec_step(old(self).model(), cmd.model(), chk).1);
                }
                (resp, Action::Continue)
            },
            Command::EraseFlash => {
                let flen = self.flash.len();
                self.flash.erase(0, flen);
                proof {
                    assert(self.model() =~= spec_step(old(self).model(), cmd.model(), chk).0);
                }
                (Response::ok(OP_ERASE_FLASH, 0), Action::Continue)
            },
            Command::EraseRegion { offset, size } => {
                let op = OP_ERASE_REGION;
                let sector = self.target.sector_size;
                if offset % sector != 0 || size % sector != 0 {
                    return (Response::failure(op, ErrorCode::FailedSpiOp), Action::Continue);
                }
                let flen = self.flash.len();
                if offset as u64 + size as u64 > flen as u64 {
                    return (Response::failure(op, ErrorCode::FailedSpiOp), Action::Continue);
                }
                self.flash.erase(offset as usize, size as usize);
                proof {
                    assert(self.model() =~= spec_step(old(self).model(), cmd.model(), chk).0);
                }
                (Response::ok(op, 0), Action::Continue)
            },
            Command::ReadFlash { offset, len, block_size: _, max_in_flight: _ } => {
                let op = OP_READ_FLASH;
                if len > self.target.max_write_block {
                    return (Response::failure(op, ErrorCode::BadDataLen), Action::Continue);
                }
                let flen = self.flash.len();
                if offset as u64 + len as u64 > flen as u64 {
                    return (Response::failure(op, ErrorCode::FailedSpiOp), Action::Continue);
                }
                let data = self.flash.read(offset as usize, len as usize);
                let resp = Response { opcode: op, value: 0, data, status: RespStatus::Success };
                proof {
                    assert(resp.model() =~= spec_step(old(self).model(), cmd.model(), chk).1);
                }
                (resp, Action::Continue)
            },
            Command::RunUserCode => {
                self.session = Session::Idle;
                proof {
                    assert(self.model() =~= spec_step(old(self).model(), cmd.model(), chk).0);
                }
                (Response::ok(OP_RUN_USER_CODE, 0), Action::RunUserCode)
            },
        }
    }

    /// Handles one `FLASH_DEFL_DATA` block: sequencing and checksum checks as
    /// for a plain block, then the payload is run through the decompressor
    /// under the session's declared size bound, and whatever came out is
    /// programmed at the session's write position.
    fn handle_defl_data(&mut self, seq: u32, data: Vec<u8>, chk: u32) -> (r: (Response, Action))
        requires
            old(self).wf(),
        ensures
            final(self).wf(),
            spec_defl_post(old(self).model(), final(self).model(), seq, data@, chk, r.0.model(),
                r.1),
            r.0.data@.len() <= 0x4000,
    {
        let op = OP_FLASH_DEFL_DATA;
        let mut sess = Session::Idle;
        core::mem::swap(&mut sess, &mut self.session);
        match sess {
            Session::Defl { base, block_size, total_size, next_seq, bytes_written,
                mut inflater } => {
                if data.len() as u64 > block_size as u64 {
                    self.session = Session::Defl { base, block_size, total_size, next_seq,
                        bytes_written, inflater };
                    proof {
                        assert(self.model() =~= old(self).model());
                    }
                    return (Response::failure(op, ErrorCode::BadDataLen), Action::Continue);
                }
                if seq != next_seq {
                    self.session = Session::Defl { base, block_size, total_size, next_seq,
                        bytes_written, inflater };
                    proof {
                        assert(self.model() =~= old(self).model());
                    }
                    return (Response::failure(op, ErrorCode::BadDataSeq), Action::Continue);
                }
                let cs = checksum(data.as_slice());
                if chk != cs as u32 {
                    self.session = Session::Defl { base, block_size, total_size, next_seq,
                        bytes_written, inflater };
                    proof {
                        assert(self.model() =~= old(self).model());
                    }
                    return (Response::failure(op, ErrorCode::BadDataChecksum), Action::Continue);
                }
                if next_seq == 0xffff_ffff {
                    self.session = Session::Defl { base, block_size, total_size, next_seq,
                        bytes_written, inflater };
                    proof {
                        assert(self.model() =~= old(self).model());
                    }
                    return (Response::failure(op, ErrorCode::BadDataSeq), Action::Continue);
                }
                let remaining = total_size - bytes_written;
                let mut produced: Vec<u8> = Vec::new();
                let mut consumed: usize = 0;
                let mut finished = false;
                let mut corrupt = false;
                let mut stalled = false;
                let mut too_much = false;
                let mut rounds: u64 = 0;
                let mut made_progress = true;
                let cap: u64 = remaining as u64 / 1024 + data.len() as u64 + 4;
                while rounds < cap && !finished && !corrupt && !stalled && !too_much
                    && (consumed < data.len() || made_progress)
                    invariant
                        consumed <= data@.len(),
                        !too_much ==> produced@.len() <= remaining,
                    decreases cap - rounds,
                {
                    let before = produced.len();
                    let consumed_before = consumed;
                    let (c, st) = inflate_step(&mut inflater,
                        vstd::slice::slice_subrange(data.as_slice(), consumed, data.len()),
                        &mut produced);
                    consumed = consumed + c;
                    match st {
                        InflateStatus::Finished => {
                            finished = true;
                        },
                        InflateStatus::Corrupt => {
                            corrupt = true;
                        },
                        InflateStatus::NeedInput => {
                            stalled = consumed < data.len();
                        },
                        InflateStatus::Progress => {
                            if c == 0 && produced.len() == before {
                                stalled = true;
                            }
                        },
                    }
                    if produced.len() as u64 > remaining as u64 {
                        too_much = true;
                    }
                    made_progress = consumed > consumed_before || produced.len() > before;
                    rounds = rounds + 1;
                }
                if corrupt || stalled || (!finished && consumed < data.len() && !too_much) {
                    self.session = Session::Idle;
                    proof {
                        assert(self.model() =~= (StubModel { session: SessionModel::Idle,
                            ..old(self).model() }));
                    }
                    return (Response::failure(op, ErrorCode::InflateError), Action::Continue);
                }
                if too_much || (finished && consumed < data.len()) {
                    self.session = Session::Idle;
                    proof {
                        assert(self.model() =~= (StubModel { session: SessionModel::Idle,
                            ..old(self).model() }));
                    }
                    return (Response::failure(op, ErrorCode::TooMuchData), Action::Continue);
                }
                let addr = base as u64 + bytes_written as u64;
                let n = produced.len();
                self.flash.write(addr as usize, produced.as_slice());
                self.session = Session::Defl {
                    base,
                    block_size,
                    total_size,
                    next_seq: next_seq + 1,
                    bytes_written: bytes_written + n as u32,
                    inflater,
                };
                proof {
                    let m = old(self).model();
                    let m2 = self.model();
                    assert(m2.flash == spec_store(m.flash, base + bytes_written, produced@));
                    assert(m2.session =~= SessionModel::Defl {
                        base,
                        block_size,
                        total_size,
                        next_seq: (next_seq + 1) as u32,
                        bytes_written: (bytes_written + produced@.len()) as u32,
                    });
                    assert(m2.ram =~= m.ram);
                }
                (Response::ok(op, 0), Action::Continue)
            },
            other => {
                self.session = other;
                proof {
                    assert(self.model() =~= old(self).model());
                }
                (Response::failure(op, ErrorCode::NotInFlashMode), Action::Continue)
            },
        }
    }
}

/// The value the register model yields at `addr`.
fn reg_read(regs: &Vec<RegEntry>, addr: u32) -> (r: u32)
    ensures
        r == spec_reg_read(regs@, addr),
{
    let mut i: usize = regs.len();
    proof {
        assert(regs@.take(i as int) =~= regs@);
    }
    while i > 0
        invariant
            i <= regs@.len(),
            spec_reg_read(regs@, addr) == spec_reg_read(regs@.take(i as int), addr),
        decreases i,
    {
        i = i - 1;
        let e = regs[i];
        proof {
            assert(regs@.take(i + 1).last() == regs@[i as int]);
            assert(regs@.take(i + 1).drop_last() =~= regs@.take(i as int));
        }
        if e.addr == addr {
            return e.value;
        }
    }
    proof {
        assert(regs@.take(0) =~= Seq::<RegEntry>::empty());
    }
    0
}


impl Stub {
    /// Handles one whole unframed packet: splits the header, decodes the
    /// command, runs it, and builds the wire form of the one response. A
    /// malformed packet or unknown opcode changes no state and is answered
    /// with a failure response echoing the opcode (where one was present).
    pub fn handle_frame(&mut self, frame: &[u8]) -> (r: (Vec<u8>, Action))
        requires
            old(self).wf(),
        ensures
            final(self).wf(),
            ({
                let m = old(self).model();
                if !spec_packet_wf(frame@) {
                    let e = if frame@.len() < 8 {
                        ErrorCode::BadDataLen
                    } else if frame@[0] != DIR_REQUEST {
                        ErrorCode::InvalidCommand
                    } else {
                        ErrorCode::BadDataLen
                    };
                    let echo = if frame@.len() >= 2 { frame@[1] } else { 0u8 };
                    &&& final(self).model() == m
                    &&& r.0@ == spec_encode_response(resp_fail(echo, e))
                    &&& r.1 == Action::Continue
                } else {
                    let op = frame@[1];
                    let chk = spec_u32le(frame@, 4);
                    let pl = frame@.skip(8);
                    match spec_decode(op, pl) {
                        Err(e) => {
                            &&& final(self).model() == m
                            &&& r.0@ == spec_encode_response(resp_fail(op, e))
                            &&& r.1 == Action::Continue
                        },
                        Ok(c) => {
                            &&& (c matches CommandModel::FlashDeflData { size: _, seq, data }
                                ==> exists|resp: ResponseModel|
                                {
                                    &&& #[trigger] spec_defl_post(m, final(self).model(), seq,
                                        data, chk, resp, r.1)
                                    &&& r.0@ == spec_encode_response(resp)
                                })
                            &&& (!(c is FlashDeflData) ==> {
                                let (m2, resp, act) = spec_step(m, c, chk);
                                &&& final(self).model() == m2
                                &&& r.0@ == spec_encode_response(resp)
                                &&& r.1 == act
                            })
                        },
                    }
                }
            }),
    {
        match parse_packet(frame) {
            Err(e) => {
                let echo: u8 = if frame.len() >= 2 { frame[1] } else { 0 };
                let resp = Response::failure(echo, e);
                (encode_response(&resp), Action::Continue)
            },
            Ok(p) => {
                match decode_command(p.opcode, p.payload.as_slice()) {
                    Err(e) => {
                        let resp = Response::failure(p.opcode, e);
                        (encode_response(&resp), Action::Continue)
                    },
                    Ok(c) => {
                        let (resp, act) = self.handle_command(c, p.checksum);
                        let out = encode_response(&resp);
                        proof {
                            if c.model() is FlashDeflData {
                                assert(spec_defl_post(old(self).model(), self.model(),
                                    c.model()->FlashDeflData_seq, c.model()->FlashDeflData_data,
                                    p.checksum, resp.model(), act));
                            }
                        }
                        (out, act)
                    },
                }
            },
        }
    }
}

} // verus!
