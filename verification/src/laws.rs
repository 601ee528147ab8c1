//! Protocol laws: properties of the dispatcher's transition function that
//! hold of every state, stated and proved once and for all.

use vstd::prelude::*;
use crate::spec_checksum;
use crate::decoder::CommandModel;
use crate::decoder::ErrorCode;
use crate::decoder::spec_decode;
use crate::digest::md5_of;
use crate::proto::OP_FLASH_BEGIN;
use crate::proto::OP_FLASH_DATA;
use crate::proto::OP_FLASH_END;
use crate::proto::OP_MEM_BEGIN;
use crate::proto::OP_MEM_END;
use crate::proto::OP_MEM_DATA;
use crate::proto::OP_SYNC;
use crate::proto::OP_WRITE_REG;
use crate::proto::OP_READ_REG;
use crate::proto::OP_CHANGE_BAUDRATE;
use crate::proto::OP_FLASH_DEFL_BEGIN;
use crate::proto::OP_FLASH_DEFL_DATA;
use crate::proto::OP_FLASH_DEFL_END;
use crate::proto::OP_SPI_FLASH_MD5;
use crate::proto::OP_ERASE_FLASH;
use crate::proto::OP_ERASE_REGION;
use crate::proto::OP_READ_FLASH;
use crate::proto::OP_RUN_USER_CODE;
use crate::response::RespStatus;
use crate::stub::Action;
use crate::stub::SessionModel;
use crate::stub::StubModel;
use crate::stub::resp_fail;
use crate::flash::spec_store;
use crate::stub::spec_erase_end;
use crate::stub::spec_step;

verus! {

/// Law: `FLASH_DATA` sequence numbers are strictly increasing per session.
/// A block bearing any sequence number other than the expected one is
/// answered with a failure and changes nothing, and the expected sequence
/// number — re-sent after such a failure — succeeds and advances the
/// session by exactly that block.
pub proof fn lemma_flash_data_sequencing(
    m: StubModel,
    sz: u32,
    seq: u32,
    data: Seq<u8>,
    chk: u32,
    base: u32,
    block_size: u32,
    total_size: u32,
    next_seq: u32,
    bytes_written: u32,
)
    requires
        m.session == (SessionModel::Flash { base, block_size, total_size, next_seq, bytes_written }),
        data.len() <= block_size,
        chk == spec_checksum(data) as u32,
        next_seq < 0xffff_ffff,
        bytes_written + data.len() <= total_size,
    ensures
        seq != next_seq ==> spec_step(m, CommandModel::FlashData { size: sz, seq, data }, chk)
            == (m, resp_fail(OP_FLASH_DATA, ErrorCode::BadDataSeq), Action::Continue),
        seq == next_seq ==> ({
            let (m2, resp, act) = spec_step(m, CommandModel::FlashData { size: sz, seq, data },
                chk);
            &&& resp.status == RespStatus::Success
            &&& act == Action::Continue
            &&& m2.session == (SessionModel::Flash {
                base,
                block_size,
                total_size,
                next_seq: (next_seq + 1) as u32,
                bytes_written: (bytes_written + data.len()) as u32,
            })
        }),
{
}

/// Law: a `FLASH_BEGIN` answered with success and immediately followed by
/// `FLASH_END` with zero data blocks is legal: both succeed, the session is
/// closed, and (with the reboot flag withheld) no reset is requested. The
/// flash holds what the begin's erase left.
pub proof fn lemma_begin_then_end_empty_session(
    m: StubModel,
    erase_size: u32,
    num_blocks: u32,
    block_size: u32,
    offset: u32,
    chk: u32,
)
    requires
        0 < block_size <= m.max_write_block,
        spec_erase_end(offset, erase_size, m.sector_size) <= m.flash.len(),
    ensures
        ({
            let begin = CommandModel::FlashBegin { erase_size, num_blocks, block_size, offset };
            let (m1, r1, _a1) = spec_step(m, begin, chk);
            let (m2, r2, a2) = spec_step(m1, CommandModel::FlashEnd { flag: 1 }, chk);
            &&& r1.status == RespStatus::Success
            &&& r2.status == RespStatus::Success
            &&& m2.session == SessionModel::Idle
            &&& a2 == Action::Continue
            &&& m2.flash == m1.flash
        }),
{
}

/// Law: `SYNC` is answered with success in every state; it discards any
/// session, touches no flash cell (nothing beyond bytes already physically
/// written remains), and a subsequent `FLASH_BEGIN` opens a fresh session
/// with sequence number and write position zero.
pub proof fn lemma_sync_discards_session(
    m: StubModel,
    chk: u32,
    erase_size: u32,
    num_blocks: u32,
    block_size: u32,
    offset: u32,
)
    requires
        0 < block_size <= m.max_write_block,
        spec_erase_end(offset, erase_size, m.sector_size) <= m.flash.len(),
    ensures
        ({
            let (m1, r1, a1) = spec_step(m, CommandModel::Sync, chk);
            let begin = CommandModel::FlashBegin { erase_size, num_blocks, block_size, offset };
            let (m2, r2, _a2) = spec_step(m1, begin, chk);
            &&& r1.status == RespStatus::Success
            &&& a1 == Action::Continue
            &&& m1.session == SessionModel::Idle
            &&& m1.flash == m.flash
            &&& m1.ram == m.ram
            &&& m1.regs == m.regs
            &&& r2.status == RespStatus::Success
            &&& m2.session == (SessionModel::Flash {
                base: offset,
                block_size,
                total_size: erase_size,
                next_seq: 0u32,
                bytes_written: 0u32,
            })
        }),
{
}

/// Law: an opcode outside the command table decodes to the explicit
/// `InvalidCommand` failure, whatever the payload holds; the dispatcher then
/// answers with a failure response echoing that opcode and changes no state
/// (see `Stub::handle_frame`).
pub proof fn lemma_unknown_opcode_rejected(op: u8, pl: Seq<u8>)
    requires
        op != OP_FLASH_BEGIN,
        op != OP_FLASH_DATA,
        op != OP_FLASH_END,
        op != OP_MEM_BEGIN,
        op != OP_MEM_DATA,
        op != OP_MEM_END,
        op != OP_SYNC,
        op != OP_WRITE_REG,
        op != OP_READ_REG,
        op != OP_CHANGE_BAUDRATE,
        op != OP_FLASH_DEFL_BEGIN,
        op != OP_FLASH_DEFL_DATA,
        op != OP_FLASH_DEFL_END,
        op != OP_SPI_FLASH_MD5,
        op != OP_ERASE_FLASH,
        op != OP_ERASE_REGION,
        op != OP_READ_FLASH,
        op != OP_RUN_USER_CODE,
    ensures
        spec_decode(op, pl) == Err::<CommandModel, ErrorCode>(ErrorCode::InvalidCommand),
{
}

/// Law: a full session — `FLASH_BEGIN` for a four-kilobyte region, four
/// in-order kilobyte data blocks, `FLASH_END` with the reboot flag withheld
/// — succeeds throughout, requests no reset, and leaves the flash region at
/// the session's offset holding exactly the four blocks concatenated in
/// order. The MD5 answered over that freshly written region is the digest
/// of exactly the bytes sent.
#[verifier::rlimit(80)]
pub proof fn lemma_flash_session_writes_blocks(
    m0: StubModel,
    o: u32,
    b0: Seq<u8>,
    b1: Seq<u8>,
    b2: Seq<u8>,
    b3: Seq<u8>,
)
    requires
        m0.max_write_block >= 1024,
        m0.sector_size > 0,
        b0.len() == 1024,
        b1.len() == 1024,
        b2.len() == 1024,
        b3.len() == 1024,
        spec_erase_end(o, 4096, m0.sector_size) <= m0.flash.len(),
    ensures
        ({
            let begin = CommandModel::FlashBegin {
                erase_size: 4096,
                num_blocks: 4,
                block_size: 1024,
                offset: o,
            };
            let (m1, r1, _a1) = spec_step(m0, begin, 0);
            let (m2, r2, _a2) = spec_step(m1,
                CommandModel::FlashData { size: 1024, seq: 0, data: b0 },
                spec_checksum(b0) as u32);
            let (m3, r3, _a3) = spec_step(m2,
                CommandModel::FlashData { size: 1024, seq: 1, data: b1 },
                spec_checksum(b1) as u32);
            let (m4, r4, _a4) = spec_step(m3,
                CommandModel::FlashData { size: 1024, seq: 2, data: b2 },
                spec_checksum(b2) as u32);
            let (m5, r5, _a5) = spec_step(m4,
                CommandModel::FlashData { size: 1024, seq: 3, data: b3 },
                spec_checksum(b3) as u32);
            let (m6, r6, a6) = spec_step(m5, CommandModel::FlashEnd { flag: 1 }, 0);
            let (_m7, r7, _a7) = spec_step(m6, CommandModel::SpiFlashMd5 { addr: o, len: 4096 },
                0);
            &&& r1.status == RespStatus::Success
            &&& r2.status == RespStatus::Success
            &&& r3.status == RespStatus::Success
            &&& r4.status == RespStatus::Success
            &&& r5.status == RespStatus::Success
            &&& r6.status == RespStatus::Success
            &&& a6 == Action::Continue
            &&& m6.session == SessionModel::Idle
            &&& m6.flash.subrange(o as int, o + 4096) == b0 + b1 + b2 + b3
            &&& r7.status == RespStatus::Success
            &&& r7.data == md5_of(b0 + b1 + b2 + b3)
        }),
{
    vstd::arithmetic::div_mod::lemma_mod_bound(o + 4096 + m0.sector_size - 1,
        m0.sector_size as int);
    let begin = CommandModel::FlashBegin {
        erase_size: 4096,
        num_blocks: 4,
        block_size: 1024,
        offset: o,
    };
    let (m1, r1, _a1) = spec_step(m0, begin, 0);
    let (m2, r2, _a2) = spec_step(m1, CommandModel::FlashData { size: 1024, seq: 0, data: b0 },
        spec_checksum(b0) as u32);
    let (m3, r3, _a3) = spec_step(m2, CommandModel::FlashData { size: 1024, seq: 1, data: b1 },
        spec_checksum(b1) as u32);
    let (m4, r4, _a4) = spec_step(m3, CommandModel::FlashData { size: 1024, seq: 2, data: b2 },
        spec_checksum(b2) as u32);
    let (m5, r5, _a5) = spec_step(m4, CommandModel::FlashData { size: 1024, seq: 3, data: b3 },
        spec_checksum(b3) as u32);
    let (m6, r6, a6) = spec_step(m5, CommandModel::FlashEnd { flag: 1 }, 0);
    assert(m1.flash.len() == m0.flash.len());
    assert(m2.flash == spec_store(m1.flash, o as int, b0));
    assert(m3.flash == spec_store(m2.flash, o + 1024, b1));
    assert(m4.flash == spec_store(m3.flash, o + 2048, b2));
    assert(m5.flash == spec_store(m4.flash, o + 3072, b3));
    assert(m6.flash == m5.flash);
    let cat = b0 + b1 + b2 + b3;
    assert(m6.flash.subrange(o as int, o + 4096) =~= cat) by {
        assert forall|j: int| 0 <= j < 4096 implies m6.flash.subrange(o as int, o + 4096)[j]
            == cat[j] by {
            if j < 1024 {
                assert(m6.flash[o + j] == b0[j]);
                assert(cat[j] == b0[j]);
            } else if j < 2048 {
                assert(m6.flash[o + j] == b1[j - 1024]);
                assert(cat[j] == b1[j - 1024]);
            } else if j < 3072 {
                assert(m6.flash[o + j] == b2[j - 2048]);
                assert(cat[j] == b2[j - 2048]);
            } else {
                assert(m6.flash[o + j] == b3[j - 3072]);
                assert(cat[j] == b3[j - 3072]);
            }
        }
    }
}

} // verus!
