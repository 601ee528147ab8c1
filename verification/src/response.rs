//! Response encoding: every command is answered by exactly one response
//! packet carrying the echoed opcode, a value word, optional data, and a
//! two-byte status trailer.

use vstd::prelude::*;
use vstd::bytes::spec_u16_to_le_bytes;
use vstd::bytes::spec_u32_to_le_bytes;
use vstd::bytes::u16_to_le_bytes;
use vstd::bytes::u32_to_le_bytes;
use vstd::slice::slice_to_vec;
use crate::proto::DIR_RESPONSE;
use crate::decoder::ErrorCode;
use crate::decoder::spec_error_byte;

verus! {

/// Outcome carried in a response's status trailer.
#[derive(Clone, Copy, PartialEq, Eq, Structural, Debug)]
pub enum RespStatus {
    /// The command was carried out.
    Success,
    /// The command was refused for the carried reason.
    Failure(ErrorCode),
}

/// A response packet before framing.
pub struct Response {
    /// The opcode of the command being answered.
    pub opcode: u8,
    /// The value word (register reads put the register value here).
    pub value: u32,
    /// Data carried before the status trailer (digests, flash bytes).
    pub data: Vec<u8>,
    /// Success, or the error that the command ran into.
    pub status: RespStatus,
}

/// Spec-level mirror of `Response`.
#[verifier::ext_equal]
pub ghost struct ResponseModel {
    pub opcode: u8,
    pub value: u32,
    pub data: Seq<u8>,
    pub status: RespStatus,
}

impl Response {
    /// The spec-level value of this response.
    pub open spec fn model(&self) -> ResponseModel {
        ResponseModel {
            opcode: self.opcode,
            value: self.value,
            data: self.data@,
            status: self.status,
        }
    }

    /// A success response without data.
    pub fn ok(opcode: u8, value: u32) -> (r: Response)
        ensures
            r.model() == (ResponseModel {
                opcode,
                value,
                data: Seq::<u8>::empty(),
                status: RespStatus::Success,
            }),
    {
        let r = Response { opcode, value, data: Vec::new(), status: RespStatus::Success };
        proof {
            assert(r.model().data =~= Seq::<u8>::empty());
        }
        r
    }

    /// A failure response carrying `error`.
    pub fn failure(opcode: u8, error: ErrorCode) -> (r: Response)
        ensures
            r.model() == (ResponseModel {
                opcode,
                value: 0u32,
                data: Seq::<u8>::empty(),
                status: RespStatus::Failure(error),
            }),
    {
        let r = Response { opcode, value: 0, data: Vec::new(), status: RespStatus::Failure(error) };
        proof {
            assert(r.model().data =~= Seq::<u8>::empty());
        }
        r
    }
}

/// The two status-trailer bytes: success flag, then the error byte.
pub open spec fn spec_status_bytes(st: RespStatus) -> Seq<u8> {
    match st {
        RespStatus::Success => seq![0u8, 0u8],
        RespStatus::Failure(e) => seq![1u8, spec_error_byte(e)],
    }
}

/// The wire form of a response packet (before framing): direction marker,
/// opcode, length of data plus trailer, value word, data, status trailer.
pub open spec fn spec_encode_response(m: ResponseModel) -> Seq<u8> {
    seq![DIR_RESPONSE, m.opcode] + spec_u16_to_le_bytes((m.data.len() + 2) as u16)
        + spec_u32_to_le_bytes(m.value) + m.data + spec_status_bytes(m.status)
}

/// Encodes a response packet into its wire form.
pub fn encode_response(r: &Response) -> (out: Vec<u8>)
    requires
        r.data@.len() + 2 <= 0xffff,
    ensures
        out@ == spec_encode_response(r.model()),
{
    let mut out: Vec<u8> = Vec::new();
    out.push(DIR_RESPONSE);
    out.push(r.opcode);
    let mut lenb = u16_to_le_bytes((r.data.len() + 2) as u16);
    out.append(&mut lenb);
    let mut valb = u32_to_le_bytes(r.value);
    out.append(&mut valb);
    let mut data = slice_to_vec(r.data.as_slice());
    out.append(&mut data);
    match r.status {
        RespStatus::Success => {
            out.push(0);
            out.push(0);
        },
        RespStatus::Failure(e) => {
            out.push(1);
            out.push(e.byte());
        },
    }
    proof {
        assert(out@ =~= spec_encode_response(r.model()));
    }
    out
}

} // verus!
