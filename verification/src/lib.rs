//! RAM-resident flashing stub protocol engine.
//!
//! The engine turns a raw byte stream into SLIP frames, frames into typed
//! commands, and runs the flash/RAM write session state machine that answers
//! each command with exactly one response.

pub mod decoder;
pub mod digest;
pub mod response;
pub mod flash;
pub mod inflate;
pub mod laws;
pub mod proto;
pub mod stub;
pub mod slip;
pub mod targets;
pub mod transport;

use vstd::prelude::*;

verus! {

/// XOR checksum over a byte sequence, seeded with the protocol's fixed seed.
pub open spec fn spec_checksum(data: Seq<u8>) -> u8
    decreases data.len(),
{
    if data.len() == 0 {
        0xefu8
    } else {
        spec_checksum(data.drop_last()) ^ data.last()
    }
}

/// Computes the running XOR checksum that data-carrying commands declare.
pub fn checksum(data: &[u8]) -> (r: u8)
    ensures
        r == spec_checksum(data@),
{
    let mut acc: u8 = 0xef;
    let mut i: usize = 0;
    while i < data.len()
        invariant
            i <= data@.len(),
            acc == spec_checksum(data@.take(i as int)),
        decreases data@.len() - i,
    {
        proof {
            assert(data@.take(i + 1).drop_last() =~= data@.take(i as int));
        }
        acc = acc ^ data[i];
        i = i + 1;
    }
    proof {
        assert(data@.take(data@.len() as int) =~= data@);
    }
    acc
}

} // verus!
