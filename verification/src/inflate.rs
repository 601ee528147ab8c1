//! Streaming zlib decompression for the compressed-flash session. The
//! decompressor state and its behaviour belong to an outside implementation;
//! the engine only loops over it under its own bounds.

use vstd::prelude::*;

verus! {

/// Declares `miniz_oxide::inflate::stream::InflateState`, the opaque
/// decompressor state a compressed session holds between data blocks.
#[verifier::external_type_specification]
#[verifier::external_body]
pub struct ExInflateState(miniz_oxide::inflate::stream::InflateState);

/// Outcome of one streaming-inflate call.
#[derive(Clone, Copy, PartialEq, Eq, Structural, Debug)]
pub enum InflateStatus {
    /// Progress was made; more input or output may follow.
    Progress,
    /// The compressed stream has ended.
    Finished,
    /// No progress is possible until more input arrives.
    NeedInput,
    /// The compressed stream is corrupt.
    Corrupt,
}

/// Relies on `miniz_oxide::inflate::stream::InflateState::new_boxed`: a fresh
/// zlib decompressor with no pending state.
#[verifier::external_body]
pub(crate) fn inflater_new() -> (r: Box<miniz_oxide::inflate::stream::InflateState>) {
    miniz_oxide::inflate::stream::InflateState::new_boxed(miniz_oxide::DataFormat::Zlib)
}

/// Relies on `miniz_oxide::inflate::stream::inflate` with `MZFlush::None`: it
/// consumes at most `input.len()` bytes, appends the bytes it inflated to
/// `out`, and reports end of stream (`StreamEnd`), corruption (`Data` error),
/// starvation (`Buf` error), or plain progress.
#[verifier::external_body]
pub(crate) fn inflate_step(
    state: &mut Box<miniz_oxide::inflate::stream::InflateState>,
    input: &[u8],
    out: &mut Vec<u8>,
) -> (r: (usize, InflateStatus))
    ensures
        r.0 <= input@.len(),
        final(out)@.len() >= old(out)@.len(),
        final(out)@.subrange(0, old(out)@.len() as int) == old(out)@,
{
    let mut buf = [0u8; 4096];
    let res = miniz_oxide::inflate::stream::inflate(
        state,
        input,
        &mut buf,
        miniz_oxide::MZFlush::None,
    );
    out.extend_from_slice(&buf[..res.bytes_written]);
    let status = match res.status {
        Ok(miniz_oxide::MZStatus::StreamEnd) => InflateStatus::Finished,
        Ok(_) => InflateStatus::Progress,
        Err(miniz_oxide::MZError::Buf) => InflateStatus::NeedInput,
        Err(_) => InflateStatus::Corrupt,
    };
    (res.bytes_consumed, status)
}

} // verus!
