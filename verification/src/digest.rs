//! The MD5 digest used by `SPI_FLASH_MD5` to let the host verify a written
//! region. The digest itself comes from an outside implementation; the engine
//! only names its result.

use vstd::prelude::*;

verus! {

/// The MD5 digest of a byte sequence: sixteen bytes determined by the input
/// bytes alone.
pub uninterp spec fn md5_of(data: Seq<u8>) -> Seq<u8>;

/// Relies on `md5::Md5` through `md5::Digest::digest`: a sixteen-byte digest
/// that is a function of the input bytes alone.
#[verifier::external_body]
pub(crate) fn md5_digest(data: &[u8]) -> (r: Vec<u8>)
    ensures
        r@ == md5_of(data@),
        r@.len() == 16,
{
    <md5::Md5 as md5::Digest>::digest(data).to_vec()
}

} // verus!
