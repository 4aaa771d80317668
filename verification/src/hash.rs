use sha2::Digest;
use vstd::prelude::*;

verus! {

/// The SHA-256 digest of a byte string.
pub uninterp spec fn sha256(data: Seq<u8>) -> Seq<u8>;

/// Calls `sha2::Sha256::digest` on `data`.
///
/// Trusted: the 32 bytes that come back are taken to be the SHA-256 digest of
/// `data`, the same for the same bytes wherever and whenever it is computed.
#[verifier::external_body]
pub(crate) fn sha256_digest(data: &[u8]) -> (digest: [u8; 32])
    ensures
        digest@ == sha256(data@),
{
    sha2::Sha256::digest(data).into()
}

} // verus!
