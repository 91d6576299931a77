//! SHA-512 digests.

use crypto::digest::Digest;
use crypto::sha2::Sha512;
use vstd::prelude::*;

verus! {

/// Length in bytes of a SHA-512 digest.
pub const SHA512_BYTES: usize = 64;

/// The SHA-512 digest of `data`, as `crypto::sha2::Sha512` computes it.
pub uninterp spec fn sha512_digest(data: Seq<u8>) -> Seq<u8>;

/// Hashes `data` with `crypto::sha2::Sha512`: one `input` of the whole
/// slice, then `result` into a buffer of 64 bytes.
///
/// Trusted: the body is not verified. The contract names the digest and
/// claims its length, which is the 64 bytes that `Sha512::result` fills.
#[verifier::external_body]
pub(crate) fn sha512(data: &[u8]) -> (digest: Vec<u8>)
    ensures
        digest@ == sha512_digest(data@),
        digest@.len() == SHA512_BYTES,
{
    let mut hasher = Sha512::new();
    hasher.input(data);
    let mut digest = vec![0u8; 64];
    hasher.result(&mut digest);
    digest
}

} // verus!
