//! The one-way digest that turns an encoding into a storage identifier.

use sha2::{Digest, Sha256};
use vstd::prelude::*;

verus! {

/// The number of bytes in every digest.
pub const DIGEST_LEN: usize = 32;

/// The SHA-256 digest of a byte sequence.
pub uninterp spec fn sha256(bytes: Seq<u8>) -> Seq<u8>;

/// Whether `x` and `y` are a collision of the digest: two different byte
/// sequences with the same digest.
pub open spec fn collides(x: Seq<u8>, y: Seq<u8>) -> bool {
    x != y && sha256(x) == sha256(y)
}

/// `sha2::Sha256::digest`: the SHA-256 digest of `bytes`, which depends on
/// the bytes alone and is 32 bytes long.
#[verifier::external_body]
pub(crate) fn sha256_digest(bytes: &[u8]) -> (out: Vec<u8>)
    ensures
        out@ == sha256(bytes@),
        out@.len() == DIGEST_LEN,
{
    Sha256::digest(bytes).to_vec()
}

} // verus!
