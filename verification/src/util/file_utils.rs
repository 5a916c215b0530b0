//! Digests of source bytes.

use vstd::prelude::*;

verus! {

/// The SHA-256 digest of a byte string.
pub uninterp spec fn sha256(content: Seq<u8>) -> Seq<u8>;

/// The length of a SHA-256 digest in bytes.
pub const SHA256_LEN: usize = 32;

/// The longest input whose digest can be computed: its length in bits has
/// to fit in 64 bits.
pub const MAX_DIGEST_INPUT: u64 = 0x1fff_ffff_ffff_ffff;

/// Calls `ring::digest::digest` with the algorithm `ring::digest::SHA256`
/// and copies the bytes of the `Digest` it returns. Trusted: the result is
/// the SHA-256 digest of `content`, 32 bytes long, and the call does not
/// panic on an input of at most `MAX_DIGEST_INPUT` bytes.
#[verifier::external_body]
fn ring_sha256(content: &[u8]) -> (d: Vec<u8>)
    requires
        content@.len() <= MAX_DIGEST_INPUT,
    ensures
        d@ == sha256(content@),
        d@.len() == SHA256_LEN,
{
    ring::digest::digest(&ring::digest::SHA256, content).as_ref().to_vec()
}

/// The SHA-256 digest of `content`, or nothing where `content` is longer
/// than `MAX_DIGEST_INPUT` bytes.
pub fn sha256_digest(content: &[u8]) -> (r: Option<Vec<u8>>)
    ensures
        r is Some <==> content@.len() <= MAX_DIGEST_INPUT,
        r is Some ==> r->0@ == sha256(content@) && r->0@.len() == SHA256_LEN,
{
    let len: u64 = content.len() as u64;
    if len > MAX_DIGEST_INPUT {
        None
    } else {
        Some(ring_sha256(content))
    }
}

} // verus!
