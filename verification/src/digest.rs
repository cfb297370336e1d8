//! One-way commitments to plaintext.
//!
//! The ledger keeps a digest where a plaintext must stay out of durable
//! state; the plaintext itself travels in the audit entry only.

use vstd::prelude::*;
use vstd::utf8::encode_utf8;
use crate::primitives::Digest;

verus! {

/// The Keccak-256 hash of a byte string.
pub uninterp spec fn keccak256_of(bytes: Seq<u8>) -> Seq<u8>;

/// Hashes with `alloy_primitives::keccak256`.
///
/// Not proved: that the 32 bytes returned are the Keccak-256 hash of
/// `bytes`, which depends on `bytes` alone.
#[verifier::external_body]
fn keccak256(bytes: &[u8]) -> (d: Digest)
    ensures
        d@ == keccak256_of(bytes@),
{
    Digest { bytes: alloy_primitives::keccak256(bytes).0 }
}

/// The commitment to a text: the Keccak-256 hash of its UTF-8 encoding.
pub open spec fn commitment(text: Seq<char>) -> Seq<u8> {
    keccak256_of(encode_utf8(text))
}

/// Commits to `text`.
pub fn commit(text: &str) -> (d: Digest)
    ensures
        d@ == commitment(text@),
{
    keccak256(text.as_bytes())
}

} // verus!
