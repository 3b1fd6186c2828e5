//! The SHA-256 primitive that the HMAC construction is built on.

use vstd::prelude::*;

verus! {

/// Length of a SHA-256 digest, in bytes.
pub const HASH_LENGTH: usize = 32;

/// The SHA-256 digest of a byte string.
pub uninterp spec fn sha256(data: Seq<u8>) -> [u8; 32];

/// The bytes of all `parts`, one part after the other.
pub open spec fn joined(parts: Seq<&[u8]>) -> Seq<u8> {
    parts.map_values(|part: &[u8]| part@).flatten()
}

/// Calls `solana_nostd_sha256::hashv`, which hashes the given byte slices as if
/// they were concatenated. Trusted: the result is the SHA-256 digest of the
/// joined bytes and depends on nothing else.
#[verifier::external_body]
pub(crate) fn hashv(parts: &[&[u8]]) -> (digest: [u8; 32])
    ensures
        digest == sha256(joined(parts@)),
{
    solana_nostd_sha256::hashv(parts)
}

/// A single part joins to itself.
pub proof fn lemma_joined_one(parts: Seq<&[u8]>)
    requires
        parts.len() == 1,
    ensures
        joined(parts) == parts[0]@,
{
    parts.map_values(|part: &[u8]| part@).lemma_flatten_singleton();
}

/// Two parts join to the first followed by the second.
pub proof fn lemma_joined_two(parts: Seq<&[u8]>)
    requires
        parts.len() == 2,
    ensures
        joined(parts) == parts[0]@ + parts[1]@,
{
    let views = parts.map_values(|part: &[u8]| part@);
    assert(views =~= seq![parts[0]@].push(parts[1]@));
    seq![parts[0]@].lemma_flatten_push(parts[1]@);
    seq![parts[0]@].lemma_flatten_singleton();
}

} // verus!
