//! SHA-256, by which names, categories and capabilities are addressed.
use vstd::prelude::*;

verus! {

/// The SHA-256 digest of `data`.
pub uninterp spec fn sha256(data: Seq<u8>) -> Seq<u8>;

/// Calls `solana_sha256_hasher::hash`, which returns the SHA-256 digest of the
/// bytes given, and hands out its 32 bytes. The digest depends on the bytes
/// alone; its value is only named.
#[verifier::external_body]
pub(crate) fn sha256_of(data: &[u8]) -> (digest: [u8; 32])
    ensures
        digest@ == sha256(data@),
{
    solana_sha256_hasher::hash(data).to_bytes()
}

} // verus!
