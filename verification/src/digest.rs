//! SHA-256 fingerprints of file contents, rendered the way the launcher
//! compares them with the hashes published by the server.

use vstd::prelude::*;
use sha2::Digest;
use crate::hex::{digest_to_hex, lower_hex, lemma_lower_hex_len, lemma_lower_hex_injective};

verus! {

/// The SHA-256 digest of a byte string (FIPS 180-4), as computed by the
/// `sha2` crate.
pub uninterp spec fn sha256(data: Seq<u8>) -> Seq<u8>;

/// The hex fingerprint that the launcher uses for file contents `data`.
pub open spec fn fingerprint(data: Seq<u8>) -> Seq<char> {
    lower_hex(sha256(data))
}

/// Calls `sha2::Sha256::digest` (the `Digest` trait). Trusted: the result is
/// the SHA-256 digest of `data`, named `sha256`, and has the 32 bytes of the
/// algorithm's fixed output size (`OutputSize = U32` in `sha2`).
#[verifier::external_body]
fn sha256_digest(data: &[u8]) -> (res: Vec<u8>)
    ensures
        res@ == sha256(data@),
        res@.len() == 32,
{
    sha2::Sha256::digest(data).to_vec()
}

/// Hashes the contents of a file with SHA-256 and renders the digest in
/// lower-case hex (64 characters).
pub fn calculate_file_sha256(buffer: &[u8]) -> (res: String)
    ensures
        res@ == fingerprint(buffer@),
        res@.len() == 64,
{
    let digest = sha256_digest(buffer);
    let res = digest_to_hex(digest.as_slice());
    proof {
        lemma_lower_hex_len(digest@);
    }
    res
}

/// Two fingerprints agree exactly when the underlying SHA-256 digests agree:
/// comparing hex strings is comparing digests.
pub proof fn lemma_fingerprints_match_iff_digests_match(a: Seq<u8>, b: Seq<u8>)
    ensures
        fingerprint(a) == fingerprint(b) <==> sha256(a) == sha256(b),
{
    if fingerprint(a) == fingerprint(b) {
        lemma_lower_hex_injective(sha256(a), sha256(b));
    }
}

} // verus!
