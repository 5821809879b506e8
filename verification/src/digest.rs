//! The one-way transform of the player's secret.
//!
//! The server never sees the secret itself. It sees the SHA-1 digest of the
//! secret followed by a fixed salt, written in lower-case hexadecimal.

use vstd::prelude::*;
use vstd::string::*;
use sha1::Digest;
use crate::escape::{hex_encode, hex_spec, lemma_hex_shape};

verus! {

/// The SHA-1 digest of `data`, as the `sha1` crate computes it.
pub uninterp spec fn sha1_of(data: Seq<u8>) -> Seq<u8>;

/// Calls `sha1::Sha1::digest`, the one-shot function of the `sha1` crate.
/// The contract names its result and says that a digest has 20 bytes, the
/// output size that the crate declares for SHA-1. Nothing else is claimed of
/// the digest, and nothing of it is proved.
#[verifier::external_body]
fn sha1_digest(data: &[u8]) -> (digest: Vec<u8>)
    ensures
        digest@ == sha1_of(data@),
        digest@.len() == 20,
{
    sha1::Sha1::digest(data).to_vec()
}

/// The salt that follows the secret before it is hashed.
pub open spec fn salt() -> Seq<u8> {
    "kZ8vQ2mT7rXw4LpB1nYd6sHc9GfJ3aUe".spec_bytes()
}

/// What the server sees in place of `secret`.
pub open spec fn secret_hash_spec(secret: Seq<u8>) -> Seq<u8> {
    hex_spec(sha1_of(secret + salt()))
}

/// `secret` followed by the salt.
pub fn salted(secret: &[u8]) -> (out: Vec<u8>)
    ensures
        out@ == secret@ + salt(),
{
    let tail = "kZ8vQ2mT7rXw4LpB1nYd6sHc9GfJ3aUe".as_bytes_vec();
    let mut out: Vec<u8> = Vec::new();
    let mut i: usize = 0;
    while i < secret.len()
        invariant
            i <= secret@.len(),
            out@ == secret@.take(i as int),
        decreases secret.len() - i,
    {
        out.push(secret[i]);
        assert(secret@.take(i + 1) =~= secret@.take(i as int).push(secret@[i as int]));
        i += 1;
    }
    assert(secret@.take(secret@.len() as int) =~= secret@);
    let mut j: usize = 0;
    while j < tail.len()
        invariant
            j <= tail@.len(),
            out@ == secret@ + tail@.take(j as int),
        decreases tail.len() - j,
    {
        out.push(tail[j]);
        assert(tail@.take(j + 1) =~= tail@.take(j as int).push(tail@[j as int]));
        assert(out@ =~= secret@ + tail@.take(j + 1));
        j += 1;
    }
    assert(tail@.take(tail@.len() as int) =~= tail@);
    out
}

/// Computes what the server sees in place of `secret`: 40 hexadecimal
/// digits.
pub fn hash_secret(secret: &[u8]) -> (hash: Vec<u8>)
    ensures
        hash@ == secret_hash_spec(secret@),
        hash@.len() == 40,
{
    let input = salted(secret);
    let digest = sha1_digest(input.as_slice());
    proof {
        lemma_hex_shape(digest@);
    }
    hex_encode(digest.as_slice())
}

} // verus!
