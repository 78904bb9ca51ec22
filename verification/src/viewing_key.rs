//! Viewing keys: per-address secrets that open private queries.
//!
//! A contract never stores a key, only its SHA-256 digest. A query presents
//! the key; the contract hashes it and compares the digest with the stored
//! one, looking at every byte whether or not an earlier byte differed.

use vstd::prelude::*;
use vstd::string::*;
use crate::text::{hex_encode, hex_text, lemma_hex_text_len};
use crate::types::Env;

verus! {

/// The length in bytes of a stored key digest.
pub const VIEWING_KEY_SIZE: usize = 32;

/// The SHA-256 digest of `data`.
pub uninterp spec fn sha_256_digest(data: Seq<u8>) -> Seq<u8>;

/// Hashes `data` with `secret_toolkit::crypto::sha_256`. Trusted: the result
/// is the SHA-256 digest of the input, a function of the input alone, and is
/// 32 bytes long.
#[verifier::external_body]
pub(crate) fn sha_256(data: &[u8]) -> (digest: Vec<u8>)
    ensures
        digest@ == sha_256_digest(data@),
        digest@.len() == VIEWING_KEY_SIZE,
{
    secret_toolkit::crypto::sha_256(data).to_vec()
}

/// The digest under which the key with text `key` is stored.
pub open spec fn hashed_key(key: Seq<char>) -> Seq<u8> {
    sha_256_digest(vstd::utf8::encode_utf8(key))
}

/// The bytes that a fresh key is derived from: the contract's seed, the
/// height and time of the block, the sender, and the sender's entropy.
pub open spec fn key_material(seed: Seq<u8>, env: Env, entropy: Seq<char>) -> Seq<u8> {
    seed + vstd::bytes::spec_u64_to_le_bytes(env.block_height) + vstd::bytes::spec_u64_to_le_bytes(
        env.block_time,
    ) + vstd::utf8::encode_utf8(env.sender@) + vstd::utf8::encode_utf8(entropy)
}

/// The text of the key that `ViewingKey::new` derives.
pub open spec fn derived_key(seed: Seq<u8>, env: Env, entropy: Seq<char>) -> Seq<char> {
    hex_text(sha_256_digest(key_material(seed, env, entropy)))
}

fn append_bytes(target: &mut Vec<u8>, bytes: &[u8])
    ensures
        final(target)@ == old(target)@ + bytes@,
{
    let ghost initial = target@;
    let mut i: usize = 0;
    while i < bytes.len()
        invariant
            i <= bytes@.len(),
            target@ == initial + bytes@.take(i as int),
        decreases bytes@.len() - i,
    {
        target.push(bytes[i]);
        i += 1;
        assert(target@ =~= initial + bytes@.take(i as int));
    }
    assert(bytes@.take(i as int) =~= bytes@);
}

/// Whether `a` and `b` are the same bytes. Two slices of one length are
/// compared byte by byte to the end, so that the time taken does not tell
/// where they first differ.
pub fn ct_slice_compare(a: &[u8], b: &[u8]) -> (same: bool)
    ensures
        same == (a@ == b@),
{
    if a.len() != b.len() {
        return false;
    }
    let mut difference: u8 = 0;
    let mut i: usize = 0;
    assert(a@.take(0) =~= b@.take(0));
    while i < a.len()
        invariant
            a@.len() == b@.len(),
            i <= a@.len(),
            difference == 0 <==> a@.take(i as int) == b@.take(i as int),
        decreases a@.len() - i,
    {
        let x = a[i];
        let y = b[i];
        let ghost before = difference;
        difference = difference | (x ^ y);
        proof {
            assert((before | (x ^ y)) == 0 <==> (before == 0 && x == y)) by (bit_vector);
            let a_next = a@.take(i + 1);
            let b_next = b@.take(i + 1);
            assert(a_next.drop_last() =~= a@.take(i as int));
            assert(b_next.drop_last() =~= b@.take(i as int));
            assert(a_next.last() == x && b_next.last() == y);
            if a_next == b_next {
                assert(a_next.drop_last() == b_next.drop_last());
            }
            if a@.take(i as int) == b@.take(i as int) && x == y {
                assert(a_next =~= b_next);
            }
        }
        i += 1;
    }
    assert(a@.take(i as int) =~= a@);
    assert(b@.take(i as int) =~= b@);
    difference == 0
}

/// A viewing key as its holder presents it.
#[derive(Debug, PartialEq, Eq)]
pub struct ViewingKey(pub String);

impl ViewingKey {
    /// Derives a fresh key for the sender of `env` from the contract's seed
    /// and the entropy the sender supplied: the digest of all of it, written
    /// in hexadecimal.
    pub fn new(env: &Env, seed: &[u8], entropy: &str) -> (key: ViewingKey)
        ensures
            key.0@ == derived_key(seed@, *env, entropy@),
            key.0@.len() == 2 * VIEWING_KEY_SIZE,
    {
        let mut material: Vec<u8> = Vec::new();
        append_bytes(&mut material, seed);
        let height = vstd::bytes::u64_to_le_bytes(env.block_height);
        append_bytes(&mut material, height.as_slice());
        let time = vstd::bytes::u64_to_le_bytes(env.block_time);
        append_bytes(&mut material, time.as_slice());
        append_bytes(&mut material, env.sender.as_str().as_bytes());
        append_bytes(&mut material, entropy.as_bytes());
        assert(material@ =~= key_material(seed@, *env, entropy@));
        let digest = sha_256(material.as_slice());
        proof {
            lemma_hex_text_len(digest@);
        }
        ViewingKey(hex_encode(digest.as_slice()))
    }

    /// The digest under which this key is stored.
    pub fn to_hashed(&self) -> (digest: Vec<u8>)
        ensures
            digest@ == hashed_key(self.0@),
            digest@.len() == VIEWING_KEY_SIZE,
    {
        sha_256(self.0.as_str().as_bytes())
    }

    /// Whether this key is the one whose digest is `hashed`.
    pub fn check_viewing_key(&self, hashed: &[u8]) -> (matches: bool)
        ensures
            matches == (hashed_key(self.0@) == hashed@),
    {
        let mine = self.to_hashed();
        ct_slice_compare(mine.as_slice(), hashed)
    }
}

} // verus!
