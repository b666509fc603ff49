use vstd::prelude::*;

use sha2::Digest;
use sha2::Sha256;

use crate::text::{hex_lower, hex_lower_string, lemma_hex_lower_len};

verus! {

/// A `sha2::Sha256` hasher, held opaque: what it has been fed is known only
/// through `sha256_input`.
#[verifier::external_body]
pub struct Sha256Hasher {
    inner: Sha256,
}

/// The bytes fed so far to a SHA-256 hasher.
pub uninterp spec fn sha256_input(hasher: Sha256Hasher) -> Seq<u8>;

/// The SHA-256 digest of a byte sequence, as `sha2` computes it.
pub uninterp spec fn sha256(data: Seq<u8>) -> Seq<u8>;

/// Calls `sha2::Sha256::new`: a hasher that has been fed nothing.
#[verifier::external_body]
fn sha256_new() -> (h: Sha256Hasher)
    ensures
        sha256_input(h) == Seq::<u8>::empty(),
{
    Sha256Hasher { inner: Sha256::new() }
}

/// Calls `Digest::update` on a `sha2::Sha256`: the hasher has been fed `data` after
/// what it had before.
#[verifier::external_body]
fn sha256_update(hasher: &mut Sha256Hasher, data: &[u8])
    ensures
        sha256_input(*final(hasher)) == sha256_input(*old(hasher)) + data@,
{
    hasher.inner.update(data)
}

/// Calls `Digest::finalize` on a `sha2::Sha256`: the 32-byte digest of all bytes fed.
#[verifier::external_body]
fn sha256_finalize(hasher: Sha256Hasher) -> (digest: Vec<u8>)
    ensures
        digest@ == sha256(sha256_input(hasher)),
        digest@.len() == 32,
{
    hasher.inner.finalize().to_vec()
}

/// The content fingerprint of a byte sequence: its SHA-256 digest as lowercase hex.
pub open spec fn fingerprint_of(data: Seq<u8>) -> Seq<char> {
    hex_lower(sha256(data))
}

/// A SHA-256 content fingerprint computed over bytes fed in chunks.
pub struct ContentHasher {
    hasher: Sha256Hasher,
}

impl View for ContentHasher {
    type V = Seq<u8>;

    /// The bytes fed so far.
    closed spec fn view(&self) -> Seq<u8> {
        sha256_input(self.hasher)
    }
}

impl ContentHasher {
    /// A hasher that has been fed nothing.
    pub fn new() -> (h: Self)
        ensures
            h@ == Seq::<u8>::empty(),
    {
        ContentHasher { hasher: sha256_new() }
    }

    /// Feeds `chunk` after the bytes fed so far.
    pub fn update(&mut self, chunk: &[u8])
        ensures
            final(self)@ == old(self)@ + chunk@,
    {
        sha256_update(&mut self.hasher, chunk);
    }

    /// The fingerprint of all bytes fed: 64 lowercase hexadecimal digits.
    pub fn finish(self) -> (r: String)
        ensures
            r@ == fingerprint_of(self@),
            r@.len() == 64,
    {
        let digest = sha256_finalize(self.hasher);
        proof {
            lemma_hex_lower_len(digest@);
        }
        hex_lower_string(digest.as_slice())
    }
}

/// The content fingerprint of `data`.
pub fn content_fingerprint(data: &[u8]) -> (r: String)
    ensures
        r@ == fingerprint_of(data@),
        r@.len() == 64,
{
    let mut hasher = ContentHasher::new();
    hasher.update(data);
    assert(hasher@ == data@);
    hasher.finish()
}

/// Feeding a hasher a byte sequence cut into chunks, one `update` per chunk in
/// order, leaves it holding `chunks.flatten_alt()`; it then finishes with the
/// fingerprint of the whole sequence, the same one that `content_fingerprint` and
/// document extraction report for those bytes, however they were cut.
pub proof fn lemma_chunked_fingerprint(chunks: Seq<Seq<u8>>, hasher: ContentHasher)
    requires
        hasher@ == chunks.flatten_alt(),
    ensures
        fingerprint_of(hasher@) == fingerprint_of(chunks.flatten()),
{
    chunks.lemma_flatten_and_flatten_alt_are_equivalent();
}

} // verus!
