//! Content hashing: a streaming SHA-256 digest fed in bounded chunks, and
//! lower-case hex rendering of the digest.
//!
//! The digest itself is computed by the `sha2` crate behind trusted wrappers;
//! everything around it (chunking, hex encoding) is verified.

use vstd::prelude::*;
use sha2::Digest;
use crate::bytes_util::DIGIT_ZERO;

verus! {

/// The SHA-256 digest of a byte sequence.  The digest is a function of the
/// input bytes alone; its value is not stated here, only used as a name.
pub uninterp spec fn sha256_of(data: Seq<u8>) -> Seq<u8>;

/// A streaming SHA-256 hasher.  It wraps `sha2::Sha256`, whose type Verus
/// cannot declare (its generics are type-level constants), so the struct is
/// opaque and the bytes absorbed so far are named by [`hasher_input`].
#[verifier::external_body]
pub struct StreamingHasher {
    inner: sha2::Sha256,
}

/// The bytes a streaming hasher has absorbed so far.
pub uninterp spec fn hasher_input(h: StreamingHasher) -> Seq<u8>;

impl StreamingHasher {
    /// Relies on `sha2::Sha256::new` (`Digest::new`): a fresh hasher has
    /// absorbed nothing.
    #[verifier::external_body]
    pub fn new() -> (h: StreamingHasher)
        ensures
            hasher_input(h) == Seq::<u8>::empty(),
    {
        StreamingHasher { inner: sha2::Sha256::new() }
    }

    /// Relies on `sha2::Sha256::update` (`Digest::update`): absorbing a chunk
    /// appends it to the absorbed stream; chunk boundaries do not matter.
    #[verifier::external_body]
    pub fn update(&mut self, chunk: &[u8])
        ensures
            hasher_input(*final(self)) == hasher_input(*old(self)) + chunk@,
    {
        self.inner.update(chunk);
    }

    /// Relies on `sha2::Sha256::finalize` (`Digest::finalize`): the digest of
    /// all absorbed bytes, 32 bytes long, a function of those bytes alone.
    #[verifier::external_body]
    pub fn finalize(self) -> (r: Vec<u8>)
        ensures
            r@ == sha256_of(hasher_input(self)),
            r@.len() == 32,
    {
        self.inner.finalize().to_vec()
    }
}

/// A nibble rendered as a lower-case hex digit.
pub open spec fn spec_hex_digit(n: u8) -> u8 {
    if n < 10 {
        (DIGIT_ZERO + n) as u8
    } else {
        (87 + n) as u8  // 87 + 10 is 97, ASCII 'a'
    }
}

/// A byte string rendered as lower-case hex, two digits per byte.
pub open spec fn spec_hex_lower(data: Seq<u8>) -> Seq<u8>
    decreases data.len(),
{
    if data.len() == 0 {
        Seq::<u8>::empty()
    } else {
        spec_hex_lower(data.drop_last()) + seq![
            spec_hex_digit(data.last() / 16),
            spec_hex_digit(data.last() % 16),
        ]
    }
}

pub proof fn lemma_hex_lower_len(data: Seq<u8>)
    ensures
        spec_hex_lower(data).len() == 2 * data.len(),
    decreases data.len(),
{
    if data.len() > 0 {
        lemma_hex_lower_len(data.drop_last());
    }
}

fn hex_digit(n: u8) -> (r: u8)
    requires
        n < 16,
    ensures
        r == spec_hex_digit(n),
{
    if n < 10 {
        DIGIT_ZERO + n
    } else {
        87 + n
    }
}

/// Render a digest as lower-case hex.
pub fn to_hex_lower(data: &[u8]) -> (r: Vec<u8>)
    ensures
        r@ == spec_hex_lower(data@),
{
    let n = data.len();
    let mut r: Vec<u8> = Vec::new();
    let mut i: usize = 0;
    proof {
        assert(data@.take(0) =~= Seq::<u8>::empty());
    }
    while i < n
        invariant
            n == data@.len(),
            i <= n,
            r@ == spec_hex_lower(data@.take(i as int)),
        decreases n - i,
    {
        let b = data[i];
        r.push(hex_digit(b / 16));
        r.push(hex_digit(b % 16));
        proof {
            assert(data@.take(i + 1).drop_last() =~= data@.take(i as int));
            assert(data@.take(i + 1).last() == data@[i as int]);
        }
        i = i + 1;
    }
    proof {
        assert(data@.take(n as int) =~= data@);
    }
    r
}

/// A content hash as reported by the library: the SHA-256 digest of the whole
/// byte stream, rendered as lower-case hex.
pub open spec fn spec_content_hash(data: Seq<u8>) -> Seq<u8> {
    spec_hex_lower(sha256_of(data))
}

/// The chunk size used when streaming file contents: 1 MiB, so memory use is
/// bounded no matter how large the file is.
pub const HASH_CHUNK_SIZE: usize = 1048576;

/// Hash a byte stream by feeding it to the digest in chunks of `chunk_size`.
///
/// The result is stated over the input bytes alone, so any two chunk sizes
/// give the same hash for the same bytes.
pub fn hash_bytes_chunked(data: &[u8], chunk_size: usize) -> (r: Vec<u8>)
    requires
        chunk_size >= 1,
    ensures
        r@ == spec_content_hash(data@),
        r@.len() == 64,
{
    let mut h = StreamingHasher::new();
    let n = data.len();
    let mut i: usize = 0;
    proof {
        assert(data@.take(0) =~= Seq::<u8>::empty());
    }
    while i < n
        invariant
            n == data@.len(),
            i <= n,
            chunk_size >= 1,
            hasher_input(h) == data@.take(i as int),
        decreases n - i,
    {
        let end = if chunk_size < n - i {
            i + chunk_size
        } else {
            n
        };
        let chunk = vstd::slice::slice_subrange(data, i, end);
        h.update(chunk);
        proof {
            assert(data@.take(i as int) + data@.subrange(i as int, end as int) =~= data@.take(
                end as int,
            ));
        }
        i = end;
    }
    proof {
        assert(data@.take(n as int) =~= data@);
    }
    let digest = h.finalize();
    proof {
        lemma_hex_lower_len(digest@);
    }
    to_hex_lower(digest.as_slice())
}

/// Hash determinism: the content hash is a function of the input bytes
/// alone, so hashing unmodified contents again — in one call or many, with
/// any chunk sizes — always yields the same hash.
pub proof fn lemma_hash_determinism(d1: Seq<u8>, d2: Seq<u8>)
    requires
        d1 == d2,
    ensures
        spec_content_hash(d1) == spec_content_hash(d2),
{
}

/// Hash a whole in-memory byte stream with the standard chunk size.
pub fn hash_bytes(data: &[u8]) -> (r: Vec<u8>)
    ensures
        r@ == spec_content_hash(data@),
        r@.len() == 64,
{
    hash_bytes_chunked(data, HASH_CHUNK_SIZE)
}

} // verus!
