//! Content digests for duplicate detection: a streaming SHA-256 hasher fed
//! in bounded-size chunks, and a verified lowercase-hex rendering of the
//! resulting digest.

use vstd::prelude::*;
use vstd::string::*;
use sha2::Digest;
use crate::digits::digit_char;
use crate::digits::digit_str;

verus! {

/// What SHA-256 returns on a byte sequence. The algorithm itself is left
/// unstated: the digest is a function of the input bytes alone.
pub uninterp spec fn sha256_of(bytes: Seq<u8>) -> Seq<u8>;

#[verifier::external_type_specification]
#[verifier::external_body]
pub struct ExSha256(sha2::Sha256);

/// Relies on `digest::Digest::new` for `sha2::Sha256`: a fresh hasher that
/// has processed no data.
#[verifier::external_body]
fn sha256_new() -> sha2::Sha256 {
    sha2::Sha256::new()
}

/// Relies on `digest::Digest::update` for `sha2::Sha256`: processes the
/// chunk, updating the internal state. What the state then holds is stated
/// on `ContentHasher::finalize`.
#[verifier::external_body]
fn sha256_update(h: &mut sha2::Sha256, chunk: &[u8]) {
    h.update(chunk);
}

/// A streaming content hasher: absorbs a file's bytes chunk by chunk, so
/// that arbitrarily large files are hashed in bounded memory, and finally
/// yields the SHA-256 digest of everything absorbed.
///
/// Invariant carried alongside the opaque state: `inner` has processed
/// exactly the bytes recorded in `absorbed`. Only `new` and `update` touch
/// the two fields, and each feeds both the same bytes.
pub struct ContentHasher {
    inner: sha2::Sha256,
    absorbed: Ghost<Seq<u8>>,
}

impl ContentHasher {
    /// The bytes absorbed so far.
    pub closed spec fn fed(&self) -> Seq<u8> {
        self.absorbed@
    }

    /// A fresh hasher; it has absorbed nothing.
    pub fn new() -> (h: ContentHasher)
        ensures
            h.fed() == Seq::<u8>::empty(),
    {
        ContentHasher { inner: sha256_new(), absorbed: Ghost(Seq::empty()) }
    }

    /// Absorbs one chunk.
    pub fn update(&mut self, chunk: &[u8])
        ensures
            final(self).fed() == old(self).fed() + chunk@,
    {
        sha256_update(&mut self.inner, chunk);
        self.absorbed = Ghost(self.absorbed@ + chunk@);
    }

    /// Relies on `digest::Digest::finalize` for `sha2::Sha256`: the digest
    /// of all data processed so far — repeated `update` calls hash the
    /// concatenation of their chunks — and SHA-256 output is exactly 32
    /// bytes.
    #[verifier::external_body]
    fn finalize(self) -> (r: Vec<u8>)
        ensures
            r@ == sha256_of(self.fed()),
            r@.len() == 32,
    {
        self.inner.finalize().to_vec()
    }

    /// The digest of all absorbed bytes, rendered as lowercase hex.
    pub fn finalize_hex(self) -> (r: String)
        ensures
            r@ == hex_of(sha256_of(self.fed())),
            r@.len() == 64,
    {
        let ghost fed = self.fed();
        let digest = self.finalize();
        proof {
            lemma_hex_of_len(sha256_of(fed));
        }
        hex_string(&digest)
    }
}

/// The lowercase hexadecimal rendering of a byte sequence: two digits per
/// byte, high nibble first.
pub open spec fn hex_of(bytes: Seq<u8>) -> Seq<char>
    decreases bytes.len(),
{
    if bytes.len() == 0 {
        Seq::empty()
    } else {
        hex_of(bytes.drop_last()) + seq![
            digit_char(bytes.last() as int / 16),
            digit_char(bytes.last() as int % 16),
        ]
    }
}

/// The hex rendering is twice as long as its input.
pub proof fn lemma_hex_of_len(bytes: Seq<u8>)
    ensures
        hex_of(bytes).len() == 2 * bytes.len(),
    decreases bytes.len(),
{
    if bytes.len() > 0 {
        lemma_hex_of_len(bytes.drop_last());
    }
}

/// Two code points below sixteen with the same digit character are the same.
proof fn lemma_digit_char_injective(x: int, y: int)
    requires
        0 <= x < 16,
        0 <= y < 16,
        digit_char(x) == digit_char(y),
    ensures
        x == y,
{
}

/// The hex rendering is injective: two byte sequences with the same
/// rendering are the same. Duplicate detection compares rendered digests,
/// so comparing them compares the digests themselves.
pub proof fn lemma_hex_of_injective(a: Seq<u8>, b: Seq<u8>)
    requires
        hex_of(a) == hex_of(b),
    ensures
        a == b,
    decreases a.len(),
{
    lemma_hex_of_len(a);
    lemma_hex_of_len(b);
    if a.len() == 0 {
        assert(a =~= b);
    } else {
        let pa = hex_of(a.drop_last());
        let pb = hex_of(b.drop_last());
        lemma_hex_of_len(a.drop_last());
        lemma_hex_of_len(b.drop_last());
        assert(pa.len() == pb.len());
        assert forall|i: int| 0 <= i < pa.len() implies pa[i] == pb[i] by {
            assert(hex_of(a)[i] == pa[i]);
            assert(hex_of(b)[i] == pb[i]);
        }
        assert(pa =~= pb);
        let n = pa.len() as int;
        assert(hex_of(a)[n] == digit_char(a.last() as int / 16));
        assert(hex_of(b)[n] == digit_char(b.last() as int / 16));
        assert(hex_of(a)[n + 1] == digit_char(a.last() as int % 16));
        assert(hex_of(b)[n + 1] == digit_char(b.last() as int % 16));
        lemma_digit_char_injective(a.last() as int / 16, b.last() as int / 16);
        lemma_digit_char_injective(a.last() as int % 16, b.last() as int % 16);
        assert(a.last() == b.last());
        lemma_hex_of_injective(a.drop_last(), b.drop_last());
        assert(a =~= a.drop_last().push(a.last()));
        assert(b =~= b.drop_last().push(b.last()));
    }
}

/// Renders a byte sequence as lowercase hex.
pub fn hex_string(bytes: &Vec<u8>) -> (r: String)
    ensures
        r@ == hex_of(bytes@),
{
    let mut r = String::new();
    let mut i: usize = 0;
    while i < bytes.len()
        invariant
            i <= bytes@.len(),
            r@ == hex_of(bytes@.take(i as int)),
        decreases bytes@.len() - i,
    {
        let b = bytes[i];
        r.append(digit_str(b / 16));
        r.append(digit_str(b % 16));
        proof {
            assert(bytes@.take(i + 1 as int).drop_last() =~= bytes@.take(i as int));
            assert(bytes@.take(i + 1 as int).last() == bytes@[i as int]);
            assert(r@ =~= hex_of(bytes@.take(i + 1 as int)));
        }
        i = i + 1;
    }
    proof {
        assert(bytes@.take(bytes@.len() as int) =~= bytes@);
    }
    r
}

} // verus!
