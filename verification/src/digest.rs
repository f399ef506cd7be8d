//! Content addressing: one hash function, one code path, used uniformly for
//! blobs, manifests, individual pieces, and descriptor info-hashes.

use sha1::Digest;
use vstd::prelude::*;

verus! {

/// The number of bytes in a digest (the hash produces 160 bits).
pub const DIGEST_LEN: usize = 20;

/// The digest of a byte sequence: a pure function of the bytes alone, so
/// that digests computed independently agree bit for bit.
pub uninterp spec fn digest_of(content: Seq<u8>) -> Seq<u8>;

/// Relies on `sha1::Sha1::digest` (RustCrypto): the SHA-1 hash of the input,
/// a deterministic function of the bytes alone, always 20 bytes long.
#[verifier::external_body]
fn sha1_digest(content: &[u8]) -> (r: Vec<u8>)
    ensures
        r@ == digest_of(content@),
        r@.len() == DIGEST_LEN,
{
    sha1::Sha1::digest(content).to_vec()
}

/// Computes the digest of `content`.  Deterministic and pure: the result is
/// fixed by the bytes of `content` and nothing else.
pub fn digest(content: &[u8]) -> (r: Vec<u8>)
    ensures
        r@ == digest_of(content@),
        r@.len() == DIGEST_LEN,
{
    sha1_digest(content)
}

/// Determinism of content addressing: equal byte sequences have equal
/// digests, across repeated calls and across independent runs.
pub proof fn lemma_digest_deterministic(x: Seq<u8>, y: Seq<u8>)
    requires
        x == y,
    ensures
        digest_of(x) == digest_of(y),
{
}

/// The ASCII byte for the hex digit `n`.
pub open spec fn hex_digit(n: u8) -> u8
    recommends
        n < 16,
{
    if n < 10 {
        (0x30 + n) as u8
    } else {
        (0x57 + n) as u8
    }
}

/// The lowercase hex spelling of a byte sequence, two digits per byte.
pub open spec fn hex_of(b: Seq<u8>) -> Seq<u8>
    decreases b.len(),
{
    if b.len() == 0 {
        Seq::empty()
    } else {
        hex_of(b.drop_last()) + seq![
            hex_digit((b.last() / 16) as u8),
            hex_digit((b.last() % 16) as u8),
        ]
    }
}

/// The textual (hex) form of the digest of `content`.
pub open spec fn digest_hex_of(content: Seq<u8>) -> Seq<u8> {
    hex_of(digest_of(content))
}

/// A hex spelling is twice as long as the bytes it spells.
pub proof fn lemma_hex_of_len(b: Seq<u8>)
    ensures
        hex_of(b).len() == 2 * b.len(),
    decreases b.len(),
{
    if b.len() > 0 {
        lemma_hex_of_len(b.drop_last());
    }
}

fn hex_digit_byte(n: u8) -> (r: u8)
    requires
        n < 16,
    ensures
        r == hex_digit(n),
{
    if n < 10 {
        0x30 + n
    } else {
        0x57 + n
    }
}

/// Spells `b` in lowercase hex, two digits per byte.
pub fn hex_encode(b: &[u8]) -> (r: Vec<u8>)
    ensures
        r@ == hex_of(b@),
{
    let mut r: Vec<u8> = Vec::new();
    let mut i: usize = 0;
    while i < b.len()
        invariant
            i <= b.len(),
            r@ == hex_of(b@.subrange(0, i as int)),
        decreases b.len() - i,
    {
        let hi = b[i] / 16;
        let lo = b[i] % 16;
        r.push(hex_digit_byte(hi));
        r.push(hex_digit_byte(lo));
        proof {
            let pre = b@.subrange(0, i as int);
            let cur = b@.subrange(0, i as int + 1);
            assert(cur.drop_last() =~= pre);
            assert(cur.last() == b@[i as int]);
        }
        i += 1;
    }
    proof {
        assert(b@.subrange(0, b@.len() as int) =~= b@);
    }
    r
}

/// The hex digest of `content`: `digest` followed by `hex_encode`.
pub fn digest_hex(content: &[u8]) -> (r: Vec<u8>)
    ensures
        r@ == digest_hex_of(content@),
        r@.len() == 2 * DIGEST_LEN,
{
    let d = digest(content);
    proof {
        lemma_hex_of_len(d@);
    }
    hex_encode(d.as_slice())
}

/// Whether `c` is an ASCII digit or a lowercase `a`-`f`.
pub open spec fn is_hex_byte(c: u8) -> bool {
    (0x30 <= c && c <= 0x39) || (0x61 <= c && c <= 0x66)
}

/// Whether `s` has the exact shape of a hex digest: the textual form a
/// digest-addressed reference takes, as opposed to a free-form tag.
pub open spec fn is_digest_hex(s: Seq<u8>) -> bool {
    &&& s.len() == 2 * DIGEST_LEN
    &&& forall|i: int| 0 <= i < s.len() ==> is_hex_byte(#[trigger] s[i])
}

/// Decides whether `s` has the shape of a hex digest.
pub fn is_digest_ref(s: &[u8]) -> (r: bool)
    ensures
        r == is_digest_hex(s@),
{
    if s.len() != 2 * DIGEST_LEN {
        return false;
    }
    let mut i: usize = 0;
    while i < s.len()
        invariant
            i <= s.len(),
            forall|j: int| 0 <= j < i ==> is_hex_byte(#[trigger] s@[j]),
        decreases s.len() - i,
    {
        let c = s[i];
        if !((0x30 <= c && c <= 0x39) || (0x61 <= c && c <= 0x66)) {
            return false;
        }
        i += 1;
    }
    true
}

} // verus!
