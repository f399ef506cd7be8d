//! Deterministic piece segmentation: content splits into consecutive,
//! non-overlapping ranges of `piece_length` bytes starting at offset 0, and
//! each piece is hashed independently over only its own byte range.

use vstd::arithmetic::div_mod::{lemma_fundamental_div_mod, lemma_mod_division_less_than_divisor};
use vstd::arithmetic::mul::{
    lemma_mul_inequality, lemma_mul_is_distributive_add_other_way, lemma_mul_is_distributive_sub_other_way,
};
use vstd::prelude::*;

use crate::digest::{digest, digest_of, DIGEST_LEN};
use crate::errors::RegistryError;

verus! {

/// One contiguous byte range of an artifact, identified by its index and the
/// digest over only its own bytes.
pub struct Piece {
    /// Position of this piece in the artifact, starting at 0.
    pub index: usize,
    /// Byte offset of the start of this piece: `index * piece_length`.
    pub offset: usize,
    /// Number of bytes in this piece: always `piece_length`, except that the
    /// final piece of an artifact may be shorter, never longer, never empty.
    pub length: usize,
    /// The digest of this piece's bytes.
    pub digest: Vec<u8>,
}

/// How many pieces content of `len` bytes splits into at piece length `l`:
/// the ceiling of `len / l`.
pub open spec fn piece_count(len: nat, l: nat) -> nat
    recommends
        l > 0,
{
    len / l + if len % l == 0 { 0 } else { 1nat }
}

/// The byte range of piece `i`: it starts at `i * l` and ends `l` bytes
/// later, or at the end of the content, whichever comes first.
pub open spec fn chunk(c: Seq<u8>, l: nat, i: int) -> Seq<u8>
    recommends
        l > 0,
        0 <= i < piece_count(c.len(), l),
{
    let start = i * (l as int);
    let end = if (i + 1) * (l as int) <= c.len() {
        (i + 1) * (l as int)
    } else {
        c.len() as int
    };
    c.subrange(start, end)
}

/// What `segment` promises of the piece at index `i`.
pub open spec fn piece_wf(p: Piece, c: Seq<u8>, l: nat, i: int) -> bool {
    &&& p.index == i
    &&& p.offset == i * (l as int)
    &&& p.length == chunk(c, l, i).len()
    &&& p.digest@ == digest_of(chunk(c, l, i))
    &&& p.digest@.len() == DIGEST_LEN
}

/// Bounds on the piece count: the pieces cover the whole content
/// (`count * l >= len`) and the last one is not past it (`count * l < len + l`).
pub proof fn lemma_piece_count_bounds(len: nat, l: nat)
    requires
        l > 0,
    ensures
        piece_count(len, l) * l >= len,
        piece_count(len, l) * l < len + l,
        len == 0 ==> piece_count(len, l) == 0,
        len > 0 ==> piece_count(len, l) >= 1,
{
    lemma_fundamental_div_mod(len as int, l as int);
    lemma_mod_division_less_than_divisor(len as int, l as int);
    let q = len as int / l as int;
    let r = len as int % l as int;
    if r == 0 {
        assert(piece_count(len, l) * l == q * l) by (nonlinear_arith)
            requires piece_count(len, l) == q, r == 0,
        {}
        assert(q * l == l * q) by (nonlinear_arith);
    } else {
        assert(piece_count(len, l) * l == q * l + l) by (nonlinear_arith)
            requires piece_count(len, l) == q + 1,
        {}
        assert(q * l == l * q) by (nonlinear_arith);
    }
}

/// Splits `content` into consecutive, non-overlapping pieces of
/// `piece_length` bytes starting at offset 0; the final piece may be
/// shorter.  Zero-length content yields an empty piece sequence, not an
/// error; a zero piece length is rejected.
pub fn segment(content: &[u8], piece_length: u32) -> (r: Result<Vec<Piece>, RegistryError>)
    ensures
        r is Ok <==> piece_length > 0,
        r is Err ==> r == Err::<Vec<Piece>, RegistryError>(RegistryError::InvalidPieceLength),
        r matches Ok(ps) ==> {
            &&& ps@.len() == piece_count(content@.len(), piece_length as nat)
            &&& forall|i: int|
                0 <= i < ps@.len() ==> piece_wf(#[trigger] ps@[i], content@, piece_length as nat, i)
        },
{
    if piece_length == 0 {
        return Err(RegistryError::InvalidPieceLength);
    }
    let ghost c = content@;
    let ghost gl = piece_length as nat;
    let l = piece_length as usize;
    let len = content.len();
    let mut pieces: Vec<Piece> = Vec::new();
    let mut off: usize = 0;
    let mut idx: usize = 0;
    proof {
        lemma_piece_count_bounds(c.len(), gl);
    }
    while off < len
        invariant
            l == piece_length as usize,
            gl == piece_length as nat,
            l >= 1,
            len == c.len(),
            content@ == c,
            off <= len,
            idx == pieces@.len(),
            off as int == idx * (l as int) || (off == len && idx * (l as int) > len),
            idx == 0 || (idx - 1) * (l as int) < len,
            forall|i: int| 0 <= i < idx ==> piece_wf(#[trigger] pieces@[i], c, gl, i),
        decreases len - off,
    {
        assert(off as int == idx * (l as int));
        let remaining = len - off;
        let end = if l < remaining {
            off + l
        } else {
            len
        };
        proof {
            lemma_mul_is_distributive_add_other_way(l as int, idx as int, 1);
            assert((idx + 1) * (l as int) == off + l);
        }
        let bytes = vstd::slice::slice_subrange(content, off, end);
        let d = digest(bytes);
        let p = Piece { index: idx, offset: off, length: end - off, digest: d };
        proof {
            assert(chunk(c, gl, idx as int) =~= c.subrange(off as int, end as int));
            assert(piece_wf(p, c, gl, idx as int));
        }
        pieces.push(p);
        proof {
            assert(idx as int <= idx as int * (l as int)) by (nonlinear_arith)
                requires
                    l as int >= 1,
                    idx as int >= 0,
            {}
        }
        off = end;
        idx = idx + 1;
    }
    proof {
        let count = piece_count(c.len(), gl) as int;
        let li = l as int;
        let ii = idx as int;
        assert(ii * li >= len);
        if ii < count {
            lemma_mul_inequality(ii, count - 1, li);
            lemma_mul_is_distributive_sub_other_way(li, count, 1);
            lemma_piece_count_bounds(c.len(), gl);
            assert(false);
        }
        if ii > count {
            lemma_mul_inequality(count, ii - 1, li);
            lemma_mul_is_distributive_sub_other_way(li, ii, 1);
            lemma_piece_count_bounds(c.len(), gl);
            assert(ii == 0 || (ii - 1) * li < len);
            assert(false);
        }
        assert(ii == count);
    }
    Ok(pieces)
}

/// The bytes of the first `k` pieces, concatenated in index order.
pub open spec fn concat_chunks(c: Seq<u8>, l: nat, k: nat) -> Seq<u8>
    recommends
        l > 0,
    decreases k,
{
    if k == 0 {
        Seq::empty()
    } else {
        concat_chunks(c, l, (k - 1) as nat) + chunk(c, l, k as int - 1)
    }
}

proof fn lemma_concat_chunks_prefix(c: Seq<u8>, l: nat, k: nat)
    requires
        l > 0,
        k <= piece_count(c.len(), l),
    ensures
        concat_chunks(c, l, k) == c.take(
            if k * l <= c.len() { (k * l) as int } else { c.len() as int },
        ),
    decreases k,
{
    if k == 0 {
        assert(concat_chunks(c, l, 0) =~= c.take(0));
    } else {
        let km1 = (k - 1) as nat;
        lemma_concat_chunks_prefix(c, l, km1);
        lemma_piece_count_bounds(c.len(), l);
        let li = l as int;
        // the previous pieces end inside the content: (k - 1) * l <= len
        lemma_mul_inequality(km1 as int, piece_count(c.len(), l) as int - 1, li);
        lemma_mul_is_distributive_sub_other_way(li, piece_count(c.len(), l) as int, 1);
        lemma_mul_is_distributive_sub_other_way(li, k as int, 1);
        assert(km1 * l <= c.len());
        let start = km1 as int * li;
        let end = if k as int * li <= c.len() { k as int * li } else { c.len() as int };
        assert(chunk(c, l, k as int - 1) == c.subrange(start, end));
        assert(concat_chunks(c, l, k) =~= c.take(end));
    }
}

/// Segmentation reconstruction: for any content and any positive piece
/// length, concatenating the byte ranges of all the pieces in index order
/// reproduces the content exactly.
pub proof fn lemma_segmentation_reconstruction(c: Seq<u8>, l: nat)
    requires
        l > 0,
    ensures
        concat_chunks(c, l, piece_count(c.len(), l)) == c,
{
    let count = piece_count(c.len(), l);
    lemma_piece_count_bounds(c.len(), l);
    lemma_concat_chunks_prefix(c, l, count);
    if count * l <= c.len() {
        assert(c.take(c.len() as int) =~= c);
        assert(concat_chunks(c, l, count) =~= c);
    } else {
        assert(c.take(c.len() as int) =~= c);
    }
}

} // verus!
