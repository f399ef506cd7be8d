//! The canonical encoder: a byte-stable serialization of descriptor
//! metadata.  Field order and representation are fixed here, not by the
//! iteration order of any container, so that two encoders fed the same data
//! always produce identical bytes and the descriptor's digest is
//! reproducible by any implementation.
//!
//! The form is the classic bencoding of a dictionary with the keys
//! `length`, `name`, `piece length` and `pieces`, in that (sorted) order:
//! integers are `i<decimal>e`, byte strings are `<decimal length>:<bytes>`.

use vstd::prelude::*;

verus! {

/// The decimal spelling of `n` in ASCII digits, most significant first.
pub open spec fn dec_rep(n: nat) -> Seq<u8>
    decreases n,
{
    if n < 10 {
        seq![(0x30 + n) as u8]
    } else {
        dec_rep(n / 10) + seq![(0x30 + n % 10) as u8]
    }
}

/// The canonical encoding of an unsigned integer: `i<decimal>e`.
pub open spec fn benc_uint(n: nat) -> Seq<u8> {
    seq![0x69u8] + dec_rep(n) + seq![0x65u8]
}

/// The canonical encoding of a byte string: `<decimal length>:<bytes>`.
pub open spec fn benc_bytes(b: Seq<u8>) -> Seq<u8> {
    dec_rep(b.len()) + seq![0x3au8] + b
}

/// The dictionary key for the total content length.
pub open spec fn key_length() -> Seq<u8> {
    seq![0x6cu8, 0x65u8, 0x6eu8, 0x67u8, 0x74u8, 0x68u8]
}

/// The dictionary key for the artifact path.
pub open spec fn key_name() -> Seq<u8> {
    seq![0x6eu8, 0x61u8, 0x6du8, 0x65u8]
}

/// The dictionary key for the piece length.
pub open spec fn key_piece_length() -> Seq<u8> {
    seq![0x70u8, 0x69u8, 0x65u8, 0x63u8, 0x65u8, 0x20u8, 0x6cu8, 0x65u8, 0x6eu8, 0x67u8, 0x74u8, 0x68u8]
}

/// The dictionary key for the concatenated piece digests.
pub open spec fn key_pieces() -> Seq<u8> {
    seq![0x70u8, 0x69u8, 0x65u8, 0x63u8, 0x65u8, 0x73u8]
}

/// The canonical encoding of the descriptor metadata: a dictionary holding,
/// in fixed order, the total length, the artifact path, the piece length,
/// and the ordered piece digests run together as one byte string.
pub open spec fn info_encoding(path: Seq<u8>, total: nat, piece_len: nat, hashes: Seq<u8>) -> Seq<
    u8,
> {
    seq![0x64u8] + benc_bytes(key_length()) + benc_uint(total) + benc_bytes(key_name()) + benc_bytes(
        path,
    ) + benc_bytes(key_piece_length()) + benc_uint(piece_len) + benc_bytes(key_pieces())
        + benc_bytes(hashes) + seq![0x65u8]
}

/// Appends every byte of `b` to `out`.
pub fn push_slice(out: &mut Vec<u8>, b: &[u8])
    ensures
        final(out)@ == old(out)@ + b@,
{
    let mut i: usize = 0;
    while i < b.len()
        invariant
            i <= b.len(),
            out@ == old(out)@ + b@.subrange(0, i as int),
        decreases b.len() - i,
    {
        out.push(b[i]);
        proof {
            assert(b@.subrange(0, i as int + 1) =~= b@.subrange(0, i as int) + seq![b@[i as int]]);
        }
        i += 1;
    }
    proof {
        assert(b@.subrange(0, b@.len() as int) =~= b@);
    }
}

/// Appends the decimal spelling of `n`.
fn push_dec(out: &mut Vec<u8>, n: u64)
    ensures
        final(out)@ == old(out)@ + dec_rep(n as nat),
    decreases n,
{
    if n < 10 {
        out.push(0x30 + n as u8);
    } else {
        push_dec(out, n / 10);
        out.push(0x30 + (n % 10) as u8);
    }
}

/// Appends `i<decimal n>e`.
fn push_benc_uint(out: &mut Vec<u8>, n: u64)
    ensures
        final(out)@ == old(out)@ + benc_uint(n as nat),
{
    out.push(0x69u8);
    push_dec(out, n);
    out.push(0x65u8);
    proof {
        assert(out@ =~= old(out)@ + benc_uint(n as nat));
    }
}

/// Appends `<decimal length>:<bytes>`.
fn push_benc_bytes(out: &mut Vec<u8>, b: &[u8])
    ensures
        final(out)@ == old(out)@ + benc_bytes(b@),
{
    push_dec(out, b.len() as u64);
    out.push(0x3au8);
    push_slice(out, b);
    proof {
        assert(out@ =~= old(out)@ + benc_bytes(b@));
    }
}

fn push_key_length(out: &mut Vec<u8>)
    ensures
        final(out)@ == old(out)@ + benc_bytes(key_length()),
{
    out.push(0x36u8);
    out.push(0x3au8);
    out.push(0x6cu8);
    out.push(0x65u8);
    out.push(0x6eu8);
    out.push(0x67u8);
    out.push(0x74u8);
    out.push(0x68u8);
    proof {
        assert(dec_rep(key_length().len()) =~= seq![0x36u8]);
        assert(out@ =~= old(out)@ + benc_bytes(key_length()));
    }
}

fn push_key_name(out: &mut Vec<u8>)
    ensures
        final(out)@ == old(out)@ + benc_bytes(key_name()),
{
    out.push(0x34u8);
    out.push(0x3au8);
    out.push(0x6eu8);
    out.push(0x61u8);
    out.push(0x6du8);
    out.push(0x65u8);
    proof {
        assert(dec_rep(key_name().len()) =~= seq![0x34u8]);
        assert(out@ =~= old(out)@ + benc_bytes(key_name()));
    }
}

fn push_key_piece_length(out: &mut Vec<u8>)
    ensures
        final(out)@ == old(out)@ + benc_bytes(key_piece_length()),
{
    out.push(0x31u8);
    out.push(0x32u8);
    out.push(0x3au8);
    out.push(0x70u8);
    out.push(0x69u8);
    out.push(0x65u8);
    out.push(0x63u8);
    out.push(0x65u8);
    out.push(0x20u8);
    out.push(0x6cu8);
    out.push(0x65u8);
    out.push(0x6eu8);
    out.push(0x67u8);
    out.push(0x74u8);
    out.push(0x68u8);
    proof {
        assert(dec_rep(1) =~= seq![0x31u8]);
        assert(dec_rep(key_piece_length().len()) =~= seq![0x31u8, 0x32u8]);
        assert(out@ =~= old(out)@ + benc_bytes(key_piece_length()));
    }
}

fn push_key_pieces(out: &mut Vec<u8>)
    ensures
        final(out)@ == old(out)@ + benc_bytes(key_pieces()),
{
    out.push(0x36u8);
    out.push(0x3au8);
    out.push(0x70u8);
    out.push(0x69u8);
    out.push(0x65u8);
    out.push(0x63u8);
    out.push(0x65u8);
    out.push(0x73u8);
    proof {
        assert(dec_rep(key_pieces().len()) =~= seq![0x36u8]);
        assert(out@ =~= old(out)@ + benc_bytes(key_pieces()));
    }
}

/// Serializes the descriptor metadata canonically.  The result is a pure
/// function of the four fields: two calls on identical data yield identical
/// bytes, whatever implementation produced them.
pub fn encode_info(path: &[u8], total_length: u64, piece_length: u32, hashes: &[u8]) -> (r: Vec<
    u8,
>)
    ensures
        r@ == info_encoding(path@, total_length as nat, piece_length as nat, hashes@),
{
    let mut out: Vec<u8> = Vec::new();
    out.push(0x64u8);
    push_key_length(&mut out);
    push_benc_uint(&mut out, total_length);
    push_key_name(&mut out);
    push_benc_bytes(&mut out, path);
    push_key_piece_length(&mut out);
    push_benc_uint(&mut out, piece_length as u64);
    push_key_pieces(&mut out);
    push_benc_bytes(&mut out, hashes);
    out.push(0x65u8);
    proof {
        assert(out@ =~= info_encoding(
            path@,
            total_length as nat,
            piece_length as nat,
            hashes@,
        ));
    }
    out
}

} // verus!
