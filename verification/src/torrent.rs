//! The transfer descriptor: a piece-hashed, swarm-distributable description
//! of an artifact, derived from the artifact's bytes and never
//! hand-constructed.  Its own digest (the info hash) is computed over the
//! canonical encoding of its fields, so descriptors built from identical
//! content and piece length are byte-identical wherever they were built.

use vstd::prelude::*;

use crate::digest::{digest, digest_of, DIGEST_LEN};
use crate::encode::{encode_info, info_encoding};
use crate::errors::RegistryError;
use crate::pieces::{chunk, piece_count, piece_wf, segment};

verus! {

/// A derived description of one artifact: enough for a peer to fetch,
/// verify and reassemble the content piece by piece.
pub struct TransferDescriptor {
    /// The piece length the content was segmented with.
    pub piece_length: u32,
    /// The total number of content bytes.
    pub total_length: u64,
    /// The logical artifact path the descriptor was built for.
    pub path: Vec<u8>,
    /// The digest of each piece, in index order.
    pub piece_hashes: Vec<Vec<u8>>,
    /// The digest of the canonical encoding of the fields above.
    pub info_hash: Vec<u8>,
}

/// The digests of all the pieces of `c` at piece length `l`, in index order.
pub open spec fn piece_digests(c: Seq<u8>, l: nat) -> Seq<Seq<u8>>
    recommends
        l > 0,
{
    Seq::new(piece_count(c.len(), l), |i: int| digest_of(chunk(c, l, i)))
}

/// A sequence of byte strings run together into one.
pub open spec fn concat_bytes(hs: Seq<Seq<u8>>) -> Seq<u8>
    decreases hs.len(),
{
    if hs.len() == 0 {
        Seq::empty()
    } else {
        concat_bytes(hs.drop_last()) + hs.last()
    }
}

/// The canonical encoding of the descriptor derived from `(path, c, l)`.
pub open spec fn descriptor_encoding_of(path: Seq<u8>, c: Seq<u8>, l: nat) -> Seq<u8>
    recommends
        l > 0,
{
    info_encoding(path, c.len(), l, concat_bytes(piece_digests(c, l)))
}

/// The info hash of the descriptor derived from `(path, c, l)`.
pub open spec fn info_hash_of(path: Seq<u8>, c: Seq<u8>, l: nat) -> Seq<u8>
    recommends
        l > 0,
{
    digest_of(descriptor_encoding_of(path, c, l))
}

/// What it means for `d` to be the descriptor derived from the triple
/// `(path, c, l)`: every field is fixed by the triple.
pub open spec fn built_from(d: TransferDescriptor, path: Seq<u8>, c: Seq<u8>, l: nat) -> bool {
    &&& d.piece_length == l
    &&& d.total_length == c.len()
    &&& d.path@ == path
    &&& d.piece_hashes@.map_values(|h: Vec<u8>| h@) == piece_digests(c, l)
    &&& forall|i: int|
        0 <= i < d.piece_hashes@.len() ==> (#[trigger] d.piece_hashes@[i])@.len() == DIGEST_LEN
    &&& d.info_hash@ == info_hash_of(path, c, l)
    &&& d.info_hash@.len() == DIGEST_LEN
}

/// The canonical encoding of a descriptor value, from its own fields.
pub open spec fn encoding_of(d: TransferDescriptor) -> Seq<u8> {
    info_encoding(
        d.path@,
        d.total_length as nat,
        d.piece_length as nat,
        concat_bytes(d.piece_hashes@.map_values(|h: Vec<u8>| h@)),
    )
}

/// Derives the transfer descriptor of `content` under `path`: segments the
/// content, assembles the metadata, canonically encodes it, and hashes the
/// encoding.  Fully determined by its three arguments; fails only on a zero
/// piece length, never on empty content.
pub fn build(path: &[u8], content: &[u8], piece_length: u32) -> (r: Result<
    TransferDescriptor,
    RegistryError,
>)
    ensures
        r is Ok <==> piece_length > 0,
        r is Err ==> r == Err::<TransferDescriptor, RegistryError>(
            RegistryError::InvalidPieceLength,
        ),
        r matches Ok(d) ==> built_from(d, path@, content@, piece_length as nat),
{
    let ghost c = content@;
    let ghost gl = piece_length as nat;
    let pieces = match segment(content, piece_length) {
        Ok(ps) => ps,
        Err(e) => { return Err(e) },
    };
    let mut hashes: Vec<Vec<u8>> = Vec::new();
    let mut run: Vec<u8> = Vec::new();
    let mut i: usize = 0;
    while i < pieces.len()
        invariant
            i <= pieces.len(),
            pieces@.len() == piece_count(c.len(), gl),
            forall|j: int| 0 <= j < pieces@.len() ==> piece_wf(#[trigger] pieces@[j], c, gl, j),
            hashes@.len() == i,
            forall|j: int| 0 <= j < i ==> (#[trigger] hashes@[j])@ == digest_of(chunk(c, gl, j)),
            forall|j: int| 0 <= j < i ==> (#[trigger] hashes@[j])@.len() == DIGEST_LEN,
            run@ == concat_bytes(piece_digests(c, gl).take(i as int)),
        decreases pieces.len() - i,
    {
        let mut h: Vec<u8> = Vec::new();
        crate::encode::push_slice(&mut h, pieces[i].digest.as_slice());
        hashes.push(h);
        crate::encode::push_slice(&mut run, pieces[i].digest.as_slice());
        proof {
            let pd = piece_digests(c, gl);
            assert(pd.take(i as int + 1).drop_last() =~= pd.take(i as int));
            assert(pd.take(i as int + 1).last() == digest_of(chunk(c, gl, i as int)));
        }
        i += 1;
    }
    proof {
        assert(piece_digests(c, gl).take(piece_digests(c, gl).len() as int) =~= piece_digests(
            c,
            gl,
        ));
    }
    let total_length = content.len() as u64;
    let encoded = encode_info(path, total_length, piece_length, run.as_slice());
    let info_hash = digest(encoded.as_slice());
    let mut path_copy: Vec<u8> = Vec::new();
    crate::encode::push_slice(&mut path_copy, path);
    let d = TransferDescriptor {
        piece_length,
        total_length,
        path: path_copy,
        piece_hashes: hashes,
        info_hash,
    };
    proof {
        assert(d.piece_hashes@.map_values(|h: Vec<u8>| h@) =~= piece_digests(c, gl));
        assert(built_from(d, path@, c, gl));
    }
    Ok(d)
}

impl TransferDescriptor {
    /// Re-serializes this descriptor canonically from its fields.  On a
    /// descriptor derived by `build` this reproduces exactly the bytes
    /// whose digest is the info hash.
    pub fn encode(&self) -> (r: Vec<u8>)
        ensures
            r@ == encoding_of(*self),
    {
        let mut run: Vec<u8> = Vec::new();
        let mut i: usize = 0;
        while i < self.piece_hashes.len()
            invariant
                i <= self.piece_hashes@.len(),
                run@ == concat_bytes(
                    self.piece_hashes@.map_values(|h: Vec<u8>| h@).take(i as int),
                ),
            decreases self.piece_hashes@.len() - i,
        {
            crate::encode::push_slice(&mut run, self.piece_hashes[i].as_slice());
            proof {
                let pd = self.piece_hashes@.map_values(|h: Vec<u8>| h@);
                assert(pd.take(i as int + 1).drop_last() =~= pd.take(i as int));
                assert(pd.take(i as int + 1).last() == self.piece_hashes@[i as int]@);
            }
            i += 1;
        }
        proof {
            let pd = self.piece_hashes@.map_values(|h: Vec<u8>| h@);
            assert(pd.take(pd.len() as int) =~= pd);
        }
        encode_info(
            self.path.as_slice(),
            self.total_length,
            self.piece_length,
            run.as_slice(),
        )
    }
}

/// Descriptor idempotence: any two descriptors derived from the same
/// `(path, content, piece length)` triple agree field for field, their
/// canonical encodings are byte-identical, and so are their info hashes.
pub proof fn lemma_build_deterministic(
    d1: TransferDescriptor,
    d2: TransferDescriptor,
    path: Seq<u8>,
    c: Seq<u8>,
    l: nat,
)
    requires
        l > 0,
        built_from(d1, path, c, l),
        built_from(d2, path, c, l),
    ensures
        d1.piece_length == d2.piece_length,
        d1.total_length == d2.total_length,
        d1.path@ == d2.path@,
        d1.piece_hashes@.map_values(|h: Vec<u8>| h@) == d2.piece_hashes@.map_values(
            |h: Vec<u8>| h@,
        ),
        encoding_of(d1) == encoding_of(d2),
        encoding_of(d1) == descriptor_encoding_of(path, c, l),
        d1.info_hash@ == d2.info_hash@,
{
}

/// The piece-hash sequence of a built descriptor has exactly one digest per
/// piece of the content.
pub proof fn lemma_built_piece_count(d: TransferDescriptor, path: Seq<u8>, c: Seq<u8>, l: nat)
    requires
        built_from(d, path, c, l),
    ensures
        d.piece_hashes@.len() == piece_count(c.len(), l),
{
    assert(d.piece_hashes@.map_values(|h: Vec<u8>| h@).len() == d.piece_hashes@.len());
}

} // verus!
