//! The registry coordinator: orchestrates manifest, blob and repository
//! operations over an abstract artifact store, enforces the digest and
//! conflict rules, and derives a transfer descriptor as a side effect of
//! every successful write.
//!
//! Digest gates reject before anything is written: a `DigestMismatch` or
//! `ParseError` leaves the store exactly as it was.

use vstd::prelude::*;

use crate::digest::{digest_hex, digest_hex_of, is_digest_hex, is_digest_ref};
use crate::encode::push_slice;
use crate::errors::RegistryError;
use crate::keys::{
    blob_key, blob_torrent_key, make_blob_key, make_blob_torrent_key, make_manifest_key,
    make_manifest_torrent_key, make_repo_key, manifest_key, manifest_torrent_key, repo_key,
};
use crate::storage::{slices_equal, Storage};
use crate::torrent::{build, descriptor_encoding_of, info_hash_of, lemma_build_deterministic};

verus! {

/// Whether the bytes form one well-formed manifest document.
pub uninterp spec fn json_well_formed(b: Seq<u8>) -> bool;

/// Relies on `serde_json::from_slice::<serde_json::Value>`: whether the
/// bytes parse as a single JSON document, a deterministic function of the
/// bytes alone.
#[verifier::external_body]
fn check_document(body: &[u8]) -> (r: bool)
    ensures
        r == json_well_formed(body@),
{
    serde_json::from_slice::<serde_json::Value>(body).is_ok()
}

/// The manifest digest a reference stands for, under store contents `m`:
/// a digest-shaped reference stands for itself, a tag for whatever its
/// binding holds, an unbound tag for nothing.
pub open spec fn resolved_digest(
    m: Map<Seq<u8>, Seq<u8>>,
    name: Seq<u8>,
    reference: Seq<u8>,
) -> Option<Seq<u8>> {
    if is_digest_hex(reference) {
        Some(reference)
    } else if m.contains_key(manifest_key(name, reference)) {
        Some(m[manifest_key(name, reference)])
    } else {
        None
    }
}

/// The registry coordinator.  It owns the store, and every descriptor it
/// derives uses the piece length it was constructed with.
pub struct Registry<S: Storage> {
    store: S,
    piece_length: u32,
}

impl<S: Storage> Registry<S> {
    /// The piece length descriptors are derived with.
    pub closed spec fn piece_len(&self) -> u32 {
        self.piece_length
    }

    /// Validity: the configured piece length is positive, so descriptor
    /// derivation never fails.
    pub closed spec fn wf(&self) -> bool {
        self.piece_length > 0
    }

    /// The abstract contents of the underlying store.
    pub closed spec fn contents(&self) -> Map<Seq<u8>, Seq<u8>> {
        self.store.contents()
    }

    /// Creates a coordinator over `store`; a zero piece length is rejected.
    pub fn new(store: S, piece_length: u32) -> (r: Result<Self, RegistryError>)
        ensures
            r is Ok <==> piece_length > 0,
            r is Err ==> r == Err::<Self, RegistryError>(RegistryError::InvalidPieceLength),
            r matches Ok(reg) ==> reg.wf() && reg.contents() == store.contents()
                && reg.piece_len() == piece_length,
    {
        if piece_length == 0 {
            Err(RegistryError::InvalidPieceLength)
        } else {
            Ok(Registry { store, piece_length })
        }
    }

    /// Stores a blob under its digest.  The whole payload is hashed first:
    /// if the caller's digest does not match, nothing is persisted.  On
    /// success the payload sits under its blob key and the derived
    /// descriptor under the blob's torrent key.
    pub fn put_blob(&mut self, digest_param: &[u8], payload: &[u8]) -> (r: Result<
        (),
        RegistryError,
    >)
        requires
            old(self).wf(),
        ensures
            final(self).wf(),
            final(self).piece_len() == old(self).piece_len(),
            digest_param@ != digest_hex_of(payload@) ==> r == Err::<(), RegistryError>(
                RegistryError::DigestMismatch,
            ) && final(self).contents() == old(self).contents(),
            digest_param@ == digest_hex_of(payload@) ==> (r is Ok || r == Err::<(), RegistryError>(
                RegistryError::IOFailure,
            )),
            digest_param@ == digest_hex_of(payload@) && r is Ok ==> final(self).contents()
                == old(self).contents().insert(blob_key(digest_param@), payload@).insert(
                blob_torrent_key(digest_param@),
                descriptor_encoding_of(
                    blob_key(digest_param@),
                    payload@,
                    old(self).piece_len() as nat,
                ),
            ),
            digest_param@ == digest_hex_of(payload@) && r is Err ==> final(self).contents()
                == old(self).contents() || final(self).contents() == old(self).contents().insert(
                blob_key(digest_param@),
                payload@,
            ),
    {
        let expected = digest_hex(payload);
        if !slices_equal(digest_param, expected.as_slice()) {
            return Err(RegistryError::DigestMismatch);
        }
        let bkey = make_blob_key(digest_param);
        match self.store.save(bkey.as_slice(), payload) {
            Ok(()) => (),
            Err(e) => { return Err(e) },
        }
        let d = match build(bkey.as_slice(), payload, self.piece_length) {
            Ok(d) => d,
            Err(e) => { return Err(e) },
        };
        let enc = d.encode();
        proof {
            lemma_build_deterministic(d, d, bkey@, payload@, self.piece_length as nat);
        }
        let tkey = make_blob_torrent_key(digest_param);
        match self.store.save(tkey.as_slice(), enc.as_slice()) {
            Ok(()) => Ok(()),
            Err(e) => Err(e),
        }
    }

    /// Loads a blob by its digest; `NotFound` exactly when no blob is
    /// stored under it.
    pub fn get_blob(&self, digest_param: &[u8]) -> (r: Result<Vec<u8>, RegistryError>)
        ensures
            r matches Ok(v) ==> self.contents().contains_key(blob_key(digest_param@)) && v@
                == self.contents()[blob_key(digest_param@)],
            r == Err::<Vec<u8>, RegistryError>(RegistryError::NotFound)
                ==> !self.contents().contains_key(blob_key(digest_param@)),
            r is Err ==> r == Err::<Vec<u8>, RegistryError>(RegistryError::NotFound) || r == Err::<
                Vec<u8>,
                RegistryError,
            >(RegistryError::IOFailure),
    {
        let bkey = make_blob_key(digest_param);
        self.store.load(bkey.as_slice())
    }

    /// Stores a manifest under `(name, reference)`.  The body must be a
    /// well-formed document; a digest-shaped reference must equal the
    /// digest of the body.  On success the body sits under its digest key,
    /// the binding holds that digest, the derived descriptor sits under
    /// the manifest's torrent key, and the manifest digest and descriptor
    /// info hash are returned.  A rejected body persists nothing.
    pub fn put_manifest(&mut self, name: &[u8], reference: &[u8], body: &[u8]) -> (r: Result<
        (Vec<u8>, Vec<u8>),
        RegistryError,
    >)
        requires
            old(self).wf(),
        ensures
            final(self).wf(),
            final(self).piece_len() == old(self).piece_len(),
            !json_well_formed(body@) ==> r == Err::<(Vec<u8>, Vec<u8>), RegistryError>(
                RegistryError::ParseError,
            ) && final(self).contents() == old(self).contents(),
            json_well_formed(body@) && is_digest_hex(reference@) && reference@ != digest_hex_of(
                body@,
            ) ==> r == Err::<(Vec<u8>, Vec<u8>), RegistryError>(RegistryError::DigestMismatch)
                && final(self).contents() == old(self).contents(),
            json_well_formed(body@) && (!is_digest_hex(reference@) || reference@ == digest_hex_of(
                body@,
            )) ==> ({
                let hex = digest_hex_of(body@);
                let k1 = blob_key(hex);
                let k2 = manifest_key(name@, reference@);
                let k3 = manifest_torrent_key(name@, reference@);
                let enc = descriptor_encoding_of(k2, body@, old(self).piece_len() as nat);
                &&& (r is Ok || r == Err::<(Vec<u8>, Vec<u8>), RegistryError>(
                    RegistryError::IOFailure,
                ))
                &&& r matches Ok(p) ==> p.0@ == hex && p.1@ == info_hash_of(
                    k2,
                    body@,
                    old(self).piece_len() as nat,
                ) && final(self).contents() == old(self).contents().insert(k1, body@).insert(
                    k2,
                    hex,
                ).insert(k3, enc)
                &&& r is Err ==> final(self).contents() == old(self).contents()
                    || final(self).contents() == old(self).contents().insert(k1, body@)
                    || final(self).contents() == old(self).contents().insert(k1, body@).insert(
                    k2,
                    hex,
                )
            }),
    {
        if !check_document(body) {
            return Err(RegistryError::ParseError);
        }
        let hex = digest_hex(body);
        if is_digest_ref(reference) {
            if !slices_equal(reference, hex.as_slice()) {
                return Err(RegistryError::DigestMismatch);
            }
        }
        let k1 = make_blob_key(hex.as_slice());
        match self.store.save(k1.as_slice(), body) {
            Ok(()) => (),
            Err(e) => { return Err(e) },
        }
        let k2 = make_manifest_key(name, reference);
        match self.store.save(k2.as_slice(), hex.as_slice()) {
            Ok(()) => (),
            Err(e) => { return Err(e) },
        }
        let d = match build(k2.as_slice(), body, self.piece_length) {
            Ok(d) => d,
            Err(e) => { return Err(e) },
        };
        let enc = d.encode();
        proof {
            lemma_build_deterministic(d, d, k2@, body@, self.piece_length as nat);
        }
        let k3 = make_manifest_torrent_key(name, reference);
        match self.store.save(k3.as_slice(), enc.as_slice()) {
            Ok(()) => (),
            Err(e) => { return Err(e) },
        }
        Ok((hex, d.info_hash))
    }

    /// Resolves `reference` (directly if digest-shaped, else via its tag
    /// binding), loads the manifest bytes by digest, verifies them against
    /// that digest to catch backend corruption, and checks they still form
    /// a well-formed document.
    pub fn get_manifest(&self, name: &[u8], reference: &[u8]) -> (r: Result<
        Vec<u8>,
        RegistryError,
    >)
        ensures
            ({
                let res = resolved_digest(self.contents(), name@, reference@);
                &&& r matches Ok(v) ==> res matches Some(h) && self.contents().contains_key(
                    blob_key(h),
                ) && v@ == self.contents()[blob_key(h)] && digest_hex_of(v@) == h
                    && json_well_formed(v@)
                &&& r == Err::<Vec<u8>, RegistryError>(RegistryError::NotFound) ==> res is None || (
                res matches Some(h) && !self.contents().contains_key(blob_key(h)))
                &&& r == Err::<Vec<u8>, RegistryError>(RegistryError::DigestMismatch) ==> (
                res matches Some(h) && self.contents().contains_key(blob_key(h)) && digest_hex_of(
                    self.contents()[blob_key(h)],
                ) != h)
                &&& r == Err::<Vec<u8>, RegistryError>(RegistryError::ParseError) ==> (
                res matches Some(h) && self.contents().contains_key(blob_key(h)) && digest_hex_of(
                    self.contents()[blob_key(h)],
                ) == h && !json_well_formed(self.contents()[blob_key(h)]))
                &&& r is Err ==> r == Err::<Vec<u8>, RegistryError>(RegistryError::NotFound) || r
                    == Err::<Vec<u8>, RegistryError>(RegistryError::DigestMismatch) || r == Err::<
                    Vec<u8>,
                    RegistryError,
                >(RegistryError::ParseError) || r == Err::<Vec<u8>, RegistryError>(
                    RegistryError::IOFailure,
                )
            }),
    {
        let hex: Vec<u8>;
        if is_digest_ref(reference) {
            let mut h: Vec<u8> = Vec::new();
            push_slice(&mut h, reference);
            hex = h;
        } else {
            let bind_key = make_manifest_key(name, reference);
            hex = match self.store.load(bind_key.as_slice()) {
                Ok(v) => v,
                Err(e) => { return Err(e) },
            };
        }
        let bkey = make_blob_key(hex.as_slice());
        let body = match self.store.load(bkey.as_slice()) {
            Ok(v) => v,
            Err(e) => { return Err(e) },
        };
        let expected = digest_hex(body.as_slice());
        if !slices_equal(expected.as_slice(), hex.as_slice()) {
            return Err(RegistryError::DigestMismatch);
        }
        if !check_document(body.as_slice()) {
            return Err(RegistryError::ParseError);
        }
        Ok(body)
    }

    /// Creates a repository: `Conflict` if the name is already taken, with
    /// the existing record left untouched; otherwise the provided record
    /// bytes are persisted under the repository key.
    pub fn create_repository(&mut self, name: &[u8], record: &[u8]) -> (r: Result<
        (),
        RegistryError,
    >)
        ensures
            final(self).piece_len() == old(self).piece_len(),
            old(self).contents().contains_key(repo_key(name@)) ==> r == Err::<(), RegistryError>(
                RegistryError::Conflict,
            ) && final(self).contents() == old(self).contents(),
            !old(self).contents().contains_key(repo_key(name@)) ==> {
                &&& r is Ok || r == Err::<(), RegistryError>(RegistryError::IOFailure)
                &&& r is Ok ==> final(self).contents() == old(self).contents().insert(
                    repo_key(name@),
                    record@,
                )
                &&& r is Err ==> final(self).contents() == old(self).contents()
            },
    {
        let rkey = make_repo_key(name);
        if self.store.contains(rkey.as_slice()) {
            return Err(RegistryError::Conflict);
        }
        self.store.save(rkey.as_slice(), record)
    }

    /// Loads a repository record by name; `NotFound` exactly when the name
    /// is unbound.
    pub fn get_repository(&self, name: &[u8]) -> (r: Result<Vec<u8>, RegistryError>)
        ensures
            r matches Ok(v) ==> self.contents().contains_key(repo_key(name@)) && v@
                == self.contents()[repo_key(name@)],
            r == Err::<Vec<u8>, RegistryError>(RegistryError::NotFound)
                ==> !self.contents().contains_key(repo_key(name@)),
            r is Err ==> r == Err::<Vec<u8>, RegistryError>(RegistryError::NotFound) || r == Err::<
                Vec<u8>,
                RegistryError,
            >(RegistryError::IOFailure),
    {
        let rkey = make_repo_key(name);
        self.store.load(rkey.as_slice())
    }
}

} // verus!
