//! The canonical keys the registry hands to the artifact store: blobs under
//! `blobs/<digest>`, tag bindings under `manifests/<name>/<reference>.json`,
//! descriptors under `torrents/<name>/<reference>.torrent` for manifests and
//! `torrents/<digest>.torrent` for blobs, repository records under
//! `repositories/<name>`.

use vstd::prelude::*;

use crate::encode::push_slice;

verus! {

/// The prefix `blobs/`.
pub open spec fn lit_blobs() -> Seq<u8> {
    seq![0x62u8, 0x6cu8, 0x6fu8, 0x62u8, 0x73u8, 0x2fu8]
}

/// The prefix `manifests/`.
pub open spec fn lit_manifests() -> Seq<u8> {
    seq![0x6du8, 0x61u8, 0x6eu8, 0x69u8, 0x66u8, 0x65u8, 0x73u8, 0x74u8, 0x73u8, 0x2fu8]
}

/// The prefix `torrents/`.
pub open spec fn lit_torrents() -> Seq<u8> {
    seq![0x74u8, 0x6fu8, 0x72u8, 0x72u8, 0x65u8, 0x6eu8, 0x74u8, 0x73u8, 0x2fu8]
}

/// The prefix `repositories/`.
pub open spec fn lit_repositories() -> Seq<u8> {
    seq![
        0x72u8,
        0x65u8,
        0x70u8,
        0x6fu8,
        0x73u8,
        0x69u8,
        0x74u8,
        0x6fu8,
        0x72u8,
        0x69u8,
        0x65u8,
        0x73u8,
        0x2fu8,
    ]
}

/// The suffix `.json`.
pub open spec fn lit_dot_json() -> Seq<u8> {
    seq![0x2eu8, 0x6au8, 0x73u8, 0x6fu8, 0x6eu8]
}

/// The suffix `.torrent`.
pub open spec fn lit_dot_torrent() -> Seq<u8> {
    seq![0x2eu8, 0x74u8, 0x6fu8, 0x72u8, 0x72u8, 0x65u8, 0x6eu8, 0x74u8]
}

/// The storage key of the blob with hex digest `hex`.
pub open spec fn blob_key(hex: Seq<u8>) -> Seq<u8> {
    lit_blobs() + hex
}

/// The storage key of the tag binding for `reference` in `name`.
pub open spec fn manifest_key(name: Seq<u8>, reference: Seq<u8>) -> Seq<u8> {
    lit_manifests() + name + seq![0x2fu8] + reference + lit_dot_json()
}

/// The storage key of the descriptor derived for a manifest.
pub open spec fn manifest_torrent_key(name: Seq<u8>, reference: Seq<u8>) -> Seq<u8> {
    lit_torrents() + name + seq![0x2fu8] + reference + lit_dot_torrent()
}

/// The storage key of the descriptor derived for a blob.
pub open spec fn blob_torrent_key(hex: Seq<u8>) -> Seq<u8> {
    lit_torrents() + hex + lit_dot_torrent()
}

/// The storage key of the repository record named `name`.
pub open spec fn repo_key(name: Seq<u8>) -> Seq<u8> {
    lit_repositories() + name
}

fn push_lit_blobs(out: &mut Vec<u8>)
    ensures
        final(out)@ == old(out)@ + lit_blobs(),
{
    out.push(0x62u8);
    out.push(0x6cu8);
    out.push(0x6fu8);
    out.push(0x62u8);
    out.push(0x73u8);
    out.push(0x2fu8);
    proof {
        assert(out@ =~= old(out)@ + lit_blobs());
    }
}

fn push_lit_manifests(out: &mut Vec<u8>)
    ensures
        final(out)@ == old(out)@ + lit_manifests(),
{
    out.push(0x6du8);
    out.push(0x61u8);
    out.push(0x6eu8);
    out.push(0x69u8);
    out.push(0x66u8);
    out.push(0x65u8);
    out.push(0x73u8);
    out.push(0x74u8);
    out.push(0x73u8);
    out.push(0x2fu8);
    proof {
        assert(out@ =~= old(out)@ + lit_manifests());
    }
}

fn push_lit_torrents(out: &mut Vec<u8>)
    ensures
        final(out)@ == old(out)@ + lit_torrents(),
{
    out.push(0x74u8);
    out.push(0x6fu8);
    out.push(0x72u8);
    out.push(0x72u8);
    out.push(0x65u8);
    out.push(0x6eu8);
    out.push(0x74u8);
    out.push(0x73u8);
    out.push(0x2fu8);
    proof {
        assert(out@ =~= old(out)@ + lit_torrents());
    }
}

fn push_lit_repositories(out: &mut Vec<u8>)
    ensures
        final(out)@ == old(out)@ + lit_repositories(),
{
    out.push(0x72u8);
    out.push(0x65u8);
    out.push(0x70u8);
    out.push(0x6fu8);
    out.push(0x73u8);
    out.push(0x69u8);
    out.push(0x74u8);
    out.push(0x6fu8);
    out.push(0x72u8);
    out.push(0x69u8);
    out.push(0x65u8);
    out.push(0x73u8);
    out.push(0x2fu8);
    proof {
        assert(out@ =~= old(out)@ + lit_repositories());
    }
}

fn push_lit_dot_json(out: &mut Vec<u8>)
    ensures
        final(out)@ == old(out)@ + lit_dot_json(),
{
    out.push(0x2eu8);
    out.push(0x6au8);
    out.push(0x73u8);
    out.push(0x6fu8);
    out.push(0x6eu8);
    proof {
        assert(out@ =~= old(out)@ + lit_dot_json());
    }
}

fn push_lit_dot_torrent(out: &mut Vec<u8>)
    ensures
        final(out)@ == old(out)@ + lit_dot_torrent(),
{
    out.push(0x2eu8);
    out.push(0x74u8);
    out.push(0x6fu8);
    out.push(0x72u8);
    out.push(0x72u8);
    out.push(0x65u8);
    out.push(0x6eu8);
    out.push(0x74u8);
    proof {
        assert(out@ =~= old(out)@ + lit_dot_torrent());
    }
}

/// Builds `blobs/<hex>`.
pub fn make_blob_key(hex: &[u8]) -> (r: Vec<u8>)
    ensures
        r@ == blob_key(hex@),
{
    let mut out: Vec<u8> = Vec::new();
    push_lit_blobs(&mut out);
    push_slice(&mut out, hex);
    out
}

/// Builds `manifests/<name>/<reference>.json`.
pub fn make_manifest_key(name: &[u8], reference: &[u8]) -> (r: Vec<u8>)
    ensures
        r@ == manifest_key(name@, reference@),
{
    let mut out: Vec<u8> = Vec::new();
    push_lit_manifests(&mut out);
    push_slice(&mut out, name);
    out.push(0x2fu8);
    push_slice(&mut out, reference);
    push_lit_dot_json(&mut out);
    proof {
        assert(out@ =~= manifest_key(name@, reference@));
    }
    out
}

/// Builds `torrents/<name>/<reference>.torrent`.
pub fn make_manifest_torrent_key(name: &[u8], reference: &[u8]) -> (r: Vec<u8>)
    ensures
        r@ == manifest_torrent_key(name@, reference@),
{
    let mut out: Vec<u8> = Vec::new();
    push_lit_torrents(&mut out);
    push_slice(&mut out, name);
    out.push(0x2fu8);
    push_slice(&mut out, reference);
    push_lit_dot_torrent(&mut out);
    proof {
        assert(out@ =~= manifest_torrent_key(name@, reference@));
    }
    out
}

/// Builds `torrents/<hex>.torrent`.
pub fn make_blob_torrent_key(hex: &[u8]) -> (r: Vec<u8>)
    ensures
        r@ == blob_torrent_key(hex@),
{
    let mut out: Vec<u8> = Vec::new();
    push_lit_torrents(&mut out);
    push_slice(&mut out, hex);
    push_lit_dot_torrent(&mut out);
    proof {
        assert(out@ =~= blob_torrent_key(hex@));
    }
    out
}

/// Builds `repositories/<name>`.
pub fn make_repo_key(name: &[u8]) -> (r: Vec<u8>)
    ensures
        r@ == repo_key(name@),
{
    let mut out: Vec<u8> = Vec::new();
    push_lit_repositories(&mut out);
    push_slice(&mut out, name);
    out
}

} // verus!
