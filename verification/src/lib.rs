//! A content-addressable artifact registry with peer-to-peer transfer
//! descriptors.
//!
//! Every artifact (blob, manifest, repository record) is stored under a key
//! derived from the digest of its own bytes.  On every successful write the
//! registry also derives a deterministic transfer descriptor: a piece-hashed
//! description of the artifact that lets it be redistributed over a peer
//! swarm instead of being pulled directly from the registry.

pub mod digest;
pub mod encode;
pub mod errors;
pub mod keys;
pub mod models;
pub mod pieces;
pub mod registry;
pub mod storage;
pub mod torrent;
