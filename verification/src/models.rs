//! The domain records the registry serves: blobs, manifests, repositories.
//! The registry itself works on the serialized bytes of these records; the
//! structured forms are what callers assemble and consume.

use vstd::prelude::*;

verus! {

/// Opaque content plus its size, identified and deduplicated by the digest
/// of its bytes (the textual, hex form).
#[derive(Debug)]
pub struct Blob {
    /// The hex digest of the content.
    pub digest: String,
    /// The number of content bytes.
    pub size: u64,
}

/// A structured document referencing a config blob and an ordered sequence
/// of layer blobs.  Its serialized form has its own digest and is what the
/// registry stores.
#[derive(Debug)]
pub struct Manifest {
    /// The schema version of the document.
    pub schema_version: u32,
    /// The media type of the artifact.
    pub media_type: String,
    /// The config blob.
    pub config: Blob,
    /// The layer blobs, in order.
    pub layers: Vec<Blob>,
}

/// A uniquely named collection of tag bindings.  The record's
/// machine-assigned identifier is carried as plain text.
#[derive(Debug)]
pub struct Repository {
    /// An opaque identifier assigned at creation.
    pub id: String,
    /// The repository name.
    pub name: String,
    /// The tags bound in this repository.
    pub tags: Vec<String>,
}

} // verus!
