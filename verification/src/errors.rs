//! The error taxonomy of the registry.

use vstd::prelude::*;

verus! {

/// Every failure a registry operation can report.  Each operation's contract
/// states exactly which inputs produce which variant; none is swallowed.
#[derive(Clone, Copy, Debug, PartialEq, Eq, Structural)]
pub enum RegistryError {
    /// The repository, reference, or backing bytes are absent.
    NotFound,
    /// A repository with the requested name already exists.
    Conflict,
    /// A digest handed in by the caller does not match the digest of the
    /// bytes it claims to describe, or bytes loaded from the store do not
    /// hash to the digest they are filed under (backend corruption).
    DigestMismatch,
    /// A manifest body is not a well-formed document.
    ParseError,
    /// Piece segmentation was asked for with a piece length of zero.
    InvalidPieceLength,
    /// The canonical encoder cannot represent the descriptor metadata.
    EncodingError,
    /// The storage backend failed to save or load.
    IOFailure,
}

} // verus!
