//! Errors of the chunk-container layer.

use vstd::prelude::*;

verus! {

/// What can go wrong while decoding or navigating the chunk container.
#[derive(Debug, Clone, Copy, PartialEq, Eq)]
pub enum RiffError {
    /// The buffer holds no chunk at all.
    MissingChunk,
    /// A normal chunk was asked for its children.
    NormalChunkNoSubchunks,
    /// A container chunk was asked for its raw payload.
    ContainerChunkNoData,
    /// A declared chunk length reaches past the end of the buffer, or a
    /// container's declared length cannot hold its 4-byte type tag.
    TruncatedChunkData,
    /// A 4-byte identifier is not a well-formed FourCC.
    MalformedIdentifier,
}

} // verus!
