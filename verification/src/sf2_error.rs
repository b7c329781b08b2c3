//! Errors of the SF2 sample-bank layer. Container-layer errors are forwarded
//! in their own variant.

use vstd::prelude::*;

use crate::riff_error::RiffError;

verus! {

/// What can go wrong while reading the SF2 structures of a chunk tree.
#[derive(Debug, Clone, Copy, PartialEq, Eq)]
pub enum Sf2Error {
    /// A forwarded error of the chunk-container layer.
    RiffError(RiffError),
    /// The root chunk's id is not `sfbk`.
    InvalidRootChunk,
    /// A required chunk with this id is absent.
    MissingChunk { chunk_id: [u8; 4] },
    /// A record-array chunk's byte length is not a multiple of the record
    /// size.
    MalformedChunk { chunk_id: [u8; 4] },
    /// A record-array chunk holds no record beyond the mandatory terminator
    /// slot.
    MissingTerminatorRecord { chunk_id: [u8; 4] },
    /// A zero-terminated string lacks its terminator or is not UTF-8.
    MalformedZstr,
    /// A fixed-length name field is not UTF-8 before its first NUL byte.
    MalformedFixedstr,
    /// A version chunk's payload is not exactly two 16-bit fields.
    MalformedVersionChunk,
}

/// The mathematical value of an [`Sf2Error`], with chunk ids as byte
/// sequences.
pub enum Sf2ErrorModel {
    RiffError(RiffError),
    InvalidRootChunk,
    MissingChunk { chunk_id: Seq<u8> },
    MalformedChunk { chunk_id: Seq<u8> },
    MissingTerminatorRecord { chunk_id: Seq<u8> },
    MalformedZstr,
    MalformedFixedstr,
    MalformedVersionChunk,
}

impl View for Sf2Error {
    type V = Sf2ErrorModel;

    open spec fn view(&self) -> Sf2ErrorModel {
        match self {
            Sf2Error::RiffError(e) => Sf2ErrorModel::RiffError(*e),
            Sf2Error::InvalidRootChunk => Sf2ErrorModel::InvalidRootChunk,
            Sf2Error::MissingChunk { chunk_id } => Sf2ErrorModel::MissingChunk {
                chunk_id: chunk_id@,
            },
            Sf2Error::MalformedChunk { chunk_id } => Sf2ErrorModel::MalformedChunk {
                chunk_id: chunk_id@,
            },
            Sf2Error::MissingTerminatorRecord { chunk_id } => {
                Sf2ErrorModel::MissingTerminatorRecord { chunk_id: chunk_id@ }
            },
            Sf2Error::MalformedZstr => Sf2ErrorModel::MalformedZstr,
            Sf2Error::MalformedFixedstr => Sf2ErrorModel::MalformedFixedstr,
            Sf2Error::MalformedVersionChunk => Sf2ErrorModel::MalformedVersionChunk,
        }
    }
}

} // verus!
