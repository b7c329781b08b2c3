//! The SF2 sample-bank view over a validated chunk tree. The root must be
//! the `sfbk` container; the record arrays live in its `pdta` container, the
//! metadata in its `INFO` container.

use vstd::prelude::*;

use crate::byteseq::bytes_eq;
use crate::fourcc::{fourcc_bytes, fourcc_seq};
use crate::riff_chunk::{find_subchunk, spec_root_chunk, ChunkModel, RiffChunk};
use crate::riff_error::RiffError;
use crate::sf2_error::{Sf2Error, Sf2ErrorModel};
use crate::sf2_info::{spec_info_chunk, Sf2Info};
use crate::sf2_records::{
    cast_outcome, cast_records, Sf2Instrument, Sf2InstrumentGenerator, Sf2InstrumentModulator,
    Sf2InstrumentZone, Sf2PresetGenerator, Sf2PresetHeader, Sf2PresetModulator, Sf2PresetZone,
    Sf2Record, Sf2Sample,
};

verus! {

pub open spec fn sfbk_id() -> Seq<u8> {
    fourcc_seq('s', 'f', 'b', 'k')
}

pub open spec fn pdta_id() -> Seq<u8> {
    fourcc_seq('p', 'd', 't', 'a')
}

/// The root chunk a sound font is built on: the buffer's first chunk,
/// validated, with id exactly `sfbk`.
pub open spec fn spec_soundfont_root(buf: Seq<u8>) -> Result<ChunkModel, Sf2ErrorModel> {
    match spec_root_chunk(buf) {
        Result::Err(e) => Result::Err(Sf2ErrorModel::RiffError(e)),
        Result::Ok(m) => {
            if m.chunk_id() != sfbk_id() {
                Result::Err(Sf2ErrorModel::InvalidRootChunk)
            } else {
                Result::Ok(m)
            }
        },
    }
}

/// The payload of the leaf chunk `leaf_id` inside the root's `pdta`
/// container.
pub open spec fn spec_pdta_leaf_data(root: ChunkModel, leaf_id: Seq<u8>) -> Result<
    Seq<u8>,
    Sf2ErrorModel,
> {
    if !root.is_container() {
        Result::Err(Sf2ErrorModel::RiffError(RiffError::NormalChunkNoSubchunks))
    } else {
        match find_subchunk(root.children(), pdta_id()) {
            Option::None => Result::Err(Sf2ErrorModel::MissingChunk { chunk_id: pdta_id() }),
            Option::Some(pdta) => {
                if !pdta.is_container() {
                    Result::Err(Sf2ErrorModel::RiffError(RiffError::NormalChunkNoSubchunks))
                } else {
                    match find_subchunk(pdta.children(), leaf_id) {
                        Option::None => Result::Err(
                            Sf2ErrorModel::MissingChunk { chunk_id: leaf_id },
                        ),
                        Option::Some(leaf) => {
                            if leaf.is_container() {
                                Result::Err(
                                    Sf2ErrorModel::RiffError(RiffError::ContainerChunkNoData),
                                )
                            } else {
                                Result::Ok(leaf.data())
                            }
                        },
                    }
                }
            },
        }
    }
}

/// What a record-array accessor returns: the records of the `pdta` leaf
/// chunk `leaf_id`, cast with the record shape `T`, or the first error on
/// the way there.
pub open spec fn records_outcome<T: Sf2Record>(
    root: ChunkModel,
    leaf_id: Seq<u8>,
    r: Result<Vec<T>, Sf2Error>,
) -> bool {
    match spec_pdta_leaf_data(root, leaf_id) {
        Result::Ok(data) => cast_outcome::<T>(data, leaf_id, r),
        Result::Err(em) => r matches Result::Err(e) && e@ == em,
    }
}

/// A sample bank: the validated `sfbk` chunk tree of one buffer.
pub struct Sf2SoundFont<'a> {
    root_chunk: RiffChunk<'a>,
}

impl<'a> View for Sf2SoundFont<'a> {
    type V = ChunkModel;

    closed spec fn view(&self) -> ChunkModel {
        self.root_chunk@
    }
}

impl<'a> Sf2SoundFont<'a> {
    /// Builds the chunk tree of `buffer` and checks that its root is the
    /// `sfbk` container.
    pub fn new(buffer: &'a [u8]) -> (r: Result<Sf2SoundFont<'a>, Sf2Error>)
        ensures
            match (r, spec_soundfont_root(buffer@)) {
                (Result::Ok(sf), Result::Ok(m)) => sf@ == m,
                (Result::Err(e), Result::Err(em)) => e@ == em,
                _ => false,
            },
    {
        let root_chunk = match RiffChunk::new(buffer) {
            Result::Ok(c) => c,
            Result::Err(e) => {
                return Result::Err(Sf2Error::RiffError(e));
            },
        };
        let sfbk = fourcc_bytes('s', 'f', 'b', 'k');
        if !bytes_eq(root_chunk.chunk_id(), sfbk.as_slice()) {
            return Result::Err(Sf2Error::InvalidRootChunk);
        }
        Result::Ok(Sf2SoundFont { root_chunk })
    }

    /// The payload of the `pdta` leaf chunk with the given id.
    fn pdta_leaf_data(&self, leaf_id: [u8; 4]) -> (r: Result<&'a [u8], Sf2Error>)
        ensures
            match (r, spec_pdta_leaf_data(self@, leaf_id@)) {
                (Result::Ok(d), Result::Ok(data)) => d@ == data,
                (Result::Err(e), Result::Err(em)) => e@ == em,
                _ => false,
            },
    {
        let pdta = fourcc_bytes('p', 'd', 't', 'a');
        let chunk_pdta = match self.root_chunk.subchunk(pdta.as_slice()) {
            Result::Err(e) => {
                return Result::Err(Sf2Error::RiffError(e));
            },
            Result::Ok(Option::None) => {
                return Result::Err(Sf2Error::MissingChunk { chunk_id: pdta });
            },
            Result::Ok(Option::Some(c)) => c,
        };
        let chunk_leaf = match chunk_pdta.subchunk(leaf_id.as_slice()) {
            Result::Err(e) => {
                return Result::Err(Sf2Error::RiffError(e));
            },
            Result::Ok(Option::None) => {
                return Result::Err(Sf2Error::MissingChunk { chunk_id: leaf_id });
            },
            Result::Ok(Option::Some(c)) => c,
        };
        match chunk_leaf.chunk_data() {
            Result::Err(e) => Result::Err(Sf2Error::RiffError(e)),
            Result::Ok(d) => Result::Ok(d),
        }
    }

    /// The `phdr` preset headers, terminator removed, in file order.
    pub fn preset_headers(&self) -> (r: Result<Vec<Sf2PresetHeader>, Sf2Error>)
        ensures
            records_outcome::<Sf2PresetHeader>(self@, fourcc_seq('p', 'h', 'd', 'r'), r),
    {
        let id = fourcc_bytes('p', 'h', 'd', 'r');
        match self.pdta_leaf_data(id) {
            Result::Err(e) => Result::Err(e),
            Result::Ok(data) => cast_records::<Sf2PresetHeader>(data, id),
        }
    }

    /// The `pbag` preset zones, terminator removed, in file order.
    pub fn preset_zones(&self) -> (r: Result<Vec<Sf2PresetZone>, Sf2Error>)
        ensures
            records_outcome::<Sf2PresetZone>(self@, fourcc_seq('p', 'b', 'a', 'g'), r),
    {
        let id = fourcc_bytes('p', 'b', 'a', 'g');
        match self.pdta_leaf_data(id) {
            Result::Err(e) => Result::Err(e),
            Result::Ok(data) => cast_records::<Sf2PresetZone>(data, id),
        }
    }

    /// The `pgen` preset generators, terminator removed, in file order.
    pub fn preset_generators(&self) -> (r: Result<Vec<Sf2PresetGenerator>, Sf2Error>)
        ensures
            records_outcome::<Sf2PresetGenerator>(self@, fourcc_seq('p', 'g', 'e', 'n'), r),
    {
        let id = fourcc_bytes('p', 'g', 'e', 'n');
        match self.pdta_leaf_data(id) {
            Result::Err(e) => Result::Err(e),
            Result::Ok(data) => cast_records::<Sf2PresetGenerator>(data, id),
        }
    }

    /// The `pmod` preset modulators, terminator removed, in file order.
    pub fn preset_modulators(&self) -> (r: Result<Vec<Sf2PresetModulator>, Sf2Error>)
        ensures
            records_outcome::<Sf2PresetModulator>(self@, fourcc_seq('p', 'm', 'o', 'd'), r),
    {
        let id = fourcc_bytes('p', 'm', 'o', 'd');
        match self.pdta_leaf_data(id) {
            Result::Err(e) => Result::Err(e),
            Result::Ok(data) => cast_records::<Sf2PresetModulator>(data, id),
        }
    }

    /// The `inst` instrument headers, terminator removed, in file order.
    pub fn instrument_headers(&self) -> (r: Result<Vec<Sf2Instrument>, Sf2Error>)
        ensures
            records_outcome::<Sf2Instrument>(self@, fourcc_seq('i', 'n', 's', 't'), r),
    {
        let id = fourcc_bytes('i', 'n', 's', 't');
        match self.pdta_leaf_data(id) {
            Result::Err(e) => Result::Err(e),
            Result::Ok(data) => cast_records::<Sf2Instrument>(data, id),
        }
    }

    /// The `ibag` instrument zones, terminator removed, in file order.
    pub fn instrument_zones(&self) -> (r: Result<Vec<Sf2InstrumentZone>, Sf2Error>)
        ensures
            records_outcome::<Sf2InstrumentZone>(self@, fourcc_seq('i', 'b', 'a', 'g'), r),
    {
        let id = fourcc_bytes('i', 'b', 'a', 'g');
        match self.pdta_leaf_data(id) {
            Result::Err(e) => Result::Err(e),
            Result::Ok(data) => cast_records::<Sf2InstrumentZone>(data, id),
        }
    }

    /// The `igen` instrument generators, terminator removed, in file order.
    pub fn instrument_generators(&self) -> (r: Result<Vec<Sf2InstrumentGenerator>, Sf2Error>)
        ensures
            records_outcome::<Sf2InstrumentGenerator>(self@, fourcc_seq('i', 'g', 'e', 'n'), r),
    {
        let id = fourcc_bytes('i', 'g', 'e', 'n');
        match self.pdta_leaf_data(id) {
            Result::Err(e) => Result::Err(e),
            Result::Ok(data) => cast_records::<Sf2InstrumentGenerator>(data, id),
        }
    }

    /// The `imod` instrument modulators, terminator removed, in file order.
    pub fn instrument_modulators(&self) -> (r: Result<Vec<Sf2InstrumentModulator>, Sf2Error>)
        ensures
            records_outcome::<Sf2InstrumentModulator>(self@, fourcc_seq('i', 'm', 'o', 'd'), r),
    {
        let id = fourcc_bytes('i', 'm', 'o', 'd');
        match self.pdta_leaf_data(id) {
            Result::Err(e) => Result::Err(e),
            Result::Ok(data) => cast_records::<Sf2InstrumentModulator>(data, id),
        }
    }

    /// The `shdr` sample headers, terminator removed, in file order.
    pub fn sample_headers(&self) -> (r: Result<Vec<Sf2Sample>, Sf2Error>)
        ensures
            records_outcome::<Sf2Sample>(self@, fourcc_seq('s', 'h', 'd', 'r'), r),
    {
        let id = fourcc_bytes('s', 'h', 'd', 'r');
        match self.pdta_leaf_data(id) {
            Result::Err(e) => Result::Err(e),
            Result::Ok(data) => cast_records::<Sf2Sample>(data, id),
        }
    }

    /// The metadata view over the root's `INFO` container.
    pub fn info(&self) -> (r: Result<Sf2Info, Sf2Error>)
        ensures
            match (r, spec_info_chunk(self@)) {
                (Result::Ok(info), Result::Ok(m)) => info@ == m,
                (Result::Err(e), Result::Err(em)) => e@ == em,
                _ => false,
            },
    {
        let info = fourcc_bytes('I', 'N', 'F', 'O');
        let chunk_info = match self.root_chunk.subchunk(info.as_slice()) {
            Result::Err(e) => {
                return Result::Err(Sf2Error::RiffError(e));
            },
            Result::Ok(Option::None) => {
                return Result::Err(Sf2Error::MissingChunk { chunk_id: info });
            },
            Result::Ok(Option::Some(c)) => c,
        };
        Sf2Info::new(chunk_info)
    }
}

} // verus!
