//! A verified parser for the RIFF chunk container and the SoundFont2 (SF2)
//! sample-bank format layered on top of it. Chunk payloads are borrowed
//! slices of one immutable backing buffer, which must outlive every view
//! derived from it; fixed-layout records are decoded from those payloads
//! field by field. Nothing mutates after construction.

pub mod byteseq;
pub mod fourcc;
pub mod raw_chunk;
pub mod riff_chunk;
pub mod riff_error;
pub mod sf2_error;
pub mod sf2_info;
pub mod sf2_records;
pub mod sf2_soundfont;
pub mod sf2_strings;

pub use raw_chunk::{RawChunk, RawChunkIterator};
pub use riff_chunk::RiffChunk;
pub use riff_error::RiffError;
pub use sf2_error::Sf2Error;
pub use sf2_info::Sf2Info;
pub use sf2_soundfont::Sf2SoundFont;
pub use sf2_records::{Sf2Instrument, Sf2InstrumentGenerator, Sf2InstrumentModulator, Sf2InstrumentZone, Sf2PresetGenerator, Sf2PresetHeader, Sf2PresetModulator, Sf2PresetZone, Sf2Sample, Sf2Version};
