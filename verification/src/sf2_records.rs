//! Fixed-size little-endian SF2 records and the record caster. A
//! record-array chunk's payload must be an exact multiple of the record
//! size; the final record is the mandatory terminator, excluded from the
//! returned sequence. Records are decoded field by field, never by
//! reinterpreting memory.

use vstd::prelude::*;

use vstd::bytes::{
    spec_u16_from_le_bytes, spec_u32_from_le_bytes, u16_from_le_bytes, u32_from_le_bytes,
};
use vstd::slice::{slice_subrange, slice_to_vec};

use crate::sf2_error::{Sf2Error, Sf2ErrorModel};
use crate::sf2_strings::{spec_fixedstr, str_from_fixedstr};

verus! {

/// A fixed-size little-endian record of an SF2 record-array chunk.
pub trait Sf2Record: Sized {
    /// The record's size in bytes.
    spec fn spec_size() -> int;

    /// Whether `r` holds exactly the fields encoded in the `spec_size()`
    /// bytes `b`.
    spec fn decoded(b: Seq<u8>, r: Self) -> bool;

    fn record_size() -> (n: usize)
        ensures
            n as int == Self::spec_size(),
            n >= 1,
    ;

    fn decode(b: &[u8]) -> (r: Self)
        requires
            b@.len() == Self::spec_size(),
        ensures
            Self::decoded(b@, r),
    ;
}

/// An `ifil`/`iver` version value: two 16-bit fields, major then minor.
#[derive(Debug, Clone, PartialEq, Eq)]
pub struct Sf2Version {
    pub major: u16,
    pub minor: u16,
}

impl Sf2Record for Sf2Version {
    open spec fn spec_size() -> int {
        4
    }

    open spec fn decoded(b: Seq<u8>, r: Self) -> bool {
        &&& r.major == spec_u16_from_le_bytes(b.subrange(0, 2))
        &&& r.minor == spec_u16_from_le_bytes(b.subrange(2, 4))
    }

    fn record_size() -> usize {
        4
    }

    fn decode(b: &[u8]) -> Self {
        Sf2Version {
            major: u16_from_le_bytes(slice_subrange(b, 0, 2)),
            minor: u16_from_le_bytes(slice_subrange(b, 2, 4)),
        }
    }
}

/// A `phdr` record: one preset of the bank.
#[derive(Debug, Clone, PartialEq, Eq)]
pub struct Sf2PresetHeader {
    pub preset_name: Vec<u8>,
    pub preset: u16,
    pub bank: u16,
    pub preset_bag_index: u16,
    pub library: u32,
    pub genre: u32,
    pub morphology: u32,
}

impl Sf2Record for Sf2PresetHeader {
    open spec fn spec_size() -> int {
        38
    }

    open spec fn decoded(b: Seq<u8>, r: Self) -> bool {
        &&& r.preset_name@ == b.subrange(0, 20)
        &&& r.preset == spec_u16_from_le_bytes(b.subrange(20, 22))
        &&& r.bank == spec_u16_from_le_bytes(b.subrange(22, 24))
        &&& r.preset_bag_index == spec_u16_from_le_bytes(b.subrange(24, 26))
        &&& r.library == spec_u32_from_le_bytes(b.subrange(26, 30))
        &&& r.genre == spec_u32_from_le_bytes(b.subrange(30, 34))
        &&& r.morphology == spec_u32_from_le_bytes(b.subrange(34, 38))
    }

    fn record_size() -> usize {
        38
    }

    fn decode(b: &[u8]) -> Self {
        Sf2PresetHeader {
            preset_name: slice_to_vec(slice_subrange(b, 0, 20)),
            preset: u16_from_le_bytes(slice_subrange(b, 20, 22)),
            bank: u16_from_le_bytes(slice_subrange(b, 22, 24)),
            preset_bag_index: u16_from_le_bytes(slice_subrange(b, 24, 26)),
            library: u32_from_le_bytes(slice_subrange(b, 26, 30)),
            genre: u32_from_le_bytes(slice_subrange(b, 30, 34)),
            morphology: u32_from_le_bytes(slice_subrange(b, 34, 38)),
        }
    }
}

impl Sf2PresetHeader {
    /// The preset's name: the 20-byte field up to its first NUL, as text.
    pub fn preset_name(&self) -> (r: Result<&str, Sf2Error>)
        ensures
            match r {
                Result::Ok(s) => spec_fixedstr(self.preset_name@) == Option::Some(s@),
                Result::Err(e) => spec_fixedstr(self.preset_name@) is None && e
                    == Sf2Error::MalformedFixedstr,
            },
    {
        str_from_fixedstr(self.preset_name.as_slice())
    }

    /// The bank and preset numbers, in MIDI bank-select order.
    pub fn bank_preset(&self) -> (r: (u16, u16))
        ensures
            r.0 == self.bank,
            r.1 == self.preset,
    {
        (self.bank, self.preset)
    }

    pub fn bank(&self) -> (r: u16)
        ensures
            r == self.bank,
    {
        self.bank
    }

    pub fn preset(&self) -> (r: u16)
        ensures
            r == self.preset,
    {
        self.preset
    }
}

/// An `inst` record: one instrument and the index of its first zone.
#[derive(Debug, Clone, PartialEq, Eq)]
pub struct Sf2Instrument {
    pub instrument_name: Vec<u8>,
    pub instrument_bag_index: u16,
}

impl Sf2Record for Sf2Instrument {
    open spec fn spec_size() -> int {
        22
    }

    open spec fn decoded(b: Seq<u8>, r: Self) -> bool {
        &&& r.instrument_name@ == b.subrange(0, 20)
        &&& r.instrument_bag_index == spec_u16_from_le_bytes(b.subrange(20, 22))
    }

    fn record_size() -> usize {
        22
    }

    fn decode(b: &[u8]) -> Self {
        Sf2Instrument {
            instrument_name: slice_to_vec(slice_subrange(b, 0, 20)),
            instrument_bag_index: u16_from_le_bytes(slice_subrange(b, 20, 22)),
        }
    }
}

impl Sf2Instrument {
    /// The instrument's name: the 20-byte field up to its first NUL, as
    /// text.
    pub fn instrument_name(&self) -> (r: Result<&str, Sf2Error>)
        ensures
            match r {
                Result::Ok(s) => spec_fixedstr(self.instrument_name@) == Option::Some(s@),
                Result::Err(e) => spec_fixedstr(self.instrument_name@) is None && e
                    == Sf2Error::MalformedFixedstr,
            },
    {
        str_from_fixedstr(self.instrument_name.as_slice())
    }
}

/// An `shdr` record: one sample with its positions and pitch data.
#[derive(Debug, Clone, PartialEq, Eq)]
pub struct Sf2Sample {
    pub sample_name: Vec<u8>,
    pub start: u32,
    pub end: u32,
    pub start_loop: u32,
    pub end_loop: u32,
    pub sample_rate: u32,
    pub original_pitch: u8,
    pub pitch_correction: i8,
    pub sample_link: u16,
    pub sample_type: u16,
}

impl Sf2Record for Sf2Sample {
    open spec fn spec_size() -> int {
        46
    }

    open spec fn decoded(b: Seq<u8>, r: Self) -> bool {
        &&& r.sample_name@ == b.subrange(0, 20)
        &&& r.start == spec_u32_from_le_bytes(b.subrange(20, 24))
        &&& r.end == spec_u32_from_le_bytes(b.subrange(24, 28))
        &&& r.start_loop == spec_u32_from_le_bytes(b.subrange(28, 32))
        &&& r.end_loop == spec_u32_from_le_bytes(b.subrange(32, 36))
        &&& r.sample_rate == spec_u32_from_le_bytes(b.subrange(36, 40))
        &&& r.original_pitch == b[40]
        &&& r.pitch_correction == b[41] as i8
        &&& r.sample_link == spec_u16_from_le_bytes(b.subrange(42, 44))
        &&& r.sample_type == spec_u16_from_le_bytes(b.subrange(44, 46))
    }

    fn record_size() -> usize {
        46
    }

    fn decode(b: &[u8]) -> Self {
        Sf2Sample {
            sample_name: slice_to_vec(slice_subrange(b, 0, 20)),
            start: u32_from_le_bytes(slice_subrange(b, 20, 24)),
            end: u32_from_le_bytes(slice_subrange(b, 24, 28)),
            start_loop: u32_from_le_bytes(slice_subrange(b, 28, 32)),
            end_loop: u32_from_le_bytes(slice_subrange(b, 32, 36)),
            sample_rate: u32_from_le_bytes(slice_subrange(b, 36, 40)),
            original_pitch: *vstd::slice::slice_index_get(b, 40),
            pitch_correction: *vstd::slice::slice_index_get(b, 41) as i8,
            sample_link: u16_from_le_bytes(slice_subrange(b, 42, 44)),
            sample_type: u16_from_le_bytes(slice_subrange(b, 44, 46)),
        }
    }
}

impl Sf2Sample {
    /// The sample's name: the 20-byte field up to its first NUL, as text.
    pub fn sample_name(&self) -> (r: Result<&str, Sf2Error>)
        ensures
            match r {
                Result::Ok(s) => spec_fixedstr(self.sample_name@) == Option::Some(s@),
                Result::Err(e) => spec_fixedstr(self.sample_name@) is None && e
                    == Sf2Error::MalformedFixedstr,
            },
    {
        str_from_fixedstr(self.sample_name.as_slice())
    }
}

/// A `pbag` record: the generator and modulator indices of one preset zone.
#[derive(Debug, Clone, Copy, PartialEq, Eq)]
pub struct Sf2PresetZone {
    pub generator_index: u16,
    pub modulator_index: u16,
}

impl Sf2Record for Sf2PresetZone {
    open spec fn spec_size() -> int {
        4
    }

    open spec fn decoded(b: Seq<u8>, r: Self) -> bool {
        &&& r.generator_index == spec_u16_from_le_bytes(b.subrange(0, 2))
        &&& r.modulator_index == spec_u16_from_le_bytes(b.subrange(2, 4))
    }

    fn record_size() -> usize {
        4
    }

    fn decode(b: &[u8]) -> Self {
        Sf2PresetZone {
            generator_index: u16_from_le_bytes(slice_subrange(b, 0, 2)),
            modulator_index: u16_from_le_bytes(slice_subrange(b, 2, 4)),
        }
    }
}

/// An `ibag` record: the generator and modulator indices of one instrument
/// zone.
#[derive(Debug, Clone, Copy, PartialEq, Eq)]
pub struct Sf2InstrumentZone {
    pub generator_index: u16,
    pub modulator_index: u16,
}

impl Sf2Record for Sf2InstrumentZone {
    open spec fn spec_size() -> int {
        4
    }

    open spec fn decoded(b: Seq<u8>, r: Self) -> bool {
        &&& r.generator_index == spec_u16_from_le_bytes(b.subrange(0, 2))
        &&& r.modulator_index == spec_u16_from_le_bytes(b.subrange(2, 4))
    }

    fn record_size() -> usize {
        4
    }

    fn decode(b: &[u8]) -> Self {
        Sf2InstrumentZone {
            generator_index: u16_from_le_bytes(slice_subrange(b, 0, 2)),
            modulator_index: u16_from_le_bytes(slice_subrange(b, 2, 4)),
        }
    }
}

/// A `pgen` record: one generator of a preset zone, fields uninterpreted.
#[derive(Debug, Clone, Copy, PartialEq, Eq)]
pub struct Sf2PresetGenerator {
    pub gen_oper: u16,
    pub gen_amount: u16,
}

impl Sf2Record for Sf2PresetGenerator {
    open spec fn spec_size() -> int {
        4
    }

    open spec fn decoded(b: Seq<u8>, r: Self) -> bool {
        &&& r.gen_oper == spec_u16_from_le_bytes(b.subrange(0, 2))
        &&& r.gen_amount == spec_u16_from_le_bytes(b.subrange(2, 4))
    }

    fn record_size() -> usize {
        4
    }

    fn decode(b: &[u8]) -> Self {
        Sf2PresetGenerator {
            gen_oper: u16_from_le_bytes(slice_subrange(b, 0, 2)),
            gen_amount: u16_from_le_bytes(slice_subrange(b, 2, 4)),
        }
    }
}

/// An `igen` record: one generator of an instrument zone, fields
/// uninterpreted.
#[derive(Debug, Clone, Copy, PartialEq, Eq)]
pub struct Sf2InstrumentGenerator {
    pub gen_oper: u16,
    pub gen_amount: u16,
}

impl Sf2Record for Sf2InstrumentGenerator {
    open spec fn spec_size() -> int {
        4
    }

    open spec fn decoded(b: Seq<u8>, r: Self) -> bool {
        &&& r.gen_oper == spec_u16_from_le_bytes(b.subrange(0, 2))
        &&& r.gen_amount == spec_u16_from_le_bytes(b.subrange(2, 4))
    }

    fn record_size() -> usize {
        4
    }

    fn decode(b: &[u8]) -> Self {
        Sf2InstrumentGenerator {
            gen_oper: u16_from_le_bytes(slice_subrange(b, 0, 2)),
            gen_amount: u16_from_le_bytes(slice_subrange(b, 2, 4)),
        }
    }
}

/// A `pmod` record: one modulator of a preset zone, fields uninterpreted.
#[derive(Debug, Clone, Copy, PartialEq, Eq)]
pub struct Sf2PresetModulator {
    pub mod_src_oper: u16,
    pub mod_dest_oper: u16,
    pub mod_amount: i16,
    pub mod_amt_src_oper: u16,
    pub mod_trans_oper: u16,
}

impl Sf2Record for Sf2PresetModulator {
    open spec fn spec_size() -> int {
        10
    }

    open spec fn decoded(b: Seq<u8>, r: Self) -> bool {
        &&& r.mod_src_oper == spec_u16_from_le_bytes(b.subrange(0, 2))
        &&& r.mod_dest_oper == spec_u16_from_le_bytes(b.subrange(2, 4))
        &&& r.mod_amount == spec_u16_from_le_bytes(b.subrange(4, 6)) as i16
        &&& r.mod_amt_src_oper == spec_u16_from_le_bytes(b.subrange(6, 8))
        &&& r.mod_trans_oper == spec_u16_from_le_bytes(b.subrange(8, 10))
    }

    fn record_size() -> usize {
        10
    }

    fn decode(b: &[u8]) -> Self {
        Sf2PresetModulator {
            mod_src_oper: u16_from_le_bytes(slice_subrange(b, 0, 2)),
            mod_dest_oper: u16_from_le_bytes(slice_subrange(b, 2, 4)),
            mod_amount: u16_from_le_bytes(slice_subrange(b, 4, 6)) as i16,
            mod_amt_src_oper: u16_from_le_bytes(slice_subrange(b, 6, 8)),
            mod_trans_oper: u16_from_le_bytes(slice_subrange(b, 8, 10)),
        }
    }
}

/// An `imod` record: one modulator of an instrument zone, fields
/// uninterpreted.
#[derive(Debug, Clone, Copy, PartialEq, Eq)]
pub struct Sf2InstrumentModulator {
    pub mod_src_oper: u16,
    pub mod_dest_oper: u16,
    pub mod_amount: i16,
    pub mod_amt_src_oper: u16,
    pub mod_trans_oper: u16,
}

impl Sf2Record for Sf2InstrumentModulator {
    open spec fn spec_size() -> int {
        10
    }

    open spec fn decoded(b: Seq<u8>, r: Self) -> bool {
        &&& r.mod_src_oper == spec_u16_from_le_bytes(b.subrange(0, 2))
        &&& r.mod_dest_oper == spec_u16_from_le_bytes(b.subrange(2, 4))
        &&& r.mod_amount == spec_u16_from_le_bytes(b.subrange(4, 6)) as i16
        &&& r.mod_amt_src_oper == spec_u16_from_le_bytes(b.subrange(6, 8))
        &&& r.mod_trans_oper == spec_u16_from_le_bytes(b.subrange(8, 10))
    }

    fn record_size() -> usize {
        10
    }

    fn decode(b: &[u8]) -> Self {
        Sf2InstrumentModulator {
            mod_src_oper: u16_from_le_bytes(slice_subrange(b, 0, 2)),
            mod_dest_oper: u16_from_le_bytes(slice_subrange(b, 2, 4)),
            mod_amount: u16_from_le_bytes(slice_subrange(b, 4, 6)) as i16,
            mod_amt_src_oper: u16_from_le_bytes(slice_subrange(b, 6, 8)),
            mod_trans_oper: u16_from_le_bytes(slice_subrange(b, 8, 10)),
        }
    }
}

/// Casts a record-array chunk's payload to its records, in file order. The
/// byte length must be an exact multiple of the record size; the final
/// record is the mandatory terminator and is split off, so a payload of
/// `(k+1)` records yields exactly the first `k`. A payload with no record
/// beyond the terminator slot (or none at all) has no terminator to remove.
///
/// The terminator is identified by its position alone, never by its
/// reserved name (`EOP\0`, `EOI\0`, `EOS\0`): only its presence is
/// required, and its field values are not exposed.
/// What the record caster returns for a payload `data` of the chunk with id
/// `chunk_id`: the decoded records with the final terminator record split
/// off, or the error the payload's shape forces.
pub open spec fn cast_outcome<T: Sf2Record>(
    data: Seq<u8>,
    chunk_id: Seq<u8>,
    r: Result<Vec<T>, Sf2Error>,
) -> bool {
    match r {
        Result::Ok(v) => {
            &&& (data.len() as int) % T::spec_size() == 0
            &&& (data.len() as int) / T::spec_size() >= 2
            &&& v@.len() == (data.len() as int) / T::spec_size() - 1
            &&& forall|k: int|
                0 <= k < v@.len() ==> T::decoded(
                    data.subrange(k * T::spec_size(), (k + 1) * T::spec_size()),
                    #[trigger] v@[k],
                )
        },
        Result::Err(e) => {
            if (data.len() as int) % T::spec_size() != 0 {
                e@ == (Sf2ErrorModel::MalformedChunk { chunk_id })
            } else {
                &&& (data.len() as int) / T::spec_size() < 2
                &&& e@ == (Sf2ErrorModel::MissingTerminatorRecord { chunk_id })
            }
        },
    }
}

pub fn cast_records<T: Sf2Record>(data: &[u8], chunk_id: [u8; 4]) -> (r: Result<Vec<T>, Sf2Error>)
    ensures
        cast_outcome::<T>(data@, chunk_id@, r),
{
    let size = T::record_size();
    if data.len() % size != 0 {
        return Result::Err(Sf2Error::MalformedChunk { chunk_id });
    }
    let n = data.len() / size;
    if n < 2 {
        return Result::Err(Sf2Error::MissingTerminatorRecord { chunk_id });
    }
    proof {
        vstd::arithmetic::div_mod::lemma_fundamental_div_mod(data@.len() as int, size as int);
    }
    let k = n - 1;
    let mut out: Vec<T> = Vec::new();
    let mut i: usize = 0;
    while i < k
        invariant
            0 <= i <= k,
            k + 1 == n,
            n == (data@.len() as int) / T::spec_size(),
            size as int == T::spec_size(),
            size >= 1,
            n * size == data@.len(),
            data@.len() <= usize::MAX,
            out@.len() == i,
            forall|j: int|
                0 <= j < i ==> T::decoded(
                    data@.subrange(j * T::spec_size(), (j + 1) * T::spec_size()),
                    #[trigger] out@[j],
                ),
        decreases k - i,
    {
        proof {
            vstd::arithmetic::mul::lemma_mul_inequality(i as int + 1, n as int, size as int);
            vstd::arithmetic::mul::lemma_mul_is_distributive_add_other_way(
                size as int,
                i as int,
                1,
            );
            assert((i as int + 1) * size as int == i as int * size as int + size as int);
            assert(i as int * size as int + size as int <= data@.len());
        }
        let start = i * size;
        let stop = start + size;
        let rec = T::decode(slice_subrange(data, start, stop));
        out.push(rec);
        i = i + 1;
    }
    Result::Ok(out)
}

} // verus!
