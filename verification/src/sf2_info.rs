//! The metadata view over the `INFO` container: version pairs and
//! zero-terminated strings. Required chunks fail when absent; optional ones
//! yield an empty result, never an error.

use vstd::prelude::*;

use vstd::bytes::spec_u16_from_le_bytes;
use vstd::string::StringSliceAdditionalSpecFns;
use vstd::utf8::{decode_utf8, encode_utf8_decode_utf8, valid_utf8};

use crate::byteseq::{find_byte, lemma_find_byte_bounds, spec_find_byte};
use crate::fourcc::{fourcc_bytes, fourcc_seq};
use crate::riff_chunk::{find_subchunk, ChunkModel, RiffChunk};
use crate::riff_error::RiffError;
use crate::sf2_error::{Sf2Error, Sf2ErrorModel};
use crate::sf2_records::{Sf2Record, Sf2Version};
use crate::sf2_strings::{spec_zstr, str_from_utf8, str_from_zstr};

verus! {

pub open spec fn info_id() -> Seq<u8> {
    fourcc_seq('I', 'N', 'F', 'O')
}

/// The `INFO` container of the root chunk: the chunk the metadata accessors
/// read.
pub open spec fn spec_info_chunk(root: ChunkModel) -> Result<ChunkModel, Sf2ErrorModel> {
    if !root.is_container() {
        Result::Err(Sf2ErrorModel::RiffError(RiffError::NormalChunkNoSubchunks))
    } else {
        match find_subchunk(root.children(), info_id()) {
            Option::None => Result::Err(Sf2ErrorModel::MissingChunk { chunk_id: info_id() }),
            Option::Some(c) => Result::Ok(c),
        }
    }
}

/// An optional zero-terminated string chunk of the info container: absent is
/// `None`, present but malformed is an error.
pub open spec fn spec_info_zstr_opt(info: ChunkModel, id: Seq<u8>) -> Result<
    Option<Seq<char>>,
    Sf2ErrorModel,
> {
    if !info.is_container() {
        Result::Err(Sf2ErrorModel::RiffError(RiffError::NormalChunkNoSubchunks))
    } else {
        match find_subchunk(info.children(), id) {
            Option::None => Result::Ok(Option::None),
            Option::Some(c) => {
                if c.is_container() {
                    Result::Err(Sf2ErrorModel::RiffError(RiffError::ContainerChunkNoData))
                } else {
                    match spec_zstr(c.data()) {
                        Option::None => Result::Err(Sf2ErrorModel::MalformedZstr),
                        Option::Some(chars) => Result::Ok(Option::Some(chars)),
                    }
                }
            },
        }
    }
}

/// An optional version chunk of the info container: two 16-bit
/// little-endian fields; any other payload size is malformed.
pub open spec fn spec_info_ver_opt(info: ChunkModel, id: Seq<u8>) -> Result<
    Option<(u16, u16)>,
    Sf2ErrorModel,
> {
    if !info.is_container() {
        Result::Err(Sf2ErrorModel::RiffError(RiffError::NormalChunkNoSubchunks))
    } else {
        match find_subchunk(info.children(), id) {
            Option::None => Result::Ok(Option::None),
            Option::Some(c) => {
                if c.is_container() {
                    Result::Err(Sf2ErrorModel::RiffError(RiffError::ContainerChunkNoData))
                } else if c.data().len() != 4 {
                    Result::Err(Sf2ErrorModel::MalformedVersionChunk)
                } else {
                    Result::Ok(
                        Option::Some(
                            (
                                spec_u16_from_le_bytes(c.data().subrange(0, 2)),
                                spec_u16_from_le_bytes(c.data().subrange(2, 4)),
                            ),
                        ),
                    )
                }
            },
        }
    }
}

/// What an optional string accessor returns.
pub open spec fn zstr_opt_outcome(
    info: ChunkModel,
    id: Seq<u8>,
    r: Result<Option<&str>, Sf2Error>,
) -> bool {
    match spec_info_zstr_opt(info, id) {
        Result::Ok(opt) => match (r, opt) {
            (Result::Ok(Option::None), Option::None) => true,
            (Result::Ok(Option::Some(s)), Option::Some(chars)) => s@ == chars,
            _ => false,
        },
        Result::Err(em) => r matches Result::Err(e) && e@ == em,
    }
}

/// What a required string accessor returns: as the optional one, but an
/// absent chunk is a missing-chunk error.
pub open spec fn zstr_req_outcome(info: ChunkModel, id: Seq<u8>, r: Result<&str, Sf2Error>) -> bool {
    match spec_info_zstr_opt(info, id) {
        Result::Ok(Option::None) => r matches Result::Err(e) && e@ == (Sf2ErrorModel::MissingChunk {
            chunk_id: id,
        }),
        Result::Ok(Option::Some(chars)) => r matches Result::Ok(s) && s@ == chars,
        Result::Err(em) => r matches Result::Err(e) && e@ == em,
    }
}

/// What an optional version accessor returns.
pub open spec fn ver_opt_outcome(
    info: ChunkModel,
    id: Seq<u8>,
    r: Result<Option<(u16, u16)>, Sf2Error>,
) -> bool {
    match spec_info_ver_opt(info, id) {
        Result::Ok(opt) => r matches Result::Ok(o) && o == opt,
        Result::Err(em) => r matches Result::Err(e) && e@ == em,
    }
}

/// What a required version accessor returns.
pub open spec fn ver_req_outcome(
    info: ChunkModel,
    id: Seq<u8>,
    r: Result<(u16, u16), Sf2Error>,
) -> bool {
    match spec_info_ver_opt(info, id) {
        Result::Ok(Option::None) => r matches Result::Err(e) && e@ == (Sf2ErrorModel::MissingChunk {
            chunk_id: id,
        }),
        Result::Ok(Option::Some(v)) => r matches Result::Ok(o) && o == v,
        Result::Err(em) => r matches Result::Err(e) && e@ == em,
    }
}

/// The segments of `b` split at `sep`, empty segments discarded, order
/// preserved.
pub open spec fn spec_split_segments(b: Seq<u8>, sep: u8) -> Seq<Seq<u8>>
    decreases b.len(),
    via spec_split_segments_decreases
{
    let p = spec_find_byte(b, sep);
    if p == b.len() {
        if b.len() == 0 {
            Seq::empty()
        } else {
            seq![b]
        }
    } else {
        let rest = spec_split_segments(b.skip(p + 1), sep);
        if p == 0 {
            rest
        } else {
            seq![b.take(p)] + rest
        }
    }
}

#[via_fn]
proof fn spec_split_segments_decreases(b: Seq<u8>, sep: u8) {
    lemma_find_byte_bounds(b, sep);
}

/// What the tool-name accessor returns: the zero-terminated `ISFT` string
/// split on `:`, empty segments discarded, each segment decoded as UTF-8.
pub open spec fn tools_outcome(
    info: ChunkModel,
    r: Result<Option<Vec<&str>>, Sf2Error>,
) -> bool {
    let id = fourcc_seq('I', 'S', 'F', 'T');
    if !info.is_container() {
        r matches Result::Err(e) && e@ == Sf2ErrorModel::RiffError(
            RiffError::NormalChunkNoSubchunks,
        )
    } else {
        match find_subchunk(info.children(), id) {
            Option::None => r matches Result::Ok(o) && o is None,
            Option::Some(c) => {
                if c.is_container() {
                    r matches Result::Err(e) && e@ == Sf2ErrorModel::RiffError(
                        RiffError::ContainerChunkNoData,
                    )
                } else {
                    let p = spec_find_byte(c.data(), 0);
                    if p == c.data().len() {
                        r matches Result::Err(e) && e@ == Sf2ErrorModel::MalformedZstr
                    } else {
                        let segs = spec_split_segments(c.data().take(p), 58);
                        if forall|k: int| 0 <= k < segs.len() ==> valid_utf8(#[trigger] segs[k]) {
                            r matches Result::Ok(o) && (o matches Option::Some(v) && v@.len()
                                == segs.len() && forall|k: int|
                                0 <= k < segs.len() ==> (#[trigger] v@[k])@ == decode_utf8(
                                    segs[k],
                                ))
                        } else {
                            r matches Result::Err(e) && e@ == Sf2ErrorModel::MalformedZstr
                        }
                    }
                }
            },
        }
    }
}

/// Splits `b` at `:` bytes and decodes each non-empty segment as UTF-8; any
/// segment that is not UTF-8 makes the whole string malformed.
fn split_tool_segments<'b>(b: &'b [u8]) -> (r: Result<Vec<&'b str>, Sf2Error>)
    ensures
        ({
            let segs = spec_split_segments(b@, 58);
            match r {
                Result::Ok(v) => {
                    &&& forall|k: int| 0 <= k < segs.len() ==> valid_utf8(#[trigger] segs[k])
                    &&& v@.len() == segs.len()
                    &&& forall|k: int|
                        0 <= k < segs.len() ==> (#[trigger] v@[k])@ == decode_utf8(segs[k])
                },
                Result::Err(e) => (exists|k: int|
                    0 <= k < segs.len() && !valid_utf8(#[trigger] segs[k])) && e
                    == Sf2Error::MalformedZstr,
            }
        }),
    decreases b@.len(),
{
    let ghost segs = spec_split_segments(b@, 58);
    let p = find_byte(b, 58);
    proof {
        lemma_find_byte_bounds(b@, 58);
    }
    if p == b.len() {
        if b.len() == 0 {
            return Result::Ok(Vec::new());
        }
        match str_from_utf8(b) {
            Option::Some(s) => {
                proof {
                    encode_utf8_decode_utf8(s@);
                    assert(segs =~= seq![b@]);
                }
                let mut v: Vec<&'b str> = Vec::new();
                v.push(s);
                return Result::Ok(v);
            },
            Option::None => {
                proof {
                    assert(segs =~= seq![b@]);
                    assert(segs[0] == b@);
                }
                return Result::Err(Sf2Error::MalformedZstr);
            },
        }
    }
    let tail = vstd::slice::slice_subrange(b, p + 1, b.len());
    proof {
        assert(tail@ =~= b@.skip(p + 1));
    }
    let mut rest = match split_tool_segments(tail) {
        Result::Ok(v) => v,
        Result::Err(e) => {
            proof {
                let rsegs = spec_split_segments(b@.skip(p as int + 1), 58);
                let k = choose|k: int| 0 <= k < rsegs.len() && !valid_utf8(#[trigger] rsegs[k]);
                if p == 0 {
                    assert(segs[k] == rsegs[k]);
                } else {
                    assert(segs[k + 1] == rsegs[k]);
                }
            }
            return Result::Err(e);
        },
    };
    if p == 0 {
        return Result::Ok(rest);
    }
    let head = vstd::slice::slice_subrange(b, 0, p);
    proof {
        assert(head@ =~= b@.take(p as int));
    }
    match str_from_utf8(head) {
        Option::Some(s) => {
            proof {
                encode_utf8_decode_utf8(s@);
            }
            rest.insert(0, s);
            proof {
                let rsegs = spec_split_segments(b@.skip(p as int + 1), 58);
                assert(segs =~= seq![b@.take(p as int)] + rsegs);
                assert forall|k: int| 0 <= k < segs.len() implies valid_utf8(
                    #[trigger] segs[k],
                ) by {
                    if k > 0 {
                        assert(segs[k] == rsegs[k - 1]);
                    }
                }
                assert forall|k: int| 0 <= k < segs.len() implies (#[trigger] rest@[k])@
                    == decode_utf8(segs[k]) by {
                    if k > 0 {
                        assert(segs[k] == rsegs[k - 1]);
                        assert(rest@[k] == rest@.subrange(1, rest@.len() as int)[k - 1]);
                    }
                }
            }
            Result::Ok(rest)
        },
        Option::None => {
            proof {
                let rsegs = spec_split_segments(b@.skip(p as int + 1), 58);
                assert(segs =~= seq![b@.take(p as int)] + rsegs);
                assert(segs[0] == b@.take(p as int));
            }
            Result::Err(Sf2Error::MalformedZstr)
        },
    }
}

/// The metadata accessors of one `INFO` container.
pub struct Sf2Info<'a> {
    chunk_info: &'a RiffChunk<'a>,
}

impl<'a> View for Sf2Info<'a> {
    type V = ChunkModel;

    closed spec fn view(&self) -> ChunkModel {
        (*self.chunk_info)@
    }
}

impl<'a> Sf2Info<'a> {
    /// Wraps the `INFO` container chunk for the accessors below.
    pub fn new(chunk_info: &'a RiffChunk<'a>) -> (r: Result<Sf2Info<'a>, Sf2Error>)
        ensures
            r matches Result::Ok(info) && info@ == chunk_info@,
    {
        Result::Ok(Sf2Info { chunk_info })
    }

    /// An optional zero-terminated string chunk: `None` when absent.
    fn read_zstr_chunk_opt(&self, chunk_id: [u8; 4]) -> (r: Result<Option<&'a str>, Sf2Error>)
        ensures
            zstr_opt_outcome(self@, chunk_id@, r),
    {
        let chunk = match self.chunk_info.subchunk(chunk_id.as_slice()) {
            Result::Err(e) => {
                return Result::Err(Sf2Error::RiffError(e));
            },
            Result::Ok(Option::None) => {
                return Result::Ok(Option::None);
            },
            Result::Ok(Option::Some(c)) => c,
        };
        let data = match chunk.chunk_data() {
            Result::Err(e) => {
                return Result::Err(Sf2Error::RiffError(e));
            },
            Result::Ok(d) => d,
        };
        match str_from_zstr(data) {
            Result::Ok(s) => Result::Ok(Option::Some(s)),
            Result::Err(e) => Result::Err(e),
        }
    }

    /// An optional version chunk: `None` when absent.
    fn read_ver_chunk_opt(&self, chunk_id: [u8; 4]) -> (r: Result<Option<(u16, u16)>, Sf2Error>)
        ensures
            ver_opt_outcome(self@, chunk_id@, r),
    {
        let chunk = match self.chunk_info.subchunk(chunk_id.as_slice()) {
            Result::Err(e) => {
                return Result::Err(Sf2Error::RiffError(e));
            },
            Result::Ok(Option::None) => {
                return Result::Ok(Option::None);
            },
            Result::Ok(Option::Some(c)) => c,
        };
        let data = match chunk.chunk_data() {
            Result::Err(e) => {
                return Result::Err(Sf2Error::RiffError(e));
            },
            Result::Ok(d) => d,
        };
        if data.len() != 4 {
            return Result::Err(Sf2Error::MalformedVersionChunk);
        }
        let v = Sf2Version::decode(data);
        Result::Ok(Option::Some((v.major, v.minor)))
    }

    /// A required zero-terminated string chunk: absent is a missing chunk.
    fn read_zstr_chunk(&self, chunk_id: [u8; 4]) -> (r: Result<&'a str, Sf2Error>)
        ensures
            zstr_req_outcome(self@, chunk_id@, r),
    {
        match self.read_zstr_chunk_opt(chunk_id) {
            Result::Ok(Option::Some(s)) => Result::Ok(s),
            Result::Ok(Option::None) => Result::Err(Sf2Error::MissingChunk { chunk_id }),
            Result::Err(e) => Result::Err(e),
        }
    }

    /// A required version chunk: absent is a missing chunk.
    fn read_ver_chunk(&self, chunk_id: [u8; 4]) -> (r: Result<(u16, u16), Sf2Error>)
        ensures
            ver_req_outcome(self@, chunk_id@, r),
    {
        match self.read_ver_chunk_opt(chunk_id) {
            Result::Ok(Option::Some(v)) => Result::Ok(v),
            Result::Ok(Option::None) => Result::Err(Sf2Error::MissingChunk { chunk_id }),
            Result::Err(e) => Result::Err(e),
        }
    }

    /// The bank's format version, from the required `ifil` chunk.
    pub fn format_version(&self) -> (r: Result<(u16, u16), Sf2Error>)
        ensures
            ver_req_outcome(self@, fourcc_seq('i', 'f', 'i', 'l'), r),
    {
        self.read_ver_chunk(fourcc_bytes('i', 'f', 'i', 'l'))
    }

    /// The target sound engine, from the required `isng` chunk.
    pub fn sound_engine(&self) -> (r: Result<&'a str, Sf2Error>)
        ensures
            zstr_req_outcome(self@, fourcc_seq('i', 's', 'n', 'g'), r),
    {
        self.read_zstr_chunk(fourcc_bytes('i', 's', 'n', 'g'))
    }

    /// The bank's name, from the required `INAM` chunk.
    pub fn soundfont_name(&self) -> (r: Result<&'a str, Sf2Error>)
        ensures
            zstr_req_outcome(self@, fourcc_seq('I', 'N', 'A', 'M'), r),
    {
        self.read_zstr_chunk(fourcc_bytes('I', 'N', 'A', 'M'))
    }

    /// The wavetable ROM name, from the optional `irom` chunk.
    pub fn rom_name(&self) -> (r: Result<Option<&'a str>, Sf2Error>)
        ensures
            zstr_opt_outcome(self@, fourcc_seq('i', 'r', 'o', 'm'), r),
    {
        self.read_zstr_chunk_opt(fourcc_bytes('i', 'r', 'o', 'm'))
    }

    /// The wavetable ROM version, from the optional `iver` chunk.
    pub fn rom_version(&self) -> (r: Result<Option<(u16, u16)>, Sf2Error>)
        ensures
            ver_opt_outcome(self@, fourcc_seq('i', 'v', 'e', 'r'), r),
    {
        self.read_ver_chunk_opt(fourcc_bytes('i', 'v', 'e', 'r'))
    }

    /// The creation date, from the optional `ICRD` chunk.
    pub fn date(&self) -> (r: Result<Option<&'a str>, Sf2Error>)
        ensures
            zstr_opt_outcome(self@, fourcc_seq('I', 'C', 'R', 'D'), r),
    {
        self.read_zstr_chunk_opt(fourcc_bytes('I', 'C', 'R', 'D'))
    }

    /// The author, from the optional `IENG` chunk.
    pub fn author(&self) -> (r: Result<Option<&'a str>, Sf2Error>)
        ensures
            zstr_opt_outcome(self@, fourcc_seq('I', 'E', 'N', 'G'), r),
    {
        self.read_zstr_chunk_opt(fourcc_bytes('I', 'E', 'N', 'G'))
    }

    /// The target product, from the optional `IPRD` chunk.
    pub fn product(&self) -> (r: Result<Option<&'a str>, Sf2Error>)
        ensures
            zstr_opt_outcome(self@, fourcc_seq('I', 'P', 'R', 'D'), r),
    {
        self.read_zstr_chunk_opt(fourcc_bytes('I', 'P', 'R', 'D'))
    }

    /// The copyright notice, from the optional `ICOP` chunk.
    pub fn copyright(&self) -> (r: Result<Option<&'a str>, Sf2Error>)
        ensures
            zstr_opt_outcome(self@, fourcc_seq('I', 'C', 'O', 'P'), r),
    {
        self.read_zstr_chunk_opt(fourcc_bytes('I', 'C', 'O', 'P'))
    }

    /// The comment, from the optional `ICMT` chunk.
    pub fn comment(&self) -> (r: Result<Option<&'a str>, Sf2Error>)
        ensures
            zstr_opt_outcome(self@, fourcc_seq('I', 'C', 'M', 'T'), r),
    {
        self.read_zstr_chunk_opt(fourcc_bytes('I', 'C', 'M', 'T'))
    }

    /// The tools that built the bank, from the optional `ISFT` chunk: the
    /// string split on `:`, empty segments discarded, order preserved,
    /// duplicates kept.
    pub fn soundfont_tools(&self) -> (r: Result<Option<Vec<&'a str>>, Sf2Error>)
        ensures
            tools_outcome(self@, r),
    {
        let chunk = match self.chunk_info.subchunk(fourcc_bytes('I', 'S', 'F', 'T').as_slice()) {
            Result::Err(e) => {
                return Result::Err(Sf2Error::RiffError(e));
            },
            Result::Ok(Option::None) => {
                return Result::Ok(Option::None);
            },
            Result::Ok(Option::Some(c)) => c,
        };
        let data = match chunk.chunk_data() {
            Result::Err(e) => {
                return Result::Err(Sf2Error::RiffError(e));
            },
            Result::Ok(d) => d,
        };
        let p = find_byte(data, 0);
        proof {
            lemma_find_byte_bounds(data@, 0);
        }
        if p == data.len() {
            return Result::Err(Sf2Error::MalformedZstr);
        }
        let prefix = vstd::slice::slice_subrange(data, 0, p);
        proof {
            assert(prefix@ =~= data@.take(p as int));
        }
        match split_tool_segments(prefix) {
            Result::Ok(v) => Result::Ok(Option::Some(v)),
            Result::Err(e) => Result::Err(e),
        }
    }
}

} // verus!
