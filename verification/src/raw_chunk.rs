//! The raw chunk reader: decodes one chunk header and payload at a byte
//! offset, without validating identifiers. A chunk is 4 id bytes, a 4-byte
//! little-endian payload length, and the payload; ids `RIFF` and `LIST` mark
//! containers, whose payload starts with a 4-byte type tag. After a chunk the
//! offset is rounded up to the next even value (the RIFF pad byte).

use vstd::prelude::*;

use crate::riff_error::RiffError;

verus! {

/// An unvalidated chunk read from the buffer. Payload slices borrow from the
/// backing buffer; nothing is copied.
#[derive(Debug)]
pub enum RawChunk<'a> {
    Container { chunk_type: &'a [u8], chunk_id: &'a [u8], chunk_data: &'a [u8] },
    Normal { chunk_id: &'a [u8], chunk_data: &'a [u8] },
}

/// The mathematical value of a raw chunk: its id bytes and payload bytes.
pub enum RawChunkModel {
    Container { chunk_type: Seq<u8>, chunk_id: Seq<u8>, chunk_data: Seq<u8> },
    Normal { chunk_id: Seq<u8>, chunk_data: Seq<u8> },
}

impl<'a> View for RawChunk<'a> {
    type V = RawChunkModel;

    open spec fn view(&self) -> RawChunkModel {
        match self {
            RawChunk::Container { chunk_type, chunk_id, chunk_data } => RawChunkModel::Container {
                chunk_type: chunk_type@,
                chunk_id: chunk_id@,
                chunk_data: chunk_data@,
            },
            RawChunk::Normal { chunk_id, chunk_data } => RawChunkModel::Normal {
                chunk_id: chunk_id@,
                chunk_data: chunk_data@,
            },
        }
    }
}

/// The payload length of a raw chunk.
pub open spec fn raw_data_len(m: RawChunkModel) -> int {
    match m {
        RawChunkModel::Container { chunk_data, .. } => chunk_data.len() as int,
        RawChunkModel::Normal { chunk_data, .. } => chunk_data.len() as int,
    }
}

/// The outcome of reading one chunk at an offset: nothing left, a truncated
/// declaration, or a chunk together with the offset of the next one.
pub enum RawRead {
    End,
    Truncated,
    Chunk(RawChunkModel, int),
}

/// Whether the 4 id bytes are `RIFF` or `LIST`, the two container markers.
pub open spec fn is_container_id(id: Seq<u8>) -> bool {
    &&& id.len() == 4
    &&& ((id[0] == 82 && id[1] == 73 && id[2] == 70 && id[3] == 70) || (id[0] == 76 && id[1]
        == 73 && id[2] == 83 && id[3] == 84))
}

/// Reading one chunk of `buf` at offset `i`. Fewer than 8 remaining bytes is
/// the end of the sequence. A declared length past the buffer end is a
/// truncation, as is a container whose declared length cannot hold the 4-byte
/// type tag. The offset of the next chunk is rounded up to even (skipping the
/// pad byte) when the buffer still reaches that far.
pub open spec fn spec_read_chunk(buf: Seq<u8>, i: int) -> RawRead {
    if i + 8 > buf.len() {
        RawRead::End
    } else {
        let id = buf.subrange(i, i + 4);
        let size = vstd::bytes::spec_u32_from_le_bytes(buf.subrange(i + 4, i + 8)) as int;
        let cont = is_container_id(id);
        if i + 8 + size > buf.len() || (cont && size < 4) {
            RawRead::Truncated
        } else {
            let stop = i + 8 + size;
            let next = if stop % 2 == 1 && stop < buf.len() {
                stop + 1
            } else {
                stop
            };
            if cont {
                RawRead::Chunk(
                    RawChunkModel::Container {
                        chunk_type: id,
                        chunk_id: buf.subrange(i + 8, i + 12),
                        chunk_data: buf.subrange(i + 12, stop),
                    },
                    next,
                )
            } else {
                RawRead::Chunk(
                    RawChunkModel::Normal { chunk_id: id, chunk_data: buf.subrange(i + 8, stop) },
                    next,
                )
            }
        }
    }
}

/// Reading a chunk either consumes at least its 8 header bytes and stays
/// inside the buffer, and the payload is strictly shorter than the buffer.
pub proof fn lemma_read_chunk_progress(buf: Seq<u8>, i: int)
    requires
        0 <= i,
    ensures
        match spec_read_chunk(buf, i) {
            RawRead::Chunk(m, next) => i + 8 <= next <= buf.len() && raw_data_len(m)
                < buf.len(),
            _ => true,
        },
{
}

/// Reading a chunk whose payload ends at an odd offset advances past one
/// extra byte, whether or not the writer emitted the pad: a writer that
/// leaves out the pad byte after an odd payload makes the reader misread
/// whatever follows. The reader does not repair such buffers.
pub proof fn lemma_pad_byte_always_skipped(buf: Seq<u8>, i: int)
    requires
        0 <= i,
        spec_read_chunk(buf, i) is Chunk,
    ensures
        ({
            let stop = i + 8 + vstd::bytes::spec_u32_from_le_bytes(
                buf.subrange(i + 4, i + 8),
            ) as int;
            let next = spec_read_chunk(buf, i)->1;
            &&& stop % 2 == 1 && stop < buf.len() ==> next == stop + 1
            &&& stop % 2 == 0 || stop == buf.len() ==> next == stop
        }),
{
}

/// A declared chunk length that reaches past the remaining bytes is read as
/// a truncation, never as a chunk.
pub proof fn lemma_truncated_read(buf: Seq<u8>, i: int)
    requires
        0 <= i,
        i + 8 <= buf.len(),
        i + 8 + vstd::bytes::spec_u32_from_le_bytes(buf.subrange(i + 4, i + 8)) as int
            > buf.len(),
    ensures
        spec_read_chunk(buf, i) == RawRead::Truncated,
{
}

/// The whole raw chunk sequence of `buf` from offset `i` on; `None` when a
/// truncated declaration stops the read.
pub open spec fn spec_raw_seq(buf: Seq<u8>, i: int) -> Option<Seq<RawChunkModel>>
    decreases buf.len() - i,
    when 0 <= i <= buf.len()
{
    match spec_read_chunk(buf, i) {
        RawRead::End => Option::Some(Seq::empty()),
        RawRead::Truncated => Option::None,
        RawRead::Chunk(m, next) => match spec_raw_seq(buf, next) {
            Option::None => Option::None,
            Option::Some(s) => Option::Some(seq![m] + s),
        },
    }
}

/// A normal chunk encoded as the reader expects it: id, 4-byte little-endian
/// payload length, payload, and a pad byte after an odd payload.
pub open spec fn spec_encode_normal_chunk(id: Seq<u8>, data: Seq<u8>) -> Seq<u8> {
    id + vstd::bytes::spec_u32_to_le_bytes(data.len() as u32) + data + (
    if data.len() % 2 == 1 {
        seq![0u8]
    } else {
        Seq::empty()
    })
}

/// A well-formed normal sibling chunk: a 4-byte non-container id and a
/// payload whose length fits the 32-bit length field.
pub open spec fn wf_normal_chunk(id: Seq<u8>, data: Seq<u8>) -> bool {
    &&& id.len() == 4
    &&& !is_container_id(id)
    &&& data.len() <= u32::MAX
}

/// The concatenation of the encodings of the given `(id, payload)` pairs.
pub open spec fn spec_encode_chunk_seq(chunks: Seq<(Seq<u8>, Seq<u8>)>) -> Seq<u8>
    decreases chunks.len(),
{
    if chunks.len() == 0 {
        Seq::empty()
    } else {
        spec_encode_normal_chunk(chunks[0].0, chunks[0].1) + spec_encode_chunk_seq(
            chunks.drop_first(),
        )
    }
}

proof fn lemma_raw_seq_of_encoding_suffix(buf: Seq<u8>, i: int, chunks: Seq<(Seq<u8>, Seq<u8>)>)
    requires
        0 <= i <= buf.len(),
        i % 2 == 0,
        buf.subrange(i, buf.len() as int) == spec_encode_chunk_seq(chunks),
        forall|k: int|
            0 <= k < chunks.len() ==> wf_normal_chunk(
                (#[trigger] chunks[k]).0,
                chunks[k].1,
            ),
    ensures
        ({
            let r = spec_raw_seq(buf, i);
            &&& r is Some
            &&& r->0.len() == chunks.len()
            &&& forall|k: int|
                0 <= k < chunks.len() ==> r->0[k] == (RawChunkModel::Normal {
                    chunk_id: (#[trigger] chunks[k]).0,
                    chunk_data: chunks[k].1,
                })
        }),
    decreases chunks.len(),
{
    vstd::bytes::lemma_auto_spec_u32_to_from_le_bytes();
    let suffix = buf.subrange(i, buf.len() as int);
    if chunks.len() == 0 {
        assert(suffix.len() == 0);
        assert(spec_read_chunk(buf, i) == RawRead::End);
    } else {
        let id = chunks[0].0;
        let data = chunks[0].1;
        let size = data.len() as int;
        let lenb = vstd::bytes::spec_u32_to_le_bytes(data.len() as u32);
        let enc0 = spec_encode_normal_chunk(id, data);
        let rest = chunks.drop_first();
        let enc_rest = spec_encode_chunk_seq(rest);
        assert(suffix == enc0 + enc_rest);
        assert(enc0.len() == 8 + size + if size % 2 == 1 {
            1int
        } else {
            0int
        });
        assert(buf.len() - i == enc0.len() + enc_rest.len());
        assert(buf.subrange(i, i + 4) =~= id) by {
            assert forall|j: int| 0 <= j < 4 implies buf.subrange(i, i + 4)[j] == id[j] by {
                assert(buf[i + j] == suffix[j]);
            }
        }
        assert(buf.subrange(i + 4, i + 8) =~= lenb) by {
            assert forall|j: int| 0 <= j < 4 implies buf.subrange(i + 4, i + 8)[j] == lenb[j] by {
                assert(buf[i + 4 + j] == suffix[4 + j]);
            }
        }
        assert(vstd::bytes::spec_u32_from_le_bytes(buf.subrange(i + 4, i + 8)) == data.len());
        assert(!is_container_id(buf.subrange(i, i + 4)));
        let stop = i + 8 + size;
        assert(buf.subrange(i + 8, stop) =~= data) by {
            assert forall|j: int| 0 <= j < size implies buf.subrange(i + 8, stop)[j] == data[j] by {
                assert(buf[i + 8 + j] == suffix[8 + j]);
            }
        }
        let next = if stop % 2 == 1 && stop < buf.len() {
            stop + 1
        } else {
            stop
        };
        if size % 2 == 1 {
            assert(stop % 2 == 1);
            assert(stop < buf.len());
            assert(next == i + enc0.len());
        } else {
            assert(stop % 2 == 0);
            assert(next == i + enc0.len());
        }
        assert(spec_read_chunk(buf, i) == RawRead::Chunk(
            RawChunkModel::Normal { chunk_id: id, chunk_data: data },
            next,
        ));
        assert(buf.subrange(next, buf.len() as int) =~= enc_rest) by {
            assert forall|j: int| 0 <= j < enc_rest.len() implies buf.subrange(
                next,
                buf.len() as int,
            )[j] == enc_rest[j] by {
                assert(buf[next + j] == suffix[enc0.len() + j]);
                assert(suffix[enc0.len() + j] == enc_rest[j]);
            }
        }
        assert forall|k: int| 0 <= k < rest.len() implies wf_normal_chunk(
            (#[trigger] rest[k]).0,
            rest[k].1,
        ) by {
            assert(rest[k] == chunks[k + 1]);
        }
        lemma_raw_seq_of_encoding_suffix(buf, next, rest);
        let tail = spec_raw_seq(buf, next)->0;
        assert(spec_raw_seq(buf, i) == Option::Some(
            seq![
                RawChunkModel::Normal {
                    chunk_id: id,
                    chunk_data: data,
                },
            ] + tail,
        ));
        assert forall|k: int| 0 <= k < chunks.len() implies spec_raw_seq(buf, i)->0[k] == (
        RawChunkModel::Normal {
            chunk_id: (#[trigger] chunks[k]).0,
            chunk_data: chunks[k].1,
        }) by {
            if k > 0 {
                assert(rest[k - 1] == chunks[k]);
            }
        }
    }
}

/// For a buffer built by concatenating well-formed normal sibling chunks
/// with correct padding, the raw chunk reader yields exactly those chunks,
/// in order, with ids and payloads matching the encoding.
pub proof fn lemma_raw_reader_reads_encoding(chunks: Seq<(Seq<u8>, Seq<u8>)>)
    requires
        forall|k: int|
            0 <= k < chunks.len() ==> wf_normal_chunk(
                (#[trigger] chunks[k]).0,
                chunks[k].1,
            ),
    ensures
        ({
            let r = spec_raw_seq(spec_encode_chunk_seq(chunks), 0);
            &&& r is Some
            &&& r->0.len() == chunks.len()
            &&& forall|k: int|
                0 <= k < chunks.len() ==> r->0[k] == (RawChunkModel::Normal {
                    chunk_id: (#[trigger] chunks[k]).0,
                    chunk_data: chunks[k].1,
                })
        }),
{
    let buf = spec_encode_chunk_seq(chunks);
    assert(buf.subrange(0, buf.len() as int) =~= buf);
    lemma_raw_seq_of_encoding_suffix(buf, 0, chunks);
}

/// A forward-only reader of the raw chunk sequence of one buffer.
pub struct RawChunkIterator<'a> {
    pub buffer: &'a [u8],
    pub i: usize,
}

impl<'a> RawChunkIterator<'a> {
    pub fn new(buffer: &'a [u8]) -> (r: Self)
        ensures
            r.buffer == buffer,
            r.i == 0,
    {
        Self { buffer, i: 0 }
    }

    /// Reads the chunk at the current offset and advances past it; `None` at
    /// the end of the sequence. After a truncation error the reader stops:
    /// every later call returns `None`.
    pub fn next(&mut self) -> (r: Option<Result<RawChunk<'a>, RiffError>>)
        ensures
            final(self).buffer == old(self).buffer,
            match spec_read_chunk(old(self).buffer@, old(self).i as int) {
                RawRead::End => r is None && final(self).i == old(self).i,
                RawRead::Truncated => (r matches Some(Err(e)) && e
                    == RiffError::TruncatedChunkData) && final(self).i == old(self).buffer@.len(),
                RawRead::Chunk(m, next) => (r matches Some(Ok(c)) && c@ == m) && final(self).i
                    as int == next,
            },
    {
        let len = self.buffer.len();
        if self.i >= len || len - self.i < 8 {
            return None;
        }
        let id = vstd::slice::slice_subrange(self.buffer, self.i, self.i + 4);
        let size_bytes = vstd::slice::slice_subrange(self.buffer, self.i + 4, self.i + 8);
        let size = vstd::bytes::u32_from_le_bytes(size_bytes) as usize;
        let b0 = *vstd::slice::slice_index_get(id, 0);
        let b1 = *vstd::slice::slice_index_get(id, 1);
        let b2 = *vstd::slice::slice_index_get(id, 2);
        let b3 = *vstd::slice::slice_index_get(id, 3);
        let cont = (b0 == 82 && b1 == 73 && b2 == 70 && b3 == 70) || (b0 == 76 && b1 == 73 && b2
            == 83 && b3 == 84);
        assert(cont == is_container_id(id@));
        if size > len - (self.i + 8) || (cont && size < 4) {
            self.i = len;
            return Some(Err(RiffError::TruncatedChunkData));
        }
        let data_start = self.i + 8;
        let stop = data_start + size;
        let chunk = if cont {
            let chunk_id = vstd::slice::slice_subrange(self.buffer, data_start, data_start + 4);
            let chunk_data = vstd::slice::slice_subrange(self.buffer, data_start + 4, stop);
            RawChunk::Container { chunk_type: id, chunk_id, chunk_data }
        } else {
            let chunk_data = vstd::slice::slice_subrange(self.buffer, data_start, stop);
            RawChunk::Normal { chunk_id: id, chunk_data }
        };
        self.i = if stop % 2 == 1 && stop < len {
            stop + 1
        } else {
            stop
        };
        Some(Ok(chunk))
    }
}

} // verus!
