//! The validated chunk tree: recursive descent over the raw chunk sequence,
//! validating every 4-byte identifier as a FourCC, and the navigation API
//! over the resulting tree. No partial tree is ever returned: the first error
//! found at any depth fails the whole construction.

use vstd::prelude::*;

use crate::fourcc::{fourcc_valid, is_fourcc};
use crate::byteseq::bytes_eq;
use crate::raw_chunk::{
    raw_data_len, spec_read_chunk, RawChunk, RawChunkIterator, RawChunkModel, RawRead,
};
use crate::riff_error::RiffError;

verus! {

/// The mathematical value of a validated chunk: a container holds its
/// children in file order, a normal chunk holds its payload bytes.
pub enum ChunkModel {
    Container { chunk_type: Seq<u8>, chunk_id: Seq<u8>, children: Seq<ChunkModel> },
    Normal { chunk_id: Seq<u8>, chunk_data: Seq<u8> },
}

impl ChunkModel {
    pub open spec fn chunk_id(self) -> Seq<u8> {
        match self {
            ChunkModel::Container { chunk_id, .. } => chunk_id,
            ChunkModel::Normal { chunk_id, .. } => chunk_id,
        }
    }

    pub open spec fn is_container(self) -> bool {
        self is Container
    }

    /// The immediate children of a container; a normal chunk has none.
    pub open spec fn children(self) -> Seq<ChunkModel> {
        match self {
            ChunkModel::Container { children, .. } => children,
            ChunkModel::Normal { .. } => Seq::empty(),
        }
    }

    /// The payload of a normal chunk; a container exposes none.
    pub open spec fn data(self) -> Seq<u8> {
        match self {
            ChunkModel::Container { .. } => Seq::empty(),
            ChunkModel::Normal { chunk_data, .. } => chunk_data,
        }
    }
}

/// The first chunk among `children` whose id equals `id`, in file order.
pub open spec fn find_subchunk(children: Seq<ChunkModel>, id: Seq<u8>) -> Option<ChunkModel>
    decreases children.len(),
{
    if children.len() == 0 {
        Option::None
    } else if children[0].chunk_id() == id {
        Option::Some(children[0])
    } else {
        find_subchunk(children.subrange(1, children.len() as int), id)
    }
}

/// Validating one raw chunk into a tree node: children are built first (so
/// the first error at any depth wins), then the type tag and the id are
/// checked as FourCCs.
pub open spec fn spec_build_node(raw: RawChunkModel) -> Result<ChunkModel, RiffError>
    decreases raw_data_len(raw), raw_data_len(raw), 1int,
{
    match raw {
        RawChunkModel::Normal { chunk_id, chunk_data } => {
            if !is_fourcc(chunk_id) {
                Result::Err(RiffError::MalformedIdentifier)
            } else {
                Result::Ok(ChunkModel::Normal { chunk_id, chunk_data })
            }
        },
        RawChunkModel::Container { chunk_type, chunk_id, chunk_data } => {
            match spec_chunk_list(chunk_data, 0) {
                Result::Err(e) => Result::Err(e),
                Result::Ok(children) => {
                    if !is_fourcc(chunk_type) {
                        Result::Err(RiffError::MalformedIdentifier)
                    } else if !is_fourcc(chunk_id) {
                        Result::Err(RiffError::MalformedIdentifier)
                    } else {
                        Result::Ok(ChunkModel::Container { chunk_type, chunk_id, children })
                    }
                },
            }
        },
    }
}

/// The validated chunk list encoded in `buf` from offset `i` on: every
/// sibling in file order, each node validated recursively.
pub open spec fn spec_chunk_list(buf: Seq<u8>, i: int) -> Result<Seq<ChunkModel>, RiffError>
    decreases buf.len(), buf.len() - i, 0int,
    when 0 <= i <= buf.len()
{
    match spec_read_chunk(buf, i) {
        RawRead::End => Result::Ok(Seq::empty()),
        RawRead::Truncated => Result::Err(RiffError::TruncatedChunkData),
        RawRead::Chunk(m, next) => match spec_build_node(m) {
            Result::Err(e) => Result::Err(e),
            Result::Ok(node) => match spec_chunk_list(buf, next) {
                Result::Err(e) => Result::Err(e),
                Result::Ok(rest) => Result::Ok(seq![node] + rest),
            },
        },
    }
}

/// The validated root chunk of a buffer: exactly the first top-level chunk;
/// an empty sequence is a missing chunk.
pub open spec fn spec_root_chunk(buf: Seq<u8>) -> Result<ChunkModel, RiffError> {
    match spec_read_chunk(buf, 0) {
        RawRead::End => Result::Err(RiffError::MissingChunk),
        RawRead::Truncated => Result::Err(RiffError::TruncatedChunkData),
        RawRead::Chunk(m, _next) => spec_build_node(m),
    }
}

/// A validated chunk tree node. Containers own their children; normal chunks
/// borrow their payload from the backing buffer.
#[derive(Debug)]
pub enum RiffChunk<'a> {
    Container { chunk_type: &'a [u8], chunk_id: &'a [u8], subchunks: Vec<RiffChunk<'a>> },
    Normal { chunk_id: &'a [u8], chunk_data: &'a [u8] },
}

pub open spec fn chunk_view(c: RiffChunk) -> ChunkModel
    decreases c,
{
    match c {
        RiffChunk::Container { chunk_type, chunk_id, subchunks } => ChunkModel::Container {
            chunk_type: chunk_type@,
            chunk_id: chunk_id@,
            children: chunks_view(subchunks@),
        },
        RiffChunk::Normal { chunk_id, chunk_data } => ChunkModel::Normal {
            chunk_id: chunk_id@,
            chunk_data: chunk_data@,
        },
    }
}

pub open spec fn chunks_view(s: Seq<RiffChunk>) -> Seq<ChunkModel>
    decreases s,
{
    if s.len() == 0 {
        Seq::empty()
    } else {
        seq![chunk_view(s[0])] + chunks_view(s.subrange(1, s.len() as int))
    }
}

impl<'a> View for RiffChunk<'a> {
    type V = ChunkModel;

    open spec fn view(&self) -> ChunkModel {
        chunk_view(*self)
    }
}

pub proof fn lemma_chunks_view_len_index(s: Seq<RiffChunk>)
    ensures
        chunks_view(s).len() == s.len(),
        forall|j: int| 0 <= j < s.len() ==> chunks_view(s)[j] == chunk_view(#[trigger] s[j]),
    decreases s.len(),
{
    if s.len() != 0 {
        let tail = s.subrange(1, s.len() as int);
        lemma_chunks_view_len_index(tail);
        assert forall|j: int| 0 <= j < s.len() implies chunks_view(s)[j] == chunk_view(
            #[trigger] s[j],
        ) by {
            if j > 0 {
                assert(tail[j - 1] == s[j]);
            }
        }
    }
}

pub proof fn lemma_chunks_view_push(s: Seq<RiffChunk>, x: RiffChunk)
    ensures
        chunks_view(s.push(x)) =~= chunks_view(s).push(chunk_view(x)),
{
    lemma_chunks_view_len_index(s.push(x));
    lemma_chunks_view_len_index(s);
    assert forall|j: int| 0 <= j < s.len() + 1 implies chunks_view(s.push(x))[j] == chunks_view(
        s,
    ).push(chunk_view(x))[j] by {
        if j < s.len() {
            assert(s.push(x)[j] == s[j]);
        } else {
            assert(s.push(x)[j] == x);
        }
    }
}

/// Prepending already-built sibling views to the outcome of the remaining
/// list.
pub open spec fn spec_list_concat(
    pre: Seq<ChunkModel>,
    rest: Result<Seq<ChunkModel>, RiffError>,
) -> Result<Seq<ChunkModel>, RiffError> {
    match rest {
        Result::Ok(s) => Result::Ok(pre + s),
        Result::Err(e) => Result::Err(e),
    }
}

/// Builds the validated sibling list of a whole buffer.
fn build_subchunks<'a>(buffer: &'a [u8]) -> (r: Result<Vec<RiffChunk<'a>>, RiffError>)
    ensures
        match (r, spec_chunk_list(buffer@, 0)) {
            (Result::Ok(v), Result::Ok(s)) => chunks_view(v@) == s,
            (Result::Err(e1), Result::Err(e2)) => e1 == e2,
            _ => false,
        },
    decreases buffer@.len(), 0int,
{
    let mut it = RawChunkIterator::new(buffer);
    let mut out: Vec<RiffChunk<'a>> = Vec::new();
    proof {
        assert(chunks_view(out@) =~= Seq::<ChunkModel>::empty());
        assert(spec_list_concat(chunks_view(out@), spec_chunk_list(buffer@, 0)) == spec_chunk_list(
            buffer@,
            0,
        )) by {
            match spec_chunk_list(buffer@, 0) {
                Result::Ok(s) => {
                    assert(chunks_view(out@) + s =~= s);
                },
                Result::Err(_) => {},
            }
        }
    }
    loop
        invariant
            it.buffer == buffer,
            it.i <= buffer@.len(),
            spec_chunk_list(buffer@, 0) == spec_list_concat(
                chunks_view(out@),
                spec_chunk_list(buffer@, it.i as int),
            ),
        decreases buffer@.len() - it.i,
    {
        let ghost i0 = it.i as int;
        let step = it.next();
        proof {
            crate::raw_chunk::lemma_read_chunk_progress(buffer@, i0);
        }
        match step {
            Option::None => {
                proof {
                    assert(spec_chunk_list(buffer@, i0) == Result::<
                        Seq<ChunkModel>,
                        RiffError,
                    >::Ok(Seq::empty()));
                    assert(chunks_view(out@) + Seq::<ChunkModel>::empty() =~= chunks_view(out@));
                }
                return Result::Ok(out);
            },
            Option::Some(Result::Err(e)) => {
                return Result::Err(e);
            },
            Option::Some(Result::Ok(raw)) => {
                let node = match node_from_raw(raw) {
                    Result::Ok(c) => c,
                    Result::Err(e) => {
                        return Result::Err(e);
                    },
                };
                proof {
                    lemma_chunks_view_push(out@, node);
                }
                let ghost pre = chunks_view(out@);
                out.push(node);
                proof {
                    let m = spec_read_chunk(buffer@, i0)->Chunk_0;
                    let nodev = spec_build_node(m)->Ok_0;
                    match spec_chunk_list(buffer@, it.i as int) {
                        Result::Ok(rest) => {
                            assert((pre.push(nodev)) + rest =~= pre + (seq![nodev] + rest));
                        },
                        Result::Err(_) => {},
                    }
                }
            },
        }
    }
}

/// Validates one raw chunk into a tree node, building container children
/// recursively.
fn node_from_raw<'a>(raw: RawChunk<'a>) -> (r: Result<RiffChunk<'a>, RiffError>)
    ensures
        match (r, spec_build_node(raw@)) {
            (Result::Ok(c), Result::Ok(m)) => c@ == m,
            (Result::Err(e1), Result::Err(e2)) => e1 == e2,
            _ => false,
        },
    decreases raw_data_len(raw@), 1int,
{
    match raw {
        RawChunk::Normal { chunk_id, chunk_data } => {
            if !fourcc_valid(chunk_id) {
                Result::Err(RiffError::MalformedIdentifier)
            } else {
                Result::Ok(RiffChunk::Normal { chunk_id, chunk_data })
            }
        },
        RawChunk::Container { chunk_type, chunk_id, chunk_data } => {
            let subchunks = match build_subchunks(chunk_data) {
                Result::Ok(v) => v,
                Result::Err(e) => {
                    return Result::Err(e);
                },
            };
            if !fourcc_valid(chunk_type) {
                return Result::Err(RiffError::MalformedIdentifier);
            }
            if !fourcc_valid(chunk_id) {
                return Result::Err(RiffError::MalformedIdentifier);
            }
            Result::Ok(RiffChunk::Container { chunk_type, chunk_id, subchunks })
        },
    }
}

impl<'a> RiffChunk<'a> {
    /// Decodes and validates the first top-level chunk of `buffer` as the
    /// root of the tree.
    pub fn new(buffer: &'a [u8]) -> (r: Result<RiffChunk<'a>, RiffError>)
        ensures
            match (r, spec_root_chunk(buffer@)) {
                (Result::Ok(c), Result::Ok(m)) => c@ == m,
                (Result::Err(e1), Result::Err(e2)) => e1 == e2,
                _ => false,
            },
    {
        let mut it = RawChunkIterator::new(buffer);
        match it.next() {
            Option::None => Result::Err(RiffError::MissingChunk),
            Option::Some(Result::Err(e)) => Result::Err(e),
            Option::Some(Result::Ok(raw)) => node_from_raw(raw),
        }
    }

    /// The chunk's own 4-byte identifier, always available.
    pub fn chunk_id(&self) -> (r: &'a [u8])
        ensures
            r@ == self@.chunk_id(),
    {
        match self {
            RiffChunk::Container { chunk_id, .. } => chunk_id,
            RiffChunk::Normal { chunk_id, .. } => chunk_id,
        }
    }

    /// The borrowed payload of a normal chunk; containers expose no byte
    /// data.
    pub fn chunk_data(&self) -> (r: Result<&'a [u8], RiffError>)
        ensures
            match r {
                Result::Ok(d) => !self@.is_container() && d@ == self@.data(),
                Result::Err(e) => self@.is_container() && e == RiffError::ContainerChunkNoData,
            },
    {
        match self {
            RiffChunk::Container { .. } => Result::Err(RiffError::ContainerChunkNoData),
            RiffChunk::Normal { chunk_data, .. } => Result::Ok(chunk_data),
        }
    }

    /// The first immediate child with the given id, or `None`; normal chunks
    /// have no children to search.
    pub fn subchunk(&self, chunk_id: &[u8]) -> (r: Result<Option<&RiffChunk<'a>>, RiffError>)
        ensures
            match r {
                Result::Ok(found) => self@.is_container() && match found {
                    Option::Some(c) => find_subchunk(self@.children(), chunk_id@)
                        == Option::Some(c@),
                    Option::None => find_subchunk(self@.children(), chunk_id@) is None,
                },
                Result::Err(e) => !self@.is_container() && e == RiffError::NormalChunkNoSubchunks,
            },
    {
        match self {
            RiffChunk::Normal { .. } => Result::Err(RiffError::NormalChunkNoSubchunks),
            RiffChunk::Container { subchunks, .. } => {
                proof {
                    lemma_chunks_view_len_index(subchunks@);
                }
                let ghost children = self@.children();
                proof {
                    assert(children.subrange(0, children.len() as int) =~= children);
                }
                let mut j: usize = 0;
                while j < subchunks.len()
                    invariant
                        j <= subchunks@.len(),
                        children == chunks_view(subchunks@),
                        children.len() == subchunks@.len(),
                        forall|k: int| 0 <= k < subchunks@.len() ==> children[k] == chunk_view(
                            #[trigger] subchunks@[k],
                        ),
                        self@.is_container(),
                        self@.children() == children,
                        forall|k: int| 0 <= k < j ==> (#[trigger] children[k]).chunk_id()
                            != chunk_id@,
                        find_subchunk(children, chunk_id@) == find_subchunk(
                            children.subrange(j as int, children.len() as int),
                            chunk_id@,
                        ),
                    decreases subchunks@.len() - j,
                {
                    let c = &subchunks[j];
                    let ghost tail = children.subrange(j as int, children.len() as int);
                    if bytes_eq(c.chunk_id(), chunk_id) {
                        proof {
                            assert(tail[0] == children[j as int]);
                        }
                        return Result::Ok(Option::Some(c));
                    }
                    proof {
                        assert(tail[0] == children[j as int]);
                        assert(tail.subrange(1, tail.len() as int) =~= children.subrange(
                            j + 1,
                            children.len() as int,
                        ));
                    }
                    j = j + 1;
                }
                proof {
                    assert(children.subrange(j as int, children.len() as int) =~= Seq::<
                        ChunkModel,
                    >::empty());
                }
                Result::Ok(Option::None)
            },
        }
    }

    /// The full immediate child list of a container, in file order.
    pub fn subchunks(&self) -> (r: Result<&Vec<RiffChunk<'a>>, RiffError>)
        ensures
            match r {
                Result::Ok(v) => self@.is_container() && chunks_view(v@) == self@.children(),
                Result::Err(e) => !self@.is_container() && e == RiffError::NormalChunkNoSubchunks,
            },
    {
        match self {
            RiffChunk::Container { subchunks, .. } => Result::Ok(subchunks),
            RiffChunk::Normal { .. } => Result::Err(RiffError::NormalChunkNoSubchunks),
        }
    }

    /// Whether this node is a container.
    pub fn is_container(&self) -> (r: bool)
        ensures
            r == self@.is_container(),
    {
        match self {
            RiffChunk::Container { .. } => true,
            RiffChunk::Normal { .. } => false,
        }
    }
}

} // verus!
