use vstd::prelude::*;
use crate::error::ChunkKind;

verus! {

/// The table of contents of a chunk file, as the `git-chunk` crate decodes it.
#[verifier::external_type_specification]
#[verifier::external_body]
pub struct ExIndex(git_chunk::file::Index);

/// The reason for which `git-chunk` could not decode a table of contents.
#[verifier::external_type_specification]
#[verifier::external_body]
pub struct ExDecodeError(git_chunk::file::decode::Error);

/// The bytes of a chunk: from `start` up to, not including, `end`, counted
/// from the beginning of the file.
#[derive(Clone, Copy, Debug, PartialEq, Eq, Structural)]
pub struct ByteRange {
    pub start: u64,
    pub end: u64,
}

/// Where each chunk that this reader knows lies in the file, if it is there.
#[derive(Clone, Copy, Debug, PartialEq, Eq, Structural)]
pub struct ChunkTable {
    pub oid_fanout: Option<ByteRange>,
    pub oid_lookup: Option<ByteRange>,
    pub commit_data: Option<ByteRange>,
    pub extended_edges: Option<ByteRange>,
    pub base_graphs: Option<ByteRange>,
}

/// The four bytes that name a chunk in the table of contents.
pub open spec fn spec_chunk_id(kind: ChunkKind) -> Seq<u8> {
    match kind {
        ChunkKind::OidFanout => seq![0x4Fu8, 0x49u8, 0x44u8, 0x46u8],
        ChunkKind::OidLookup => seq![0x4Fu8, 0x49u8, 0x44u8, 0x4Cu8],
        ChunkKind::CommitData => seq![0x43u8, 0x44u8, 0x41u8, 0x54u8],
        ChunkKind::ExtendedEdges => seq![0x45u8, 0x44u8, 0x47u8, 0x45u8],
        ChunkKind::BaseGraphs => seq![0x42u8, 0x41u8, 0x53u8, 0x45u8],
    }
}

/// The identifier of a chunk: `OIDF`, `OIDL`, `CDAT`, `EDGE` or `BASE` in ASCII.
pub fn chunk_id(kind: ChunkKind) -> (id: [u8; 4])
    ensures
        id@ == spec_chunk_id(kind),
{
    let id: [u8; 4] = match kind {
        ChunkKind::OidFanout => [0x4Fu8, 0x49u8, 0x44u8, 0x46u8],
        ChunkKind::OidLookup => [0x4Fu8, 0x49u8, 0x44u8, 0x4Cu8],
        ChunkKind::CommitData => [0x43u8, 0x44u8, 0x41u8, 0x54u8],
        ChunkKind::ExtendedEdges => [0x45u8, 0x44u8, 0x47u8, 0x45u8],
        ChunkKind::BaseGraphs => [0x42u8, 0x41u8, 0x53u8, 0x45u8],
    };
    proof {
        assert(id@ =~= spec_chunk_id(kind));
    }
    id
}

/// The chunks that a table of contents lists: for each identifier that it
/// holds, the start and the end of the chunk.
pub uninterp spec fn index_ranges(index: git_chunk::file::Index) -> Map<Seq<u8>, (u64, u64)>;

/// What decoding the table of contents of `num_chunks` entries that starts
/// at `toc_offset` of `data` gives: the chunks it lists, or `None` where the
/// table is refused.
pub uninterp spec fn decoded_toc(data: Seq<u8>, toc_offset: int, num_chunks: int) -> Option<
    Map<Seq<u8>, (u64, u64)>,
>;

/// The range that `ranges` holds for `id`, if any.
pub open spec fn spec_lookup(ranges: Map<Seq<u8>, (u64, u64)>, id: Seq<u8>) -> Option<ByteRange> {
    if ranges.contains_key(id) {
        Some(ByteRange { start: ranges[id].0, end: ranges[id].1 })
    } else {
        None
    }
}

/// The places of the five chunks according to `ranges`.
pub open spec fn spec_chunk_table(ranges: Map<Seq<u8>, (u64, u64)>) -> ChunkTable {
    ChunkTable {
        oid_fanout: spec_lookup(ranges, spec_chunk_id(ChunkKind::OidFanout)),
        oid_lookup: spec_lookup(ranges, spec_chunk_id(ChunkKind::OidLookup)),
        commit_data: spec_lookup(ranges, spec_chunk_id(ChunkKind::CommitData)),
        extended_edges: spec_lookup(ranges, spec_chunk_id(ChunkKind::ExtendedEdges)),
        base_graphs: spec_lookup(ranges, spec_chunk_id(ChunkKind::BaseGraphs)),
    }
}

/// Calls `git_chunk::file::Index::from_bytes`, which decodes the table of
/// contents of `num_chunks` entries that starts at `toc_offset`. The claim is
/// only that the outcome is determined by the three arguments: it is given
/// the name `decoded_toc`. The call slices `data` from `toc_offset` on, so
/// the offset has to lie inside `data`.
#[verifier::external_body]
pub(crate) fn decode_index(data: &[u8], toc_offset: usize, num_chunks: u32) -> (r: Result<
    git_chunk::file::Index,
    git_chunk::file::decode::Error,
>)
    requires
        toc_offset <= data@.len(),
        num_chunks <= 255,
    ensures
        match r {
            Ok(index) => decoded_toc(data@, toc_offset as int, num_chunks as int) == Some(
                index_ranges(index),
            ),
            Err(_) => decoded_toc(data@, toc_offset as int, num_chunks as int) is None,
        },
{
    git_chunk::file::Index::from_bytes(data, toc_offset, num_chunks)
}

/// Calls `git_chunk::file::Index::offset_by_id`, which returns the range of
/// the first chunk listed under `id` and an error where none is listed. The
/// claim is that this is what `index_ranges` holds for `id`.
#[verifier::external_body]
pub(crate) fn offset_by_id(index: &git_chunk::file::Index, id: [u8; 4]) -> (r: Option<ByteRange>)
    ensures
        r == spec_lookup(index_ranges(*index), id@),
{
    match index.offset_by_id(id) {
        Ok(range) => Some(ByteRange { start: range.start, end: range.end }),
        Err(_) => None,
    }
}

/// Looks up all five chunks in a decoded table of contents.
pub fn chunk_table(index: &git_chunk::file::Index) -> (table: ChunkTable)
    ensures
        table == spec_chunk_table(index_ranges(*index)),
{
    ChunkTable {
        oid_fanout: offset_by_id(index, chunk_id(ChunkKind::OidFanout)),
        oid_lookup: offset_by_id(index, chunk_id(ChunkKind::OidLookup)),
        commit_data: offset_by_id(index, chunk_id(ChunkKind::CommitData)),
        extended_edges: offset_by_id(index, chunk_id(ChunkKind::ExtendedEdges)),
        base_graphs: offset_by_id(index, chunk_id(ChunkKind::BaseGraphs)),
    }
}

} // verus!
