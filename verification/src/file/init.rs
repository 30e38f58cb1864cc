use vstd::prelude::*;
use crate::bytes::{be_u32, read_u32};
use crate::chunk::{
    chunk_table, decode_index, decoded_toc, spec_chunk_table, ByteRange, ChunkTable,
};
use crate::error::{ChunkKind, HeaderField, OpenError, Reason};
use crate::file::{File, HashKind, COMMIT_DATA_ENTRY_SIZE_SANS_HASH, FAN_LEN, HEADER_LEN};

verus! {

/// Whether `r` lies inside `len` bytes.
pub open spec fn in_bounds(r: ByteRange, len: int) -> bool {
    r.start <= r.end <= len
}

/// The first chunk, in the order fan-out, lookup, commit data, extended
/// edges, base graphs, whose range does not lie inside `len` bytes.
pub open spec fn first_out_of_bounds(table: ChunkTable, len: int) -> Option<ChunkKind> {
    if table.oid_fanout is Some && !in_bounds(table.oid_fanout->0, len) {
        Some(ChunkKind::OidFanout)
    } else if table.oid_lookup is Some && !in_bounds(table.oid_lookup->0, len) {
        Some(ChunkKind::OidLookup)
    } else if table.commit_data is Some && !in_bounds(table.commit_data->0, len) {
        Some(ChunkKind::CommitData)
    } else if table.extended_edges is Some && !in_bounds(table.extended_edges->0, len) {
        Some(ChunkKind::ExtendedEdges)
    } else if table.base_graphs is Some && !in_bounds(table.base_graphs->0, len) {
        Some(ChunkKind::BaseGraphs)
    } else {
        None
    }
}

/// Why a file of these bytes, with identifiers of `hash_len` bytes and its
/// chunks at the places that `table` gives, cannot be used; `None` if it can.
/// The rules are tried in the order written.
pub open spec fn layout_error(data: Seq<u8>, hash_len: int, table: ChunkTable) -> Option<
    OpenError,
> {
    if table.oid_fanout is None {
        Some(OpenError::MissingChunk(ChunkKind::OidFanout))
    } else if table.oid_lookup is None {
        Some(OpenError::MissingChunk(ChunkKind::OidLookup))
    } else if table.commit_data is None {
        Some(OpenError::MissingChunk(ChunkKind::CommitData))
    } else if first_out_of_bounds(table, data.len() as int) is Some {
        Some(OpenError::Corrupt(Reason::ChunkOutOfBounds(first_out_of_bounds(table, data.len() as int)->0)))
    } else {
        let fanout = table.oid_fanout->0;
        let lookup = table.oid_lookup->0;
        let commits = table.commit_data->0;
        let total = be_u32(data, fanout.start + 4 * 255);
        if fanout.end - fanout.start != 4 * FAN_LEN {
            Some(OpenError::Corrupt(Reason::FanoutSize))
        } else if (commits.end - commits.start) % (hash_len + 16) != 0 {
            Some(OpenError::Mismatch(ChunkKind::CommitData))
        } else if (commits.end - commits.start) / (hash_len + 16) != total {
            Some(OpenError::Mismatch(ChunkKind::CommitData))
        } else if lookup.end - lookup.start != total * hash_len {
            Some(OpenError::Mismatch(ChunkKind::OidLookup))
        } else {
            None
        }
    }
}

/// Why the fixed header at the start of `data` is refused; `None` if it is accepted.
pub open spec fn header_error(data: Seq<u8>) -> Option<OpenError> {
    if data.len() < HEADER_LEN {
        Some(OpenError::Corrupt(Reason::TooShort))
    } else if !(data[0] == 0x43 && data[1] == 0x47 && data[2] == 0x50 && data[3] == 0x48) {
        Some(OpenError::HeaderInvalid(HeaderField::Signature))
    } else if data[4] != 1 {
        Some(OpenError::HeaderInvalid(HeaderField::Version))
    } else if HashKind::spec_from_byte(data[5]) is None {
        Some(OpenError::HeaderInvalid(HeaderField::HashKind))
    } else {
        None
    }
}

/// The places of the chunks that the table of contents after the header of
/// `data` gives; `None` where the table cannot be decoded.
pub open spec fn toc_table(data: Seq<u8>) -> Option<ChunkTable> {
    match decoded_toc(data, HEADER_LEN as int, data[6] as int) {
        Some(ranges) => Some(spec_chunk_table(ranges)),
        None => None,
    }
}

/// Why a file of these bytes cannot be opened; `None` if it can. The header
/// is judged first, then the table of contents, then the layout of the chunks.
pub open spec fn open_error(data: Seq<u8>) -> Option<OpenError> {
    if header_error(data) is Some {
        header_error(data)
    } else {
        match toc_table(data) {
            None => Some(OpenError::Corrupt(Reason::ChunkTable)),
            Some(table) => layout_error(
                data,
                HashKind::spec_from_byte(data[5])->0.spec_len(),
                table,
            ),
        }
    }
}

/// The 256 counts that start at `start`.
pub open spec fn spec_fan(data: Seq<u8>, start: int) -> Seq<u32> {
    Seq::new(FAN_LEN as nat, |k: int| be_u32(data, start + 4 * k) as u32)
}

/// A chunk's range as a pair of offsets.
pub open spec fn spec_range(r: Option<ByteRange>) -> Option<(int, int)> {
    match r {
        Some(r) => Some((r.start as int, r.end as int)),
        None => None,
    }
}

fn fits(r: ByteRange, len: usize) -> (b: bool)
    ensures
        b == in_bounds(r, len as int),
{
    r.start <= r.end && r.end <= len as u64
}

fn optional_range(r: Option<ByteRange>, len: usize) -> (out: Option<(usize, usize)>)
    requires
        r is Some ==> in_bounds(r->0, len as int),
    ensures
        match out {
            Some((s, e)) => spec_range(r) == Some((s as int, e as int)),
            None => r is None,
        },
{
    match r {
        Some(r) => Some((r.start as usize, r.end as usize)),
        None => None,
    }
}

fn load_fan(data: &[u8], start: usize) -> (fan: Vec<u32>)
    requires
        start + 4 * FAN_LEN <= data@.len(),
    ensures
        fan@ == spec_fan(data@, start as int),
{
    let mut fan: Vec<u32> = Vec::new();
    let len = data.len();
    let mut i: usize = 0;
    while i < FAN_LEN
        invariant
            i <= FAN_LEN,
            len == data@.len(),
            start + 4 * FAN_LEN <= data@.len(),
            fan@.len() == i,
            forall|k: int| 0 <= k < i ==> fan@[k] == be_u32(data@, start + 4 * k) as u32,
        decreases FAN_LEN - i,
    {
        let v = read_u32(data, start + 4 * i);
        fan.push(v);
        i += 1;
    }
    proof {
        assert(fan@ =~= spec_fan(data@, start as int));
    }
    fan
}

impl File {
    /// Builds the handle for a file of these bytes whose chunks lie where
    /// `table` says, or says why the layout cannot be used.
    pub fn from_chunks(
        data: Vec<u8>,
        path: String,
        object_hash: HashKind,
        base_graph_count: u8,
        table: ChunkTable,
    ) -> (r: Result<File, OpenError>)
        ensures
            match r {
                Ok(f) => {
                    &&& layout_error(data@, object_hash.spec_len(), table) is None
                    &&& f.wf()
                    &&& f.bytes() == data@
                    &&& f.path_text() == path@
                    &&& f.hash_kind() == object_hash
                    &&& f.declared_base_graphs() == base_graph_count
                    &&& f.fan() == spec_fan(data@, table.oid_fanout->0.start as int)
                    &&& f.oid_lookup_start() == table.oid_lookup->0.start
                    &&& f.commit_data_start() == table.commit_data->0.start
                    &&& f.edges_range() == spec_range(table.extended_edges)
                    &&& f.base_graphs_range() == spec_range(table.base_graphs)
                },
                Err(e) => layout_error(data@, object_hash.spec_len(), table) == Some(e),
            },
    {
        let hash_len = object_hash.len_in_bytes();
        let len = data.len();
        let fanout = match table.oid_fanout {
            Some(r) => r,
            None => {
                return Err(OpenError::MissingChunk(ChunkKind::OidFanout));
            },
        };
        let lookup = match table.oid_lookup {
            Some(r) => r,
            None => {
                return Err(OpenError::MissingChunk(ChunkKind::OidLookup));
            },
        };
        let commits = match table.commit_data {
            Some(r) => r,
            None => {
                return Err(OpenError::MissingChunk(ChunkKind::CommitData));
            },
        };
        if !fits(fanout, len) {
            return Err(OpenError::Corrupt(Reason::ChunkOutOfBounds(ChunkKind::OidFanout)));
        }
        if !fits(lookup, len) {
            return Err(OpenError::Corrupt(Reason::ChunkOutOfBounds(ChunkKind::OidLookup)));
        }
        if !fits(commits, len) {
            return Err(OpenError::Corrupt(Reason::ChunkOutOfBounds(ChunkKind::CommitData)));
        }
        if let Some(r) = table.extended_edges {
            if !fits(r, len) {
                return Err(
                    OpenError::Corrupt(Reason::ChunkOutOfBounds(ChunkKind::ExtendedEdges)),
                );
            }
        }
        if let Some(r) = table.base_graphs {
            if !fits(r, len) {
                return Err(OpenError::Corrupt(Reason::ChunkOutOfBounds(ChunkKind::BaseGraphs)));
            }
        }
        assert(first_out_of_bounds(table, len as int) is None);
        if fanout.end - fanout.start != 1024 {
            return Err(OpenError::Corrupt(Reason::FanoutSize));
        }
        let fan = load_fan(data.as_slice(), fanout.start as usize);
        let total: u32 = fan[255];
        let entry_len: usize = hash_len + COMMIT_DATA_ENTRY_SIZE_SANS_HASH;
        let commits_len: usize = (commits.end - commits.start) as usize;
        if commits_len % entry_len != 0 {
            return Err(OpenError::Mismatch(ChunkKind::CommitData));
        }
        if (commits_len / entry_len) as u64 != total as u64 {
            return Err(OpenError::Mismatch(ChunkKind::CommitData));
        }
        let lookup_len: u64 = lookup.end - lookup.start;
        if lookup_len != (total as u64) * (hash_len as u64) {
            return Err(OpenError::Mismatch(ChunkKind::OidLookup));
        }
        proof {
            match object_hash {
                HashKind::Sha1 => {
                    assert(entry_len == 36);
                    assert(commits_len == (commits_len / 36) * 36 + commits_len % 36);
                    assert(total * entry_len == total * 36);
                    assert(total * hash_len == total * 20);
                },
                HashKind::Sha256 => {
                    assert(entry_len == 48);
                    assert(commits_len == (commits_len / 48) * 48 + commits_len % 48);
                    assert(total * entry_len == total * 48);
                    assert(total * hash_len == total * 32);
                },
            }
        }
        let extra_edges_list_range = optional_range(table.extended_edges, len);
        let base_graphs_list_range = optional_range(table.base_graphs, len);
        Ok(
            File {
                data,
                path,
                object_hash,
                base_graph_count,
                base_graphs_list_range,
                commit_data_offset: commits.start as usize,
                extra_edges_list_range,
                fan,
                oid_lookup_offset: lookup.start as usize,
            },
        )
    }

    /// Opens a commit-graph file from its bytes: validates the fixed header,
    /// has the table of contents decoded, and checks the layout of the chunks.
    ///
    /// The file opens exactly where [`open_error`] finds nothing, and is
    /// refused with the error that it names otherwise.
    pub fn from_bytes(data: Vec<u8>, path: String) -> (r: Result<File, OpenError>)
        ensures
            match r {
                Ok(f) => {
                    &&& open_error(data@) is None
                    &&& f.wf()
                    &&& f.bytes() == data@
                    &&& f.path_text() == path@
                    &&& Some(f.hash_kind()) == HashKind::spec_from_byte(data@[5])
                    &&& f.declared_base_graphs() == data@[7]
                    &&& f.fan() == spec_fan(data@, toc_table(data@)->0.oid_fanout->0.start as int)
                    &&& f.oid_lookup_start() == toc_table(data@)->0.oid_lookup->0.start
                    &&& f.commit_data_start() == toc_table(data@)->0.commit_data->0.start
                    &&& f.edges_range() == spec_range(toc_table(data@)->0.extended_edges)
                    &&& f.base_graphs_range() == spec_range(toc_table(data@)->0.base_graphs)
                },
                Err(e) => open_error(data@) == Some(e),
            },
    {
        if data.len() < HEADER_LEN {
            return Err(OpenError::Corrupt(Reason::TooShort));
        }
        if !(data[0] == 0x43 && data[1] == 0x47 && data[2] == 0x50 && data[3] == 0x48) {
            return Err(OpenError::HeaderInvalid(HeaderField::Signature));
        }
        if data[4] != 1 {
            return Err(OpenError::HeaderInvalid(HeaderField::Version));
        }
        let object_hash = match HashKind::from_byte(data[5]) {
            Some(kind) => kind,
            None => {
                return Err(OpenError::HeaderInvalid(HeaderField::HashKind));
            },
        };
        let chunk_count: u8 = data[6];
        let base_graph_count: u8 = data[7];
        let table = match decode_index(data.as_slice(), HEADER_LEN, chunk_count as u32) {
            Ok(index) => chunk_table(&index),
            Err(_) => {
                return Err(OpenError::Corrupt(Reason::ChunkTable));
            },
        };
        File::from_chunks(data, path, object_hash, base_graph_count, table)
    }
}

} // verus!
