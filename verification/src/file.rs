use vstd::prelude::*;
use crate::bytes::be_u32;
use crate::position::Position;

pub mod access;
pub mod commit;
pub mod init;

pub use crate::file::commit::{
    first_parent, prepend, second_parent, spec_first_parent, spec_second_parent, Commit,
    CommitView, ParentEdge,
};
pub use crate::file::init::{header_error, layout_error, open_error, toc_table};

verus! {

/// Bytes of a commit-data entry besides the tree identifier.
pub const COMMIT_DATA_ENTRY_SIZE_SANS_HASH: usize = 16;

/// Number of counts in the fan-out table.
pub const FAN_LEN: usize = 256;

/// Bytes of the fixed header.
pub const HEADER_LEN: usize = 8;

/// A parent field with this value names no parent.
pub const NO_PARENT: u32 = 0x7000_0000;

/// Set in the second parent field when the rest is an index into the extended edges.
pub const EXTENDED_EDGES_MASK: u32 = 0x8000_0000;

/// Set in an extended edge when it is the last parent of its commit.
pub const LAST_EXTENDED_EDGE_MASK: u32 = 0x8000_0000;

/// The hash that names the objects of a file, which fixes the length of every identifier.
#[derive(Clone, Copy, Debug, PartialEq, Eq, Structural)]
pub enum HashKind {
    Sha1,
    Sha256,
}

impl HashKind {
    /// The length of an identifier in bytes.
    pub open spec fn spec_len(self) -> int {
        match self {
            HashKind::Sha1 => 20,
            HashKind::Sha256 => 32,
        }
    }

    /// The kind that a header byte stands for.
    pub open spec fn spec_from_byte(b: u8) -> Option<HashKind> {
        if b == 1 {
            Some(HashKind::Sha1)
        } else if b == 2 {
            Some(HashKind::Sha256)
        } else {
            None
        }
    }

    /// The length in bytes of an identifier of this kind.
    pub fn len_in_bytes(self) -> (r: usize)
        ensures
            r == self.spec_len(),
    {
        match self {
            HashKind::Sha1 => 20,
            HashKind::Sha256 => 32,
        }
    }

    /// Reads the hash kind from its header byte: 1 for 20-byte identifiers,
    /// 2 for 32-byte identifiers, nothing else.
    pub fn from_byte(b: u8) -> (r: Option<HashKind>)
        ensures
            r == Self::spec_from_byte(b),
    {
        if b == 1 {
            Some(HashKind::Sha1)
        } else if b == 2 {
            Some(HashKind::Sha256)
        } else {
            None
        }
    }
}

/// A single commit-graph file, held in memory.
///
/// All operations are local to this file: positions are places in its own
/// sorted list of commits.
pub struct File {
    data: Vec<u8>,
    path: String,
    object_hash: HashKind,
    base_graph_count: u8,
    base_graphs_list_range: Option<(usize, usize)>,
    commit_data_offset: usize,
    extra_edges_list_range: Option<(usize, usize)>,
    fan: Vec<u32>,
    oid_lookup_offset: usize,
}

impl File {
    /// The bytes of the file.
    pub closed spec fn bytes(&self) -> Seq<u8> {
        self.data@
    }

    /// The fan-out table as it was loaded.
    pub closed spec fn fan(&self) -> Seq<u32> {
        self.fan@
    }

    /// The path that the file was opened with.
    pub closed spec fn path_text(&self) -> Seq<char> {
        self.path@
    }

    /// The hash that names the objects of this file.
    pub closed spec fn hash_kind(&self) -> HashKind {
        self.object_hash
    }

    /// The number of base graphs that the header declares.
    pub closed spec fn declared_base_graphs(&self) -> int {
        self.base_graph_count as int
    }

    /// Where the sorted identifiers start.
    pub closed spec fn oid_lookup_start(&self) -> int {
        self.oid_lookup_offset as int
    }

    /// Where the commit data starts.
    pub closed spec fn commit_data_start(&self) -> int {
        self.commit_data_offset as int
    }

    /// The bytes of the extended edges, if the file has any.
    pub closed spec fn edges_range(&self) -> Option<(int, int)> {
        match self.extra_edges_list_range {
            Some((s, e)) => Some((s as int, e as int)),
            None => None,
        }
    }

    /// The bytes of the base graph list, if the file has one.
    pub closed spec fn base_graphs_range(&self) -> Option<(int, int)> {
        match self.base_graphs_list_range {
            Some((s, e)) => Some((s as int, e as int)),
            None => None,
        }
    }

    /// The length of an identifier in bytes.
    pub open spec fn id_len(&self) -> int {
        self.hash_kind().spec_len()
    }

    /// The length of a commit-data entry in bytes.
    pub open spec fn entry_len(&self) -> int {
        self.id_len() + 16
    }

    /// The number of commits in the file: the last count of the fan-out table.
    pub open spec fn commit_count(&self) -> int {
        self.fan()[255] as int
    }

    /// Where the extended edges start; 0 where the file has none.
    pub open spec fn edges_start(&self) -> int {
        match self.edges_range() {
            Some((s, _)) => s,
            None => 0,
        }
    }

    /// The number of extended edges.
    pub open spec fn edge_count(&self) -> int {
        match self.edges_range() {
            Some((s, e)) => (e - s) / 4,
            None => 0,
        }
    }

    /// The invariant of every file that was opened: the fan-out table has 256
    /// counts, an identifier and a commit-data entry lie inside the file for
    /// every commit that its last count announces, and so do the optional chunks.
    pub open spec fn wf(&self) -> bool {
        &&& self.fan().len() == FAN_LEN
        &&& 0 <= self.oid_lookup_start()
        &&& self.oid_lookup_start() + self.commit_count() * self.id_len() <= self.bytes().len()
        &&& 0 <= self.commit_data_start()
        &&& self.commit_data_start() + self.commit_count() * self.entry_len()
            <= self.bytes().len()
        &&& self.bytes().len() <= usize::MAX
        &&& match self.edges_range() {
            Some((s, e)) => 0 <= s <= e <= self.bytes().len(),
            None => true,
        }
        &&& match self.base_graphs_range() {
            Some((s, e)) => 0 <= s <= e <= self.bytes().len(),
            None => true,
        }
    }

    /// The identifier of the commit at position `p`.
    pub open spec fn spec_id_at(&self, p: int) -> Seq<u8> {
        self.bytes().subrange(
            self.oid_lookup_start() + p * self.id_len(),
            self.oid_lookup_start() + p * self.id_len() + self.id_len(),
        )
    }

    /// Where the commit-data entry of position `p` starts.
    pub open spec fn entry_start(&self, p: int) -> int {
        self.commit_data_start() + p * self.entry_len()
    }

    /// The generation number that the entry of position `p` holds: the upper
    /// 30 bits of its last eight bytes.
    pub open spec fn spec_generation(&self, p: int) -> int {
        be_u32(self.bytes(), self.entry_start(p) + self.id_len() + 8) / 4
    }

    /// The commit that the entry of position `p` decodes to.
    pub open spec fn spec_commit(&self, p: int) -> CommitView {
        let at = self.entry_start(p);
        let hl = self.id_len();
        CommitView {
            position: Position(p as u32),
            root_tree_id: self.bytes().subrange(at, at + hl),
            parent1: spec_first_parent(be_u32(self.bytes(), at + hl)),
            parent2: spec_second_parent(be_u32(self.bytes(), at + hl + 4)),
            generation: self.spec_generation(p),
            commit_timestamp: (be_u32(self.bytes(), at + hl + 8) % 4) * 0x1_0000_0000 + be_u32(
                self.bytes(),
                at + hl + 12,
            ),
        }
    }

    /// The extended edge at `index`: the parent in its lower 31 bits, and
    /// whether its top bit marks it as the last of its chain.
    pub open spec fn spec_edge_at(&self, index: int) -> (Position, bool) {
        let raw = be_u32(self.bytes(), self.edges_start() + 4 * index);
        if raw >= LAST_EXTENDED_EDGE_MASK {
            (Position((raw - LAST_EXTENDED_EDGE_MASK) as u32), true)
        } else {
            (Position(raw as u32), false)
        }
    }

    /// The parents that the extended edges list from `from` up to and
    /// including the first edge marked as last; `None` where the chunk ends
    /// before such an edge.
    pub open spec fn edge_chain(&self, from: int) -> Option<Seq<Position>>
        decreases self.edge_count() - from,
    {
        if from < 0 || from >= self.edge_count() {
            None
        } else if self.spec_edge_at(from).1 {
            Some(seq![self.spec_edge_at(from).0])
        } else {
            prepend(seq![self.spec_edge_at(from).0], self.edge_chain(from + 1))
        }
    }

    /// The parents of a commit in the order in which they were recorded;
    /// `None` where its chain of extended edges does not end inside the chunk.
    pub open spec fn spec_parents(&self, c: CommitView) -> Option<Seq<Position>> {
        let first = match c.parent1 {
            ParentEdge::Direct(p) => seq![p],
            _ => Seq::<Position>::empty(),
        };
        match c.parent2 {
            ParentEdge::Absent => Some(first),
            ParentEdge::Direct(p) => Some(first.push(p)),
            ParentEdge::Overflow(ix) => prepend(first, self.edge_chain(ix as int)),
        }
    }
}

} // verus!
