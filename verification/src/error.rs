use vstd::prelude::*;

verus! {

/// The chunks of a commit-graph file.
#[derive(Clone, Copy, Debug, PartialEq, Eq, Structural)]
pub enum ChunkKind {
    /// `OIDF`: 256 cumulative counts by first identifier byte.
    OidFanout,
    /// `OIDL`: the identifiers, sorted.
    OidLookup,
    /// `CDAT`: one fixed-size entry per commit.
    CommitData,
    /// `EDGE`: further parents of commits with more than two.
    ExtendedEdges,
    /// `BASE`: identifiers of the files that this one extends.
    BaseGraphs,
}

/// The fields of the fixed header that are validated.
#[derive(Clone, Copy, Debug, PartialEq, Eq, Structural)]
pub enum HeaderField {
    Signature,
    Version,
    HashKind,
}

/// Why a file is malformed.
#[derive(Clone, Copy, Debug, PartialEq, Eq, Structural)]
pub enum Reason {
    /// The file cannot even hold the fixed header.
    TooShort,
    /// The table of contents could not be read.
    ChunkTable,
    /// A chunk's byte range does not lie inside the file.
    ChunkOutOfBounds(ChunkKind),
    /// The fan-out chunk is not exactly 256 four-byte counts.
    FanoutSize,
}

/// Why a file could not be opened.
#[derive(Clone, Copy, Debug, PartialEq, Eq, Structural)]
pub enum OpenError {
    /// Signature, version or hash kind are not what this reader supports.
    HeaderInvalid(HeaderField),
    /// A required chunk is not in the table of contents.
    MissingChunk(ChunkKind),
    /// The size of the chunk disagrees with the commit count of the fan-out table.
    Mismatch(ChunkKind),
    /// The file is malformed.
    Corrupt(Reason),
}

/// The structural rules that verification certifies.
#[derive(Clone, Copy, Debug, PartialEq, Eq, Structural)]
pub enum InvariantKind {
    /// A fan-out count is smaller than the one before it.
    FanoutNotMonotonic,
    /// Identifiers are not strictly ascending.
    OidsUnordered,
    /// A direct parent does not name a commit of the file, or an overflow
    /// index does not name an entry of the extended edges.
    ParentOutOfRange,
    /// A chain of extended edges runs past the end of its chunk.
    DanglingEdgeChain,
    /// A parent's generation is not below the child's.
    GenerationNotMonotonic,
    /// The base graph list does not hold as many entries as the header declares.
    BaseGraphCount,
}

/// A violated invariant together with the place where it was found.
#[derive(Clone, Copy, Debug, PartialEq, Eq, Structural)]
pub struct Invariant {
    pub kind: InvariantKind,
    /// The fan-out index or the commit position at fault; for an ordering
    /// violation the second commit of the offending pair.
    pub position: u32,
}

} // verus!
