use vstd::prelude::*;
use crate::file::{EXTENDED_EDGES_MASK, NO_PARENT};
use crate::position::Position;

verus! {

/// What a parent field of a commit-data entry says.
#[derive(Clone, Copy, Debug, PartialEq, Eq, Structural)]
pub enum ParentEdge {
    /// No parent.
    Absent,
    /// The parent is the commit at this position of the same file.
    Direct(Position),
    /// The parents from the second on are listed in the extended edges, from this index.
    Overflow(u32),
}

/// The meaning of a raw first parent field.
pub open spec fn spec_first_parent(raw: int) -> ParentEdge {
    if raw == NO_PARENT {
        ParentEdge::Absent
    } else {
        ParentEdge::Direct(Position(raw as u32))
    }
}

/// The meaning of a raw second parent field.
pub open spec fn spec_second_parent(raw: int) -> ParentEdge {
    if raw == NO_PARENT {
        ParentEdge::Absent
    } else if raw >= EXTENDED_EDGES_MASK {
        ParentEdge::Overflow((raw - EXTENDED_EDGES_MASK) as u32)
    } else {
        ParentEdge::Direct(Position(raw as u32))
    }
}

/// One commit-data entry, decoded.
#[derive(Clone, Debug, PartialEq, Eq)]
pub struct Commit {
    pub position: Position,
    pub root_tree_id: Vec<u8>,
    pub parent1: ParentEdge,
    pub parent2: ParentEdge,
    /// 0 when no generation was computed for the commit.
    pub generation: u32,
    /// Seconds since the epoch, 34 bits.
    pub commit_timestamp: u64,
}

/// The mathematical value of a [`Commit`].
pub struct CommitView {
    pub position: Position,
    pub root_tree_id: Seq<u8>,
    pub parent1: ParentEdge,
    pub parent2: ParentEdge,
    pub generation: int,
    pub commit_timestamp: int,
}

impl View for Commit {
    type V = CommitView;

    open spec fn view(&self) -> CommitView {
        CommitView {
            position: self.position,
            root_tree_id: self.root_tree_id@,
            parent1: self.parent1,
            parent2: self.parent2,
            generation: self.generation as int,
            commit_timestamp: self.commit_timestamp as int,
        }
    }
}

/// `front` followed by `rest`, where there is a rest.
pub open spec fn prepend(front: Seq<Position>, rest: Option<Seq<Position>>) -> Option<
    Seq<Position>,
> {
    match rest {
        Some(r) => Some(front + r),
        None => None,
    }
}

/// Decodes a raw first parent field.
pub fn first_parent(raw: u32) -> (edge: ParentEdge)
    ensures
        edge == spec_first_parent(raw as int),
{
    if raw == NO_PARENT {
        ParentEdge::Absent
    } else {
        ParentEdge::Direct(Position(raw))
    }
}

/// Decodes a raw second parent field.
pub fn second_parent(raw: u32) -> (edge: ParentEdge)
    ensures
        edge == spec_second_parent(raw as int),
{
    if raw == NO_PARENT {
        ParentEdge::Absent
    } else if raw >= EXTENDED_EDGES_MASK {
        ParentEdge::Overflow(raw - EXTENDED_EDGES_MASK)
    } else {
        ParentEdge::Direct(Position(raw))
    }
}

} // verus!
