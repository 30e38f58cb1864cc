use vstd::prelude::*;

verus! {

/// The position of a commit within one graph file, starting at 0.
///
/// Commits in a file are sorted by identifier, and a commit's position is its
/// place in that order. Positions of different files are unrelated, which is
/// why this is a type of its own and not a bare integer.
#[derive(Clone, Copy, Debug, PartialEq, Eq, Structural, Hash, PartialOrd, Ord)]
pub struct Position(pub u32);

impl Position {
    /// The position as an index.
    pub open spec fn index(self) -> int {
        self.0 as int
    }
}

} // verus!
