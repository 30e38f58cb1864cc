//! Reader and validator for a single commit-graph file: the chunked binary
//! index that answers "which tree, which parents, which generation" for a
//! commit without opening the commit object itself.

pub mod bytes;
pub mod chunk;
pub mod error;
pub mod order;
pub mod position;
pub mod file;
pub mod laws;
pub mod verify;

pub use crate::error::{Invariant, InvariantKind, OpenError};
pub use crate::file::{Commit, File, HashKind, ParentEdge};
pub use crate::position::Position;
