use vstd::prelude::*;
use crate::error::{Invariant, InvariantKind};
use crate::file::{CommitView, File, ParentEdge};
use crate::order::{compare_ids, lex_lt, Relation};
use crate::position::Position;

verus! {

/// Every position of `ps` names one of `n` commits.
pub open spec fn all_below(ps: Seq<Position>, n: int) -> bool {
    forall|i: int| 0 <= i < ps.len() ==> (#[trigger] ps[i]).index() < n
}

impl File {
    /// The fan-out counts before index `k` never decrease.
    pub open spec fn fan_monotonic_upto(&self, k: int) -> bool {
        forall|i: int| 1 <= i < k ==> self.fan()[i - 1] <= #[trigger] self.fan()[i]
    }

    /// The parent fields of `c` name commits of this file, or an entry of its extended edges.
    pub open spec fn parent_fields_in_range(&self, c: CommitView) -> bool {
        &&& match c.parent1 {
            ParentEdge::Direct(q) => q.index() < self.commit_count(),
            _ => true,
        }
        &&& match c.parent2 {
            ParentEdge::Direct(q) => q.index() < self.commit_count(),
            ParentEdge::Overflow(ix) => ix < self.edge_count(),
            ParentEdge::Absent => true,
        }
    }

    /// Every commit of `ps` whose generation was computed has one below `g`.
    pub open spec fn generations_below(&self, ps: Seq<Position>, g: int) -> bool {
        forall|i: int|
            0 <= i < ps.len() ==> {
                let parent = self.spec_generation((#[trigger] ps[i]).index());
                parent == 0 || parent < g
            }
    }

    /// The first rule that the commit at `p` breaks, in the order: identifier
    /// above its predecessor's; parent fields in range; chain of extended
    /// edges ended; every parent a commit of the file; generation above
    /// those of its parents. `None` where it breaks none.
    pub open spec fn commit_violation(&self, p: int) -> Option<InvariantKind> {
        let c = self.spec_commit(p);
        if p > 0 && !lex_lt(self.spec_id_at(p - 1), self.spec_id_at(p)) {
            Some(InvariantKind::OidsUnordered)
        } else if !self.parent_fields_in_range(c) {
            Some(InvariantKind::ParentOutOfRange)
        } else if self.spec_parents(c) is None {
            Some(InvariantKind::DanglingEdgeChain)
        } else if !all_below(self.spec_parents(c)->0, self.commit_count()) {
            Some(InvariantKind::ParentOutOfRange)
        } else if c.generation != 0 && !self.generations_below(
            self.spec_parents(c)->0,
            c.generation,
        ) {
            Some(InvariantKind::GenerationNotMonotonic)
        } else {
            None
        }
    }

    /// No commit before position `k` breaks a rule.
    pub open spec fn commits_sound_upto(&self, k: int) -> bool {
        forall|p: int| 0 <= p < k ==> #[trigger] self.commit_violation(p) is None
    }

    /// A base graph list, where there is one, holds as many identifiers as the header declares.
    pub open spec fn base_graphs_consistent(&self) -> bool {
        match self.spec_base_graphs_in_list() {
            Some(k) => k == self.declared_base_graphs(),
            None => true,
        }
    }

    /// The file keeps every structural rule.
    pub open spec fn sound(&self) -> bool {
        &&& self.fan_monotonic_upto(256)
        &&& self.commits_sound_upto(self.commit_count())
        &&& self.base_graphs_consistent()
    }

    /// What a failed verification reports: the first fan-out index whose
    /// count is below the one before; else the first commit that breaks a
    /// rule, with the first rule it breaks; else the base graph list.
    pub open spec fn reports(&self, e: Invariant) -> bool {
        match e.kind {
            InvariantKind::FanoutNotMonotonic => {
                &&& 1 <= e.position < 256
                &&& self.fan_monotonic_upto(e.position as int)
                &&& self.fan()[e.position - 1] > self.fan()[e.position as int]
            },
            InvariantKind::BaseGraphCount => {
                &&& e.position == 0
                &&& self.fan_monotonic_upto(256)
                &&& self.commits_sound_upto(self.commit_count())
                &&& !self.base_graphs_consistent()
            },
            kind => {
                &&& self.fan_monotonic_upto(256)
                &&& e.position < self.commit_count()
                &&& self.commits_sound_upto(e.position as int)
                &&& self.commit_violation(e.position as int) == Some(kind)
            },
        }
    }

    /// Checks the commit at `pos` against the rules for a single commit.
    pub fn check_commit(&self, pos: Position) -> (r: Option<InvariantKind>)
        requires
            self.wf(),
            pos.index() < self.commit_count(),
        ensures
            r == self.commit_violation(pos.index()),
    {
        let c = self.commit_at(pos);
        let n: u32 = self.num_commits();
        if pos.0 > 0 {
            let before = self.identifier_at(Position(pos.0 - 1));
            let here = self.identifier_at(pos);
            match compare_ids(before, here) {
                Relation::Before => {},
                _ => {
                    return Some(InvariantKind::OidsUnordered);
                },
            }
        }
        if let ParentEdge::Direct(q) = c.parent1 {
            if q.0 >= n {
                return Some(InvariantKind::ParentOutOfRange);
            }
        }
        match c.parent2 {
            ParentEdge::Direct(q) => {
                if q.0 >= n {
                    return Some(InvariantKind::ParentOutOfRange);
                }
            },
            ParentEdge::Overflow(ix) => {
                if ix as usize >= self.num_edges() {
                    return Some(InvariantKind::ParentOutOfRange);
                }
            },
            ParentEdge::Absent => {},
        }
        let parents = match self.parents(&c) {
            Some(ps) => ps,
            None => {
                return Some(InvariantKind::DanglingEdgeChain);
            },
        };
        let mut i: usize = 0;
        while i < parents.len()
            invariant
                i <= parents@.len(),
                n == self.commit_count(),
                c@ == self.spec_commit(pos.index()),
                pos.index() == 0 || lex_lt(
                    self.spec_id_at(pos.index() - 1),
                    self.spec_id_at(pos.index()),
                ),
                self.parent_fields_in_range(c@),
                self.spec_parents(c@) == Some(parents@),
                forall|j: int| 0 <= j < i ==> (#[trigger] parents@[j]).index() < n,
            decreases parents@.len() - i,
        {
            if parents[i].0 >= n {
                return Some(InvariantKind::ParentOutOfRange);
            }
            i += 1;
        }
        if c.generation == 0 {
            return None;
        }
        let mut i: usize = 0;
        while i < parents.len()
            invariant
                self.wf(),
                i <= parents@.len(),
                c.generation != 0,
                n == self.commit_count(),
                c@ == self.spec_commit(pos.index()),
                pos.index() == 0 || lex_lt(
                    self.spec_id_at(pos.index() - 1),
                    self.spec_id_at(pos.index()),
                ),
                self.parent_fields_in_range(c@),
                self.spec_parents(c@) == Some(parents@),
                all_below(parents@, n as int),
                forall|j: int|
                    0 <= j < i ==> {
                        let parent = self.spec_generation((#[trigger] parents@[j]).index());
                        parent == 0 || parent < c.generation
                    },
            decreases parents@.len() - i,
        {
            let parent = self.generation_at(parents[i]);
            if parent != 0 && parent >= c.generation {
                return Some(InvariantKind::GenerationNotMonotonic);
            }
            i += 1;
        }
        None
    }

    /// Certifies the structure of the file, or reports the first rule found broken.
    ///
    /// The fan-out table is checked first, then each commit in the order of
    /// positions, then the base graph list.
    pub fn verify(&self) -> (r: Result<(), Invariant>)
        requires
            self.wf(),
        ensures
            match r {
                Ok(_) => self.sound(),
                Err(e) => self.reports(e),
            },
    {
        let mut i: usize = 1;
        while i < 256
            invariant
                1 <= i <= 256,
                self.wf(),
                self.fan_monotonic_upto(i as int),
            decreases 256 - i,
        {
            if self.fan_at((i - 1) as u8) > self.fan_at(i as u8) {
                return Err(
                    Invariant { kind: InvariantKind::FanoutNotMonotonic, position: i as u32 },
                );
            }
            i += 1;
        }
        let n: u32 = self.num_commits();
        let mut p: u32 = 0;
        while p < n
            invariant
                p <= n,
                n == self.commit_count(),
                self.wf(),
                self.fan_monotonic_upto(256),
                self.commits_sound_upto(p as int),
            decreases n - p,
        {
            match self.check_commit(Position(p)) {
                Some(kind) => {
                    return Err(Invariant { kind, position: p });
                },
                None => {},
            }
            p += 1;
        }
        match self.base_graphs_in_list() {
            Some(k) => {
                if k != self.base_graph_count() as usize {
                    return Err(Invariant { kind: InvariantKind::BaseGraphCount, position: 0 });
                }
            },
            None => {},
        }
        Ok(())
    }
}

} // verus!
