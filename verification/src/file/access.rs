use vstd::prelude::*;
use vstd::slice::{slice_subrange, slice_to_vec};
use crate::bytes::{entry_offset, lemma_entry_within, read_u32};
use crate::file::commit::{first_parent, prepend, second_parent, Commit, ParentEdge};
use crate::file::{File, HashKind, COMMIT_DATA_ENTRY_SIZE_SANS_HASH, LAST_EXTENDED_EDGE_MASK};
use crate::order::{
    compare_ids, lemma_lex_asymmetric, lemma_lex_irreflexive, lemma_lex_transitive, lex_lt,
    Relation,
};
use crate::position::Position;

verus! {

impl File {
    /// The count that the fan-out table holds below the one of `byte`.
    pub open spec fn fan_low(&self, byte: u8) -> int {
        if byte == 0 {
            0
        } else {
            self.fan()[byte - 1] as int
        }
    }

    /// The identifiers are strictly ascending.
    pub open spec fn ids_ascending(&self) -> bool {
        forall|p: int|
            0 < p < self.commit_count() ==> lex_lt(
                self.spec_id_at(p - 1),
                #[trigger] self.spec_id_at(p),
            )
    }

    /// The fan-out table brackets every commit: the entry of its first
    /// identifier byte lies above its position, the entry before at or below.
    pub open spec fn fan_brackets(&self) -> bool {
        forall|p: int|
            0 <= p < self.commit_count() ==> {
                let id = #[trigger] self.spec_id_at(p);
                self.fan_low(id[0]) <= p < self.fan()[id[0] as int]
            }
    }

    /// The file can be searched: identifiers ascend, and the fan-out table
    /// says where those of each first byte lie.
    pub open spec fn well_indexed(&self) -> bool {
        self.ids_ascending() && self.fan_brackets()
    }

    /// The identifier of every commit lies inside the file and has the length of the hash.
    pub proof fn lemma_id_len(&self, p: int)
        requires
            self.wf(),
            0 <= p < self.commit_count(),
        ensures
            self.spec_id_at(p).len() == self.id_len(),
            0 <= p * self.id_len(),
            self.oid_lookup_start() + p * self.id_len() + self.id_len() <= self.bytes().len(),
    {
        lemma_entry_within(p, self.commit_count(), self.id_len());
    }

    /// Where identifiers ascend from each commit to the next, an earlier
    /// commit's identifier is smaller than a later commit's.
    pub proof fn lemma_ids_strictly_ordered(&self, earlier: int, later: int)
        requires
            self.ids_ascending(),
            0 <= earlier < later < self.commit_count(),
        ensures
            lex_lt(self.spec_id_at(earlier), self.spec_id_at(later)),
        decreases later - earlier,
    {
        let last = self.spec_id_at(later);
        assert(lex_lt(self.spec_id_at(later - 1), last));
        if earlier < later - 1 {
            self.lemma_ids_strictly_ordered(earlier, later - 1);
            lemma_lex_transitive(self.spec_id_at(earlier), self.spec_id_at(later - 1), last);
        }
    }

    /// Where identifiers ascend, a commit whose identifier is the smaller
    /// one has the smaller position.
    pub proof fn lemma_order_reflected(&self, p: int, q: int)
        requires
            self.ids_ascending(),
            0 <= p < self.commit_count(),
            0 <= q < self.commit_count(),
            lex_lt(self.spec_id_at(p), self.spec_id_at(q)),
        ensures
            p < q,
    {
        if p == q {
            lemma_lex_irreflexive(self.spec_id_at(p));
        } else if q < p {
            self.lemma_ids_strictly_ordered(q, p);
            lemma_lex_asymmetric(self.spec_id_at(q), self.spec_id_at(p));
        }
    }

    /// Where identifiers ascend, no two commits share one.
    pub proof fn lemma_ids_distinct(&self, p: int, q: int)
        requires
            self.ids_ascending(),
            0 <= p < self.commit_count(),
            0 <= q < self.commit_count(),
            self.spec_id_at(p) == self.spec_id_at(q),
        ensures
            p == q,
    {
        if p < q {
            self.lemma_ids_strictly_ordered(p, q);
            lemma_lex_irreflexive(self.spec_id_at(p));
        } else if q < p {
            self.lemma_ids_strictly_ordered(q, p);
            lemma_lex_irreflexive(self.spec_id_at(p));
        }
    }

    /// The number of commits in the file.
    pub fn num_commits(&self) -> (n: u32)
        requires
            self.wf(),
        ensures
            n == self.commit_count(),
    {
        self.fan[255]
    }

    /// The hash that names the objects of this file.
    pub fn object_hash(&self) -> (kind: HashKind)
        ensures
            kind == self.hash_kind(),
    {
        self.object_hash
    }

    /// The number of base graphs that the header declares.
    pub fn base_graph_count(&self) -> (n: u8)
        ensures
            n == self.declared_base_graphs(),
    {
        self.base_graph_count
    }

    /// The path that the file was opened with.
    pub fn path(&self) -> (path: &String)
        ensures
            path@ == self.path_text(),
    {
        &self.path
    }

    /// The count of the fan-out table for a first identifier byte.
    pub fn fan_at(&self, byte: u8) -> (n: u32)
        requires
            self.wf(),
        ensures
            n == self.fan()[byte as int],
    {
        self.fan[byte as usize]
    }

    /// The number of entries in the base graph list, if the file has one.
    pub fn base_graphs_in_list(&self) -> (n: Option<usize>)
        requires
            self.wf(),
        ensures
            n == self.spec_base_graphs_in_list(),
    {
        match self.base_graphs_list_range {
            Some((s, e)) => Some((e - s) / self.object_hash.len_in_bytes()),
            None => None,
        }
    }

    /// The number of whole identifiers in the base graph list, if the file has one.
    pub open spec fn spec_base_graphs_in_list(&self) -> Option<usize> {
        match self.base_graphs_range() {
            Some((s, e)) => Some(((e - s) / self.id_len()) as usize),
            None => None,
        }
    }

    /// Where the base graph list starts; 0 where the file has none.
    pub open spec fn base_graphs_start(&self) -> int {
        match self.base_graphs_range() {
            Some((s, _)) => s,
            None => 0,
        }
    }

    /// The identifier at `index` of the base graph list.
    pub open spec fn spec_base_graph_id(&self, index: int) -> Seq<u8> {
        self.bytes().subrange(
            self.base_graphs_start() + index * self.id_len(),
            self.base_graphs_start() + index * self.id_len() + self.id_len(),
        )
    }

    /// The identifier of the base graph at `index` of the list, from the
    /// nearest base on. `None` where the list holds no such entry.
    pub fn base_graph_id_at(&self, index: usize) -> (r: Option<&[u8]>)
        requires
            self.wf(),
        ensures
            match r {
                Some(id) => {
                    &&& self.spec_base_graphs_in_list() is Some
                    &&& index < self.spec_base_graphs_in_list()->0
                    &&& id@ == self.spec_base_graph_id(index as int)
                },
                None => self.spec_base_graphs_in_list() is None || index
                    >= self.spec_base_graphs_in_list()->0,
            },
    {
        match self.base_graphs_list_range {
            None => None,
            Some((s, e)) => {
                let hl = self.object_hash.len_in_bytes();
                let count: usize = (e - s) / hl;
                if index >= count {
                    return None;
                }
                proof {
                    match self.object_hash {
                        HashKind::Sha1 => {
                            assert(hl == 20);
                            assert(e - s == ((e - s) / 20) * 20 + (e - s) % 20);
                            assert(count * hl == count * 20);
                        },
                        HashKind::Sha256 => {
                            assert(hl == 32);
                            assert(e - s == ((e - s) / 32) * 32 + (e - s) % 32);
                            assert(count * hl == count * 32);
                        },
                    }
                }
                let start = entry_offset(s, index, hl, count, e);
                Some(slice_subrange(self.data.as_slice(), start, start + hl))
            },
        }
    }

    /// Every commit of the file, decoded, in the order of positions.
    pub fn commits(&self) -> (all: Vec<Commit>)
        requires
            self.wf(),
        ensures
            all@.len() == self.commit_count(),
            forall|p: int| 0 <= p < all@.len() ==> (#[trigger] all@[p])@ == self.spec_commit(p),
    {
        let n: u32 = self.fan[255];
        let mut all: Vec<Commit> = Vec::new();
        let mut p: u32 = 0;
        while p < n
            invariant
                self.wf(),
                p <= n,
                n == self.commit_count(),
                all@.len() == p,
                forall|q: int| 0 <= q < p ==> (#[trigger] all@[q])@ == self.spec_commit(q),
            decreases n - p,
        {
            all.push(self.commit_at(Position(p)));
            p += 1;
        }
        all
    }

    /// The number of extended edges in the file.
    pub fn num_edges(&self) -> (n: usize)
        requires
            self.wf(),
        ensures
            n == self.edge_count(),
    {
        match self.extra_edges_list_range {
            Some((s, e)) => (e - s) / 4,
            None => 0,
        }
    }

    /// The identifier of the commit at `pos`.
    pub fn identifier_at(&self, pos: Position) -> (id: &[u8])
        requires
            self.wf(),
            pos.index() < self.commit_count(),
        ensures
            id@ == self.spec_id_at(pos.index()),
            id@.len() == self.id_len(),
    {
        let hl = self.object_hash.len_in_bytes();
        let start = entry_offset(
            self.oid_lookup_offset,
            pos.0 as usize,
            hl,
            self.fan[255] as usize,
            self.data.len(),
        );
        slice_subrange(self.data.as_slice(), start, start + hl)
    }

    /// The extended edge at `index`: the parent it names, and whether it is
    /// the last of its chain. `None` where the file has no such edge.
    pub fn edge_at(&self, index: usize) -> (r: Option<(Position, bool)>)
        requires
            self.wf(),
        ensures
            r == (if index < self.edge_count() {
                Some(self.spec_edge_at(index as int))
            } else {
                None
            }),
    {
        match self.extra_edges_list_range {
            None => None,
            Some((s, e)) => {
                let count: usize = (e - s) / 4;
                if index >= count {
                    return None;
                }
                let raw = read_u32(self.data.as_slice(), s + 4 * index);
                if raw >= LAST_EXTENDED_EDGE_MASK {
                    Some((Position(raw - LAST_EXTENDED_EDGE_MASK), true))
                } else {
                    Some((Position(raw), false))
                }
            },
        }
    }

    /// The generation number of the commit at `pos`, 0 if none was computed.
    pub fn generation_at(&self, pos: Position) -> (g: u32)
        requires
            self.wf(),
            pos.index() < self.commit_count(),
        ensures
            g == self.spec_generation(pos.index()),
    {
        let hl = self.object_hash.len_in_bytes();
        let at = entry_offset(
            self.commit_data_offset,
            pos.0 as usize,
            hl + COMMIT_DATA_ENTRY_SIZE_SANS_HASH,
            self.fan[255] as usize,
            self.data.len(),
        );
        read_u32(self.data.as_slice(), at + hl + 8) / 4
    }

    /// Decodes the commit at `pos`.
    pub fn commit_at(&self, pos: Position) -> (c: Commit)
        requires
            self.wf(),
            pos.index() < self.commit_count(),
        ensures
            c@ == self.spec_commit(pos.index()),
    {
        let hl = self.object_hash.len_in_bytes();
        let at = entry_offset(
            self.commit_data_offset,
            pos.0 as usize,
            hl + COMMIT_DATA_ENTRY_SIZE_SANS_HASH,
            self.fan[255] as usize,
            self.data.len(),
        );
        let data = self.data.as_slice();
        let tree = slice_to_vec(slice_subrange(data, at, at + hl));
        let high: u32 = read_u32(data, at + hl + 8);
        let low: u32 = read_u32(data, at + hl + 12);
        Commit {
            position: pos,
            root_tree_id: tree,
            parent1: first_parent(read_u32(data, at + hl)),
            parent2: second_parent(read_u32(data, at + hl + 4)),
            generation: high / 4,
            commit_timestamp: ((high % 4) as u64) * 0x1_0000_0000 + (low as u64),
        }
    }

    /// The parents of `c` in the order in which they were recorded: the
    /// first parent, then either the second or the chain of extended edges.
    /// `None` where that chain does not end inside its chunk.
    pub fn parents(&self, c: &Commit) -> (r: Option<Vec<Position>>)
        requires
            self.wf(),
        ensures
            match r {
                Some(v) => self.spec_parents(c@) == Some(v@),
                None => self.spec_parents(c@) is None,
            },
    {
        let mut out: Vec<Position> = Vec::new();
        if let ParentEdge::Direct(p) = c.parent1 {
            out.push(p);
        }
        let ghost first = out@;
        match c.parent2 {
            ParentEdge::Absent => Some(out),
            ParentEdge::Direct(p) => {
                out.push(p);
                Some(out)
            },
            ParentEdge::Overflow(start) => {
                let count = self.num_edges();
                let mut i: usize = start as usize;
                let ghost mut walked: Seq<Position> = Seq::empty();
                loop
                    invariant
                        self.wf(),
                        count == self.edge_count(),
                        start <= i,
                        out@ == first + walked,
                        self.spec_parents(c@) == prepend(first, self.edge_chain(start as int)),
                        self.edge_chain(start as int) == prepend(
                            walked,
                            self.edge_chain(i as int),
                        ),
                    decreases count - i,
                {
                    if i >= count {
                        return None;
                    }
                    let (p, last) = match self.edge_at(i) {
                        Some(edge) => edge,
                        None => {
                            return None;
                        },
                    };
                    out.push(p);
                    proof {
                        let rest = self.edge_chain(i + 1);
                        if rest is Some {
                            assert(walked + (seq![p] + rest->0) =~= walked.push(p) + rest->0);
                        }
                        assert(walked + seq![p] =~= walked.push(p));
                        assert(first + walked.push(p) =~= (first + walked).push(p));
                        walked = walked.push(p);
                    }
                    if last {
                        return Some(out);
                    }
                    i += 1;
                }
            },
        }
    }

    /// Whether the fan-out table agrees with the identifiers: each commit
    /// lies in the range that the table gives for its first identifier byte.
    pub fn fan_matches_ids(&self) -> (b: bool)
        requires
            self.wf(),
        ensures
            b == self.fan_brackets(),
    {
        let n: u32 = self.fan[255];
        let mut p: u32 = 0;
        while p < n
            invariant
                self.wf(),
                p <= n,
                n == self.commit_count(),
                forall|q: int|
                    0 <= q < p ==> {
                        let id = #[trigger] self.spec_id_at(q);
                        self.fan_low(id[0]) <= q < self.fan()[id[0] as int]
                    },
            decreases n - p,
        {
            let id = self.identifier_at(Position(p));
            let first: usize = id[0] as usize;
            let low: u32 = if first != 0 {
                self.fan[first - 1]
            } else {
                0
            };
            if !(low <= p && p < self.fan[first]) {
                return false;
            }
            p += 1;
        }
        true
    }

    /// The position of the commit named `id`, if the file holds it.
    ///
    /// A position that is returned always holds `id`. In a file that can be
    /// searched, the commit is found wherever it is: looking up the
    /// identifier of a position gives that position back.
    pub fn locate(&self, id: &[u8]) -> (r: Option<Position>)
        requires
            self.wf(),
        ensures
            r matches Some(p) ==> p.index() < self.commit_count() && self.spec_id_at(p.index())
                == id@,
            self.well_indexed() ==> forall|p: int|
                0 <= p < self.commit_count() && #[trigger] self.spec_id_at(p) == id@ ==> r
                    == Some(Position(p as u32)),
    {
        let hl = self.object_hash.len_in_bytes();
        if id.len() != hl {
            proof {
                assert forall|p: int|
                    0 <= p < self.commit_count() implies #[trigger] self.spec_id_at(p)
                    != id@ by {
                    self.lemma_id_len(p);
                }
            }
            return None;
        }
        let n: u32 = self.fan[255];
        let first: usize = id[0] as usize;
        let mut upper: u32 = self.fan[first];
        if upper > n {
            upper = n;
        }
        let mut lower: u32 = if first != 0 {
            self.fan[first - 1]
        } else {
            0
        };
        while lower < upper
            invariant
                self.wf(),
                upper <= n,
                n == self.commit_count(),
                id@.len() == hl,
                hl == self.id_len(),
                self.well_indexed() ==> forall|p: int|
                    0 <= p < n && #[trigger] self.spec_id_at(p) == id@ ==> lower <= p < upper,
            decreases upper - lower,
        {
            let mid: u32 = lower + (upper - lower) / 2;
            let mid_id = self.identifier_at(Position(mid));
            match compare_ids(id, mid_id) {
                Relation::Before => {
                    proof {
                        if self.well_indexed() {
                            assert forall|p: int|
                                0 <= p < n && #[trigger] self.spec_id_at(p) == id@ implies p
                                < mid by {
                                self.lemma_order_reflected(p, mid as int);
                            }
                        }
                    }
                    upper = mid;
                },
                Relation::Same => {
                    proof {
                        if self.well_indexed() {
                            assert forall|p: int|
                                0 <= p < n && #[trigger] self.spec_id_at(p) == id@ implies p
                                == mid by {
                                self.lemma_ids_distinct(p, mid as int);
                            }
                        }
                    }
                    return Some(Position(mid));
                },
                Relation::After => {
                    proof {
                        if self.well_indexed() {
                            assert forall|p: int|
                                0 <= p < n && #[trigger] self.spec_id_at(p) == id@ implies mid
                                < p by {
                                self.lemma_order_reflected(mid as int, p);
                            }
                        }
                    }
                    lower = mid + 1;
                },
            }
        }
        None
    }
}

} // verus!
