use vstd::prelude::*;
use crate::bytes::be_u32;
use crate::chunk::ChunkTable;
use crate::file::{layout_error, CommitView, File, ParentEdge};
use crate::order::lex_lt;
use crate::error::Invariant;
use crate::position::Position;

verus! {

/// In a layout that is accepted, the lookup chunk and the commit-data chunk
/// each hold exactly as many entries as the last count of the fan-out table.
pub proof fn lemma_counts_agree(data: Seq<u8>, hash_len: int, table: ChunkTable)
    requires
        hash_len > 0,
        layout_error(data, hash_len, table) is None,
    ensures
        (table.oid_lookup->0.end - table.oid_lookup->0.start) / hash_len == be_u32(
            data,
            table.oid_fanout->0.start + 4 * 255,
        ),
        (table.commit_data->0.end - table.commit_data->0.start) / (hash_len + 16) == be_u32(
            data,
            table.oid_fanout->0.start + 4 * 255,
        ),
{
    let total = be_u32(data, table.oid_fanout->0.start + 4 * 255);
    assert((total * hash_len) / hash_len == total) by (nonlinear_arith)
        requires
            hash_len > 0,
    ;
}

/// In a file that keeps every structural rule, each identifier is above the one before it.
pub proof fn lemma_sound_file_ascends(file: File)
    requires
        file.sound(),
    ensures
        file.ids_ascending(),
{
    assert forall|p: int| 0 < p < file.commit_count() implies lex_lt(
        file.spec_id_at(p - 1),
        #[trigger] file.spec_id_at(p),
    ) by {
        assert(file.commit_violation(p) is None);
    }
}

/// In a file that keeps every structural rule, identifiers ascend strictly
/// with positions: of two commits the earlier has the smaller identifier.
pub proof fn lemma_strict_ordering(file: File, earlier: int, later: int)
    requires
        file.sound(),
        0 <= earlier < later < file.commit_count(),
    ensures
        lex_lt(file.spec_id_at(earlier), file.spec_id_at(later)),
{
    lemma_sound_file_ascends(file);
    file.lemma_ids_strictly_ordered(earlier, later);
}

/// A file that keeps every structural rule and whose fan-out table agrees
/// with its identifiers can be searched, and then no position but `p` holds
/// the identifier of `p`: a lookup of that identifier can only answer `p`.
pub proof fn lemma_identifier_names_one_position(file: File, p: int, q: int)
    requires
        file.sound(),
        file.fan_brackets(),
        0 <= p < file.commit_count(),
        0 <= q < file.commit_count(),
        file.spec_id_at(q) == file.spec_id_at(p),
    ensures
        file.well_indexed(),
        q == p,
{
    lemma_sound_file_ascends(file);
    file.lemma_ids_distinct(p, q);
}

/// A commit with a first parent whose second parent field points into the
/// extended edges has that first parent, then the chain of edges walked up
/// to the one marked last: one parent more than the edges walked.
pub proof fn lemma_overflow_parents(file: File, c: CommitView, first: Position, index: u32)
    requires
        c.parent1 == ParentEdge::Direct(first),
        c.parent2 == ParentEdge::Overflow(index),
        file.edge_chain(index as int) is Some,
    ensures
        file.spec_parents(c) == Some(seq![first] + file.edge_chain(index as int)->0),
        file.spec_parents(c)->0.len() == 1 + file.edge_chain(index as int)->0.len(),
        file.spec_parents(c)->0[0] == first,
{
}

/// A file that keeps every structural rule gives verification nothing to report.
pub proof fn lemma_sound_file_has_no_report(file: File, e: Invariant)
    requires
        file.sound(),
    ensures
        !file.reports(e),
{
    if file.reports(e) {
        if e.position < file.commit_count() {
            assert(file.commit_violation(e.position as int) is None);
        }
    }
}

/// Verification can report one thing only of a file: two reports of the
/// same file name the same rule and the same place.
pub proof fn lemma_report_is_unique(file: File, e1: Invariant, e2: Invariant)
    requires
        file.reports(e1),
        file.reports(e2),
    ensures
        e1 == e2,
{
    if e1.position < 256 {
        assert(file.fan()[e1.position as int] == file.fan()[e1.position as int]);
    }
    if e2.position < 256 {
        assert(file.fan()[e2.position as int] == file.fan()[e2.position as int]);
    }
    if e1.position < file.commit_count() {
        assert(file.commit_violation(e1.position as int) == file.commit_violation(
            e1.position as int,
        ));
    }
    if e2.position < file.commit_count() {
        assert(file.commit_violation(e2.position as int) == file.commit_violation(
            e2.position as int,
        ));
    }
}

/// Where the fan-out table first decreases at index `i`, that is what
/// verification reports, whatever else is wrong with the file.
pub proof fn lemma_fanout_is_reported_first(file: File, e: Invariant, i: int)
    requires
        file.reports(e),
        1 <= i < 256,
        file.fan_monotonic_upto(i),
        file.fan()[i - 1] > file.fan()[i],
    ensures
        e == (Invariant { kind: crate::error::InvariantKind::FanoutNotMonotonic, position: i as u32 }),
{
    assert(!file.fan_monotonic_upto(256));
    if e.position < i {
        assert(file.fan()[e.position as int] == file.fan()[e.position as int]);
    }
}

/// Where the fan-out table never decreases and the commit at `p` is the
/// first to break a rule, verification reports that rule at `p`.
pub proof fn lemma_first_commit_is_reported(file: File, e: Invariant, p: int)
    requires
        file.reports(e),
        file.fan_monotonic_upto(256),
        0 <= p < file.commit_count(),
        file.commits_sound_upto(p),
        file.commit_violation(p) is Some,
    ensures
        e.position == p,
        Some(e.kind) == file.commit_violation(p),
{
    if e.position < 256 {
        assert(file.fan()[e.position as int] == file.fan()[e.position as int]);
    }
    if e.position < p {
        assert(file.commit_violation(e.position as int) is None);
    }
    assert(!file.commits_sound_upto(file.commit_count()));
}

} // verus!
