use vstd::prelude::*;

verus! {

/// `a` and `b` agree before index `k`, and there `a` holds the smaller byte.
pub open spec fn splits_at(a: Seq<u8>, b: Seq<u8>, k: int) -> bool {
    &&& 0 <= k < a.len()
    &&& k < b.len()
    &&& forall|j: int| 0 <= j < k ==> a[j] == b[j]
    &&& a[k] < b[k]
}

/// Byte-wise order of two identifiers of the same length: `a` comes strictly before `b`.
pub open spec fn lex_lt(a: Seq<u8>, b: Seq<u8>) -> bool {
    exists|k: int| #[trigger] splits_at(a, b, k)
}

/// How one identifier stands to another.
#[derive(Clone, Copy, Debug, PartialEq, Eq, Structural)]
pub enum Relation {
    Before,
    Same,
    After,
}

/// No identifier comes before itself.
pub proof fn lemma_lex_irreflexive(a: Seq<u8>)
    ensures
        !lex_lt(a, a),
{
}

/// Of two identifiers at most one comes before the other.
pub proof fn lemma_lex_asymmetric(a: Seq<u8>, b: Seq<u8>)
    requires
        lex_lt(a, b),
    ensures
        !lex_lt(b, a),
{
    let k1 = choose|k: int| #[trigger] splits_at(a, b, k);
    if lex_lt(b, a) {
        let k2 = choose|k: int| #[trigger] splits_at(b, a, k);
        if k1 < k2 {
            assert(b[k1] == a[k1]);
        } else if k2 < k1 {
            assert(a[k2] == b[k2]);
        }
    }
}

/// The order is transitive.
pub proof fn lemma_lex_transitive(a: Seq<u8>, b: Seq<u8>, c: Seq<u8>)
    requires
        lex_lt(a, b),
        lex_lt(b, c),
    ensures
        lex_lt(a, c),
{
    let k1 = choose|k: int| #[trigger] splits_at(a, b, k);
    let k2 = choose|k: int| #[trigger] splits_at(b, c, k);
    let k = if k1 <= k2 { k1 } else { k2 };
    assert forall|j: int| 0 <= j < k implies a[j] == c[j] by {
        assert(a[j] == b[j]);
        assert(b[j] == c[j]);
    }
    assert(splits_at(a, c, k));
}

/// Compares two identifiers of the same length byte by byte.
pub fn compare_ids(a: &[u8], b: &[u8]) -> (r: Relation)
    requires
        a@.len() == b@.len(),
    ensures
        r == Relation::Before <==> lex_lt(a@, b@),
        r == Relation::Same <==> a@ == b@,
        r == Relation::After <==> lex_lt(b@, a@),
{
    let mut i: usize = 0;
    while i < a.len()
        invariant
            i <= a@.len(),
            a@.len() == b@.len(),
            forall|j: int| 0 <= j < i ==> a@[j] == b@[j],
        decreases a@.len() - i,
    {
        if a[i] < b[i] {
            proof {
                assert(splits_at(a@, b@, i as int));
                lemma_lex_asymmetric(a@, b@);
            }
            return Relation::Before;
        }
        if a[i] > b[i] {
            proof {
                assert(splits_at(b@, a@, i as int));
                lemma_lex_asymmetric(b@, a@);
            }
            return Relation::After;
        }
        i += 1;
    }
    proof {
        assert(a@ =~= b@);
        lemma_lex_irreflexive(a@);
    }
    Relation::Same
}

} // verus!
