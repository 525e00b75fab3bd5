//! Searching a table that is kept as a sequence of records in insertion
//! order.

use vstd::prelude::*;

verus! {

/// Index of the first record of `records` that satisfies `pred`, or the
/// length of `records` where none does.
pub open spec fn first_index<T>(records: Seq<T>, pred: spec_fn(T) -> bool) -> int
    decreases records.len(),
{
    if records.len() == 0 {
        0
    } else {
        let before = first_index(records.drop_last(), pred);
        if before < records.len() - 1 {
            before
        } else if pred(records.last()) {
            records.len() - 1
        } else {
            records.len() as int
        }
    }
}

/// `first_index` is in range, points at a record that satisfies `pred`
/// when it is below the length, and no earlier record satisfies `pred`.
pub proof fn lemma_first_index<T>(records: Seq<T>, pred: spec_fn(T) -> bool)
    ensures
        0 <= first_index(records, pred) <= records.len(),
        first_index(records, pred) < records.len() ==> pred(
            records[first_index(records, pred)],
        ),
        forall|j: int| 0 <= j < first_index(records, pred) ==> !pred(#[trigger] records[j]),
    decreases records.len(),
{
    if records.len() > 0 {
        lemma_first_index(records.drop_last(), pred);
        let before = first_index(records.drop_last(), pred);
        assert forall|j: int| 0 <= j < first_index(records, pred) implies !pred(
            #[trigger] records[j],
        ) by {
            if j < records.len() - 1 {
                assert(records[j] == records.drop_last()[j]);
            }
        }
        if before < records.len() - 1 {
            assert(records[before] == records.drop_last()[before]);
        }
    }
}

/// An index with the three properties of `lemma_first_index` is the
/// first index.
pub proof fn lemma_first_index_is<T>(records: Seq<T>, pred: spec_fn(T) -> bool, i: int)
    requires
        0 <= i <= records.len(),
        i < records.len() ==> pred(records[i]),
        forall|j: int| 0 <= j < i ==> !pred(#[trigger] records[j]),
    ensures
        first_index(records, pred) == i,
{
    lemma_first_index(records, pred);
    let p = first_index(records, pred);
    if p < i {
        assert(!pred(records[p]));
    }
    if i < p {
        assert(!pred(records[i]));
    }
}

} // verus!
