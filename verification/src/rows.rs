//! The dirty-row set: which scanlines changed since the last transmission.
//!
//! The driver stores one flag per row. A flush walks the flagged rows in
//! ascending order; `dirty_row_list` is the specification of that walk, and
//! the lemmas here give its essential properties: every listed index is a
//! valid row, each dirty row appears exactly once, the list is strictly
//! ascending, an all-dirty buffer lists every row, and a buffer with no
//! dirty rows lists nothing.

use vstd::prelude::*;

verus! {

/// The indices of the set flags of `dirty`, in ascending order.
pub open spec fn dirty_row_list(dirty: Seq<bool>) -> Seq<int>
    decreases dirty.len(),
{
    if dirty.len() == 0 {
        Seq::empty()
    } else if dirty.last() {
        dirty_row_list(dirty.drop_last()) + seq![dirty.len() - 1]
    } else {
        dirty_row_list(dirty.drop_last())
    }
}

/// Every listed index is a valid row index.
pub proof fn lemma_dirty_row_list_in_range(dirty: Seq<bool>)
    ensures
        forall|i: int|
            0 <= i < dirty_row_list(dirty).len() ==> 0 <= #[trigger] dirty_row_list(dirty)[i]
                < dirty.len(),
    decreases dirty.len(),
{
    if dirty.len() > 0 {
        let prev = dirty.drop_last();
        let list = dirty_row_list(dirty);
        lemma_dirty_row_list_in_range(prev);
        assert forall|i: int| 0 <= i < list.len() implies 0 <= #[trigger] list[i] < dirty.len() by {
            if i < dirty_row_list(prev).len() {
                assert(list[i] == dirty_row_list(prev)[i]);
            } else {
                assert(dirty.last());
                assert(list[i] == dirty.len() - 1);
            }
        }
    }
}

/// The list holds exactly the indices whose flag is set.
pub proof fn lemma_dirty_row_list_contains(dirty: Seq<bool>, y: int)
    ensures
        dirty_row_list(dirty).contains(y) <==> (0 <= y < dirty.len() && dirty[y]),
    decreases dirty.len(),
{
    if dirty.len() > 0 {
        let prev = dirty.drop_last();
        let list = dirty_row_list(dirty);
        lemma_dirty_row_list_contains(prev, y);
        if 0 <= y < dirty.len() && dirty[y] {
            if y == dirty.len() - 1 {
                assert(dirty.last());
                assert(list[list.len() - 1] == y);
                assert(list.contains(y));
            } else {
                assert(prev[y] == dirty[y]);
                let i = choose|i: int| 0 <= i < dirty_row_list(prev).len() && dirty_row_list(prev)[i] == y;
                assert(list[i] == y);
                assert(list.contains(y));
            }
        }
        if list.contains(y) {
            let i = choose|i: int| 0 <= i < list.len() && list[i] == y;
            if i < dirty_row_list(prev).len() {
                assert(dirty_row_list(prev)[i] == y);
                assert(dirty_row_list(prev).contains(y));
                assert(prev[y] == dirty[y]);
            } else {
                assert(dirty.last());
                assert(y == dirty.len() - 1);
            }
        }
    }
}

/// The list is strictly ascending, so no row appears in it twice.
pub proof fn lemma_dirty_row_list_sorted(dirty: Seq<bool>)
    ensures
        forall|i: int, j: int|
            0 <= i < j < dirty_row_list(dirty).len() ==> #[trigger] dirty_row_list(dirty)[i]
                < #[trigger] dirty_row_list(dirty)[j],
    decreases dirty.len(),
{
    if dirty.len() > 0 {
        let prev = dirty.drop_last();
        let list = dirty_row_list(dirty);
        lemma_dirty_row_list_sorted(prev);
        lemma_dirty_row_list_in_range(prev);
        assert forall|i: int, j: int| 0 <= i < j < list.len() implies #[trigger] list[i]
            < #[trigger] list[j] by {
            if j < dirty_row_list(prev).len() {
                assert(list[i] == dirty_row_list(prev)[i]);
                assert(list[j] == dirty_row_list(prev)[j]);
            } else {
                assert(i < dirty_row_list(prev).len());
                assert(list[i] == dirty_row_list(prev)[i]);
                if j >= dirty_row_list(prev).len() {
                    assert(dirty.last());
                    assert(list[j] == dirty.len() - 1);
                }
            }
        }
    }
}

/// A buffer whose every row is flagged lists every row, in order.
pub proof fn lemma_dirty_row_list_full(dirty: Seq<bool>)
    requires
        forall|y: int| 0 <= y < dirty.len() ==> dirty[y],
    ensures
        dirty_row_list(dirty) == Seq::new(dirty.len(), |i: int| i),
    decreases dirty.len(),
{
    if dirty.len() == 0 {
        assert(dirty_row_list(dirty) =~= Seq::new(dirty.len(), |i: int| i));
    } else {
        let prev = dirty.drop_last();
        assert(forall|y: int| 0 <= y < prev.len() ==> prev[y] == dirty[y]);
        lemma_dirty_row_list_full(prev);
        assert(dirty.last());
        assert(dirty_row_list(dirty) =~= Seq::new(dirty.len(), |i: int| i));
    }
}

/// A buffer with no flagged row lists nothing.
pub proof fn lemma_dirty_row_list_empty(dirty: Seq<bool>)
    requires
        forall|y: int| 0 <= y < dirty.len() ==> !dirty[y],
    ensures
        dirty_row_list(dirty) == Seq::<int>::empty(),
    decreases dirty.len(),
{
    if dirty.len() > 0 {
        let prev = dirty.drop_last();
        assert(forall|y: int| 0 <= y < prev.len() ==> prev[y] == dirty[y]);
        lemma_dirty_row_list_empty(prev);
        assert(!dirty.last());
    }
}

/// A dirty row is always found in the executable row listing: if the
/// `usize` rows `rows` mirror `dirty_row_list(dirty)`, then every flagged
/// row index occurs among them.
pub proof fn lemma_listed_rows_contain_dirty(dirty: Seq<bool>, rows: Seq<usize>, y: int)
    requires
        rows.map_values(|u: usize| u as int) == dirty_row_list(dirty),
        0 <= y < dirty.len(),
        dirty[y],
    ensures
        rows.contains(y as usize),
{
    lemma_dirty_row_list_contains(dirty, y);
    let list = dirty_row_list(dirty);
    let i = choose|i: int| 0 <= i < list.len() && list[i] == y;
    assert(rows.map_values(|u: usize| u as int)[i] == y);
    assert(rows[i] as int == y);
    assert(rows[i] == y as usize);
}

/// After a flush whose every transmitted row was acknowledged, no row stays
/// marked dirty: acknowledging all the flagged rows leaves an all-clean
/// buffer, whose row listing is empty.
pub proof fn lemma_ack_all_leaves_clean(dirty: Seq<bool>, acked: Seq<usize>, after: Seq<bool>)
    requires
        after.len() == dirty.len(),
        forall|y: int|
            0 <= y < dirty.len() ==> after[y] == (dirty[y] && !acked.contains(y as usize)),
        forall|y: int| 0 <= y < dirty.len() && #[trigger] dirty[y] ==> acked.contains(y as usize),
    ensures
        dirty_row_list(after) == Seq::<int>::empty(),
{
    assert(forall|y: int| 0 <= y < after.len() ==> !after[y]);
    lemma_dirty_row_list_empty(after);
}

} // verus!
