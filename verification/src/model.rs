use vstd::math::{max, min};
use vstd::prelude::*;

use crate::settings::RecordView;

verus! {

/// Whether some live record carries the identifier.
pub open spec fn contains_id(store: Seq<RecordView>, id: u128) -> bool {
    exists|i: int| 0 <= i < store.len() && store[i].id == id
}

/// The position of the record carrying the identifier; meaningful only
/// where `contains_id` holds and identifiers are unique.
pub open spec fn index_of_id(store: Seq<RecordView>, id: u128) -> int {
    choose|i: int| 0 <= i < store.len() && store[i].id == id
}

/// The store's invariant: identifiers are unique across live records.
pub open spec fn wf_store(store: Seq<RecordView>) -> bool {
    forall|i: int, j: int| 0 <= i < j < store.len() ==> store[i].id != store[j].id
}

/// What a lookup by identifier yields: the record, or nothing.
pub open spec fn find_in_store(store: Seq<RecordView>, id: u128) -> Option<RecordView> {
    if contains_id(store, id) {
        Some(store[index_of_id(store, id)])
    } else {
        None
    }
}

/// Creation prepends: the new record is the most recently modified.
pub open spec fn store_after_create(store: Seq<RecordView>, r: RecordView) -> Seq<RecordView> {
    store.insert(0, r)
}

/// Deletion removes the record carrying the identifier, if any; deleting
/// an absent identifier leaves the store unchanged.
pub open spec fn store_after_delete(store: Seq<RecordView>, id: u128) -> Seq<RecordView> {
    if contains_id(store, id) {
        store.remove(index_of_id(store, id))
    } else {
        store
    }
}

/// An update replaces the record's payload and, having refreshed its
/// modification time, moves it to the front; an absent identifier leaves
/// the store unchanged.
pub open spec fn store_after_update(
    store: Seq<RecordView>,
    id: u128,
    data: Seq<char>,
) -> Seq<RecordView> {
    if contains_id(store, id) {
        store_after_delete(store, id).insert(0, RecordView { id, data })
    } else {
        store
    }
}

/// The page listing returns: the slice [offset, offset + limit) of the
/// store, both bounds clamped to the store's length.
pub open spec fn page_of_store(store: Seq<RecordView>, limit: int, offset: int) -> Seq<
    RecordView,
> {
    let lo = if offset <= store.len() {
        offset
    } else {
        store.len() as int
    };
    let hi = if offset + limit <= store.len() {
        offset + limit
    } else {
        store.len() as int
    };
    if lo <= hi {
        store.subrange(lo, hi)
    } else {
        store.subrange(lo, lo)
    }
}

/// With unique identifiers, any position holding the identifier is the
/// chosen one.
pub proof fn lemma_index_unique(store: Seq<RecordView>, id: u128, i: int)
    requires
        wf_store(store),
        0 <= i < store.len(),
        store[i].id == id,
    ensures
        contains_id(store, id),
        index_of_id(store, id) == i,
{
    assert(contains_id(store, id));
    let j = index_of_id(store, id);
    if i < j {
        assert(store[i].id != store[j].id);
    }
    if j < i {
        assert(store[j].id != store[i].id);
    }
}

/// Creating under a fresh identifier keeps identifiers unique.
pub proof fn lemma_wf_create(store: Seq<RecordView>, r: RecordView)
    requires
        wf_store(store),
        !contains_id(store, r.id),
    ensures
        wf_store(store_after_create(store, r)),
{
    let m = store_after_create(store, r);
    assert forall|i: int, j: int| 0 <= i < j < m.len() implies m[i].id != m[j].id by {
        if i == 0 {
            assert(m[j] == store[j - 1]);
            assert(!(store[j - 1].id == r.id));
        } else {
            assert(m[i] == store[i - 1]);
            assert(m[j] == store[j - 1]);
        }
    }
}

/// After a deletion the identifier is gone, every other record stays in
/// order, and identifiers remain unique.
pub proof fn lemma_delete_removes(store: Seq<RecordView>, id: u128)
    requires
        wf_store(store),
    ensures
        wf_store(store_after_delete(store, id)),
        !contains_id(store_after_delete(store, id), id),
{
    if contains_id(store, id) {
        let k = index_of_id(store, id);
        let m = store.remove(k);
        assert forall|i: int, j: int| 0 <= i < j < m.len() implies m[i].id != m[j].id by {
            let i0 = if i < k {
                i
            } else {
                i + 1
            };
            let j0 = if j < k {
                j
            } else {
                j + 1
            };
            assert(m[i] == store[i0]);
            assert(m[j] == store[j0]);
        }
        assert forall|i: int| 0 <= i < m.len() implies m[i].id != id by {
            let i0 = if i < k {
                i
            } else {
                i + 1
            };
            assert(m[i] == store[i0]);
            if i0 != k && store[i0].id == id {
                lemma_index_unique(store, id, i0);
            }
        }
    }
}

/// An update keeps identifiers unique.
pub proof fn lemma_wf_update(store: Seq<RecordView>, id: u128, data: Seq<char>)
    requires
        wf_store(store),
    ensures
        wf_store(store_after_update(store, id, data)),
{
    if contains_id(store, id) {
        lemma_delete_removes(store, id);
        lemma_wf_create(store_after_delete(store, id), RecordView { id, data });
        assert(store_after_update(store, id, data) == store_after_create(
            store_after_delete(store, id),
            RecordView { id, data },
        ));
    }
}

/// Round-trip: a record created under a fresh identifier stands first and
/// is found again, unchanged, by that identifier.
pub proof fn lemma_create_round_trip(store: Seq<RecordView>, r: RecordView)
    requires
        wf_store(store),
        !contains_id(store, r.id),
    ensures
        store_after_create(store, r)[0] == r,
        find_in_store(store_after_create(store, r), r.id) == Some(r),
{
    let m = store_after_create(store, r);
    assert(m[0] == r);
    lemma_wf_create(store, r);
    lemma_index_unique(m, r.id, 0);
}

/// Idempotent delete: deleting the same identifier twice leaves the store
/// exactly as deleting it once, whether or not it was ever present. (That
/// both calls succeed is the port's delete contract, which owes `Ok` in
/// every case.)
pub proof fn lemma_delete_idempotent(store: Seq<RecordView>, id: u128)
    requires
        wf_store(store),
    ensures
        store_after_delete(store_after_delete(store, id), id) == store_after_delete(store, id),
{
    lemma_delete_removes(store, id);
}

/// A missing identifier reads as absent and updates nothing.
pub proof fn lemma_missing_id(store: Seq<RecordView>, id: u128, data: Seq<char>)
    requires
        !contains_id(store, id),
    ensures
        (find_in_store(store, id) is None),
        store_after_update(store, id, data) == store,
{
}

/// Pagination bounds and order: for a store of N records and any
/// non-negative limit and offset, the page holds min(limit, max(0, N -
/// offset)) records and shows the store — most recently modified first —
/// verbatim from the offset, while the port's find_all contract returns N
/// as `total` regardless of the parameters.
pub proof fn lemma_page_bounds(store: Seq<RecordView>, limit: int, offset: int)
    requires
        0 <= limit,
        0 <= offset,
    ensures
        page_of_store(store, limit, offset).len() == min(limit, max(0, store.len() - offset)),
        forall|k: int|
            0 <= k < page_of_store(store, limit, offset).len() ==> #[trigger] page_of_store(
                store,
                limit,
                offset,
            )[k] == store[offset + k],
{
}

/// Ordering: an updated record moves to the front, so a subsequent listing
/// of the first page shows it before everything else.
pub proof fn lemma_update_moves_front(store: Seq<RecordView>, id: u128, data: Seq<char>)
    requires
        wf_store(store),
        contains_id(store, id),
    ensures
        store_after_update(store, id, data)[0] == (RecordView { id, data }),
        page_of_store(store_after_update(store, id, data), 1, 0) == seq![(RecordView { id, data })],
{
    let m = store_after_update(store, id, data);
    assert(page_of_store(m, 1, 0) =~= seq![RecordView { id, data }]);
}

/// Update preserves identity: the record keeps the matched identifier, and
/// a later lookup by that identifier yields the new payload.
pub proof fn lemma_update_preserves_identity(store: Seq<RecordView>, id: u128, data: Seq<char>)
    requires
        wf_store(store),
        contains_id(store, id),
    ensures
        find_in_store(store_after_update(store, id, data), id) == Some((RecordView { id, data })),
{
    let m = store_after_update(store, id, data);
    lemma_wf_update(store, id, data);
    assert(m[0] == RecordView { id, data });
    lemma_index_unique(m, id, 0);
}

} // verus!
