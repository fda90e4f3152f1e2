use vstd::prelude::*;
use crate::models::TodoView;

verus! {

/// The contents of a store: each primary key mapped to the record stored
/// under it.
pub type StoreView = Map<Seq<char>, TodoView>;

/// Every record is stored under its own identifier.
pub open spec fn well_keyed(s: StoreView) -> bool {
    forall|k: Seq<char>| #[trigger] s.contains_key(k) ==> s[k].id == k
}

/// A valid store: finitely many records, each under its own identifier.
pub open spec fn store_wf(s: StoreView) -> bool {
    s.dom().finite() && well_keyed(s)
}

/// A freshly opened volatile store holds nothing.
pub open spec fn empty_store() -> StoreView {
    Map::empty()
}

/// Point lookup by primary key; absence is not a failure.
pub open spec fn lookup(s: StoreView, id: Seq<char>) -> Option<TodoView> {
    if s.contains_key(id) {
        Some(s[id])
    } else {
        None
    }
}

/// Number of records that a full scan yields.
pub open spec fn record_count(s: StoreView) -> nat {
    s.dom().len()
}

/// Insert of a new record: refused when its key is already taken, in which
/// case nothing is written (`None`).
pub open spec fn insert_outcome(s: StoreView, t: TodoView) -> Option<StoreView> {
    if s.contains_key(t.id) {
        None
    } else {
        Some(s.insert(t.id, t))
    }
}

/// Replace by value: the stored record under `old.id` must be exactly `old`,
/// and a changed key must not collide with another record.
pub open spec fn replace_outcome(s: StoreView, old: TodoView, new: TodoView) -> Option<StoreView> {
    if s.contains_key(old.id) && s[old.id] == old && (new.id == old.id || !s.contains_key(new.id)) {
        Some(s.remove(old.id).insert(new.id, new))
    } else {
        None
    }
}

/// Removal of the record under the given value's primary key; refused when no
/// record is stored there.
pub open spec fn remove_outcome(s: StoreView, t: TodoView) -> Option<StoreView> {
    if s.contains_key(t.id) {
        Some(s.remove(t.id))
    } else {
        None
    }
}

} // verus!
