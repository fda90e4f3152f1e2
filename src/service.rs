use vstd::prelude::*;
use crate::error::TsError;
use crate::models::{Todo, TodoView, NewTodo, completed_view, is_record_id, record_of};
use crate::store::{StoreView, store_wf, empty_store, lookup, record_count, insert_outcome, replace_outcome, remove_outcome};

verus! {

/// The next thing a read-then-write operation asks of the storage gateway,
/// or its final result.
#[derive(Debug)]
pub enum Step {
    /// Swap the stored record `old` for `new` in one read-write transaction.
    Replace(Todo, Todo),
    /// Remove the stored record in one read-write transaction.
    Remove(Todo),
    /// The operation is over with this result.
    Finish(Result<(), TsError>),
}

pub enum StepView {
    Replace(TodoView, TodoView),
    Remove(TodoView),
    Finish(Result<(), TsError>),
}

impl View for Step {
    type V = StepView;

    open spec fn view(&self) -> StepView {
        match self {
            Step::Replace(o, n) => StepView::Replace(o@, n@),
            Step::Remove(t) => StepView::Remove(t@),
            Step::Finish(r) => StepView::Finish(*r),
        }
    }
}

/// The outcome of a point lookup, as the contracts see it.
pub open spec fn found_view(found: Result<Option<Todo>, TsError>) -> Result<Option<TodoView>, TsError> {
    match found {
        Ok(Some(t)) => Ok(Some(t@)),
        Ok(None) => Ok(None),
        Err(e) => Err(e),
    }
}

/// Completion after the lookup: a failed lookup ends the operation with its
/// error, an absent record ends it successfully with nothing written, and a
/// present record is replaced by its completed copy.
pub open spec fn complete_decision(found: Result<Option<TodoView>, TsError>) -> StepView {
    match found {
        Err(e) => StepView::Finish(Err(e)),
        Ok(None) => StepView::Finish(Ok(())),
        Ok(Some(t)) => StepView::Replace(t, completed_view(t)),
    }
}

/// Deletion after the lookup: a failed lookup ends the operation with its
/// error, an absent record ends it successfully with nothing written, and a
/// present record is removed.
pub open spec fn delete_decision(found: Result<Option<TodoView>, TsError>) -> StepView {
    match found {
        Err(e) => StepView::Finish(Err(e)),
        Ok(None) => StepView::Finish(Ok(())),
        Ok(Some(t)) => StepView::Remove(t),
    }
}

/// What the store becomes when the gateway carries out a step (`None`: the
/// gateway refuses it and nothing is written).
pub open spec fn step_effect(s: StoreView, st: StepView) -> Option<StoreView> {
    match st {
        StepView::Replace(o, n) => replace_outcome(s, o, n),
        StepView::Remove(t) => remove_outcome(s, t),
        StepView::Finish(_) => Some(s),
    }
}

/// The store after creating the record `t`.
pub open spec fn create_effect(s: StoreView, t: TodoView) -> Option<StoreView> {
    insert_outcome(s, t)
}

/// The store after completing the record under `id`.
pub open spec fn complete_effect(s: StoreView, id: Seq<char>) -> Option<StoreView> {
    step_effect(s, complete_decision(Ok(lookup(s, id))))
}

/// The store after deleting the record under `id`.
pub open spec fn delete_effect(s: StoreView, id: Seq<char>) -> Option<StoreView> {
    step_effect(s, delete_decision(Ok(lookup(s, id))))
}

/// The store after creating the records `ts` one after another, or `None` if
/// one of the creations is refused.
pub open spec fn create_all(s: StoreView, ts: Seq<TodoView>) -> Option<StoreView>
    decreases ts.len(),
{
    if ts.len() == 0 {
        Some(s)
    } else {
        match create_all(s, ts.drop_last()) {
            Some(s1) => create_effect(s1, ts.last()),
            None => None,
        }
    }
}

/// The record that a creation request turns into, under a fresh time-ordered
/// identifier; the caller inserts it.
pub fn prepare_todo(new_todo: NewTodo) -> (r: Todo)
    ensures
        is_record_id(r.id@),
        r.id@.len() > 0,
        r@ == record_of(r.id@, new_todo),
{
    Todo::from_new(new_todo)
}

/// Decides how completion goes on once the record under the id was looked up.
pub fn complete_step(found: Result<Option<Todo>, TsError>) -> (r: Step)
    ensures
        r@ == complete_decision(found_view(found)),
{
    match found {
        Err(e) => Step::Finish(Err(e)),
        Ok(None) => Step::Finish(Ok(())),
        Ok(Some(t)) => {
            let updated = t.as_completed();
            Step::Replace(t, updated)
        },
    }
}

/// Decides how deletion goes on once the record under the id was looked up.
pub fn delete_step(found: Result<Option<Todo>, TsError>) -> (r: Step)
    ensures
        r@ == delete_decision(found_view(found)),
{
    match found {
        Err(e) => Step::Finish(Err(e)),
        Ok(None) => Step::Finish(Ok(())),
        Ok(Some(t)) => Step::Remove(t),
    }
}

/// Creating a record succeeds exactly when its identifier is not yet in the
/// store; it then adds one record, stored under that identifier and read back
/// field for field by a lookup, and leaves every other record as it was.
pub proof fn lemma_create_then_get(s: StoreView, t: TodoView)
    requires
        store_wf(s),
    ensures
        create_effect(s, t) is Some <==> !s.contains_key(t.id),
        create_effect(s, t) matches Some(s2) ==> {
            &&& store_wf(s2)
            &&& lookup(s2, t.id) == Some(t)
            &&& record_count(s2) == record_count(s) + 1
            &&& forall|k: Seq<char>| k != t.id ==> #[trigger] lookup(s2, k) == lookup(s, k)
        },
{
    if !s.contains_key(t.id) {
        let s2 = s.insert(t.id, t);
        assert(s2.dom() == s.dom().insert(t.id));
        assert forall|k: Seq<char>| #[trigger] s2.contains_key(k) implies s2[k].id == k by {
            if k != t.id {
                assert(s.contains_key(k));
            }
        }
    }
}

/// Records created one after another in a store all receive identifiers that
/// are pairwise distinct and new to the store, and the store then holds
/// exactly that many records more.
pub proof fn lemma_create_many(s: StoreView, ts: Seq<TodoView>)
    requires
        store_wf(s),
    ensures
        create_all(s, ts) matches Some(s2) ==> {
            &&& store_wf(s2)
            &&& record_count(s2) == record_count(s) + ts.len()
            &&& forall|i: int| 0 <= i < ts.len() ==> !s.contains_key(#[trigger] ts[i].id)
            &&& forall|i: int, j: int| 0 <= i < j < ts.len() ==> ts[i].id != ts[j].id
            &&& forall|i: int| 0 <= i < ts.len() ==> lookup(s2, #[trigger] ts[i].id) is Some
        },
    decreases ts.len(),
{
    if ts.len() > 0 {
        let init = ts.drop_last();
        lemma_create_many(s, init);
        if let Some(s1) = create_all(s, init) {
            lemma_create_then_get(s1, ts.last());
            if let Some(s2) = create_effect(s1, ts.last()) {
                assert forall|i: int| 0 <= i < ts.len() implies !s.contains_key(#[trigger] ts[i].id) by {
                    if i < ts.len() - 1 {
                        assert(ts[i] == init[i]);
                    } else {
                        if s.contains_key(ts[i].id) {
                            assert(lookup(s1, ts[i].id) is Some) by {
                                lemma_store_grows(s, init);
                            }
                        }
                    }
                }
                assert forall|i: int, j: int| 0 <= i < j < ts.len() implies ts[i].id != ts[j].id by {
                    assert(ts[i] == init[i]);
                    if j < ts.len() - 1 {
                        assert(ts[j] == init[j]);
                    } else {
                        assert(lookup(s1, init[i].id) is Some);
                    }
                }
                assert forall|i: int| 0 <= i < ts.len() implies lookup(s2, #[trigger] ts[i].id) is Some by {
                    if i < ts.len() - 1 {
                        assert(ts[i] == init[i]);
                        assert(lookup(s1, init[i].id) is Some);
                    }
                }
            }
        }
    }
}

/// Creating records never takes one away.
proof fn lemma_store_grows(s: StoreView, ts: Seq<TodoView>)
    requires
        store_wf(s),
    ensures
        create_all(s, ts) matches Some(s2) ==> s.dom().subset_of(s2.dom()),
    decreases ts.len(),
{
    if ts.len() > 0 {
        lemma_store_grows(s, ts.drop_last());
    }
}

/// Completing a stored record succeeds, marks it completed with every other
/// field kept, and leaves every other record as it was.
pub proof fn lemma_complete_marks(s: StoreView, id: Seq<char>)
    requires
        store_wf(s),
        s.contains_key(id),
    ensures
        complete_effect(s, id) matches Some(s2) && {
            &&& store_wf(s2)
            &&& lookup(s2, id) == Some(completed_view(s[id]))
            &&& lookup(s2, id).unwrap().completed
            &&& record_count(s2) == record_count(s)
            &&& forall|k: Seq<char>| k != id ==> #[trigger] lookup(s2, k) == lookup(s, k)
        },
{
    let t = s[id];
    let s2 = s.remove(id).insert(id, completed_view(t));
    assert(s2 == s.insert(id, completed_view(t)));
    assert(s2.dom() == s.dom());
    assert forall|k: Seq<char>| #[trigger] s2.contains_key(k) implies s2[k].id == k by {
        if k != id {
            assert(s.contains_key(k));
        }
    }
}

/// Completing an identifier that is not stored succeeds and changes nothing.
pub proof fn lemma_complete_missing(s: StoreView, id: Seq<char>)
    requires
        !s.contains_key(id),
    ensures
        complete_effect(s, id) == Some(s),
{
}

/// Deleting succeeds and leaves no record under the identifier; deleting
/// again succeeds and changes nothing.
pub proof fn lemma_delete_removes(s: StoreView, id: Seq<char>)
    requires
        store_wf(s),
    ensures
        delete_effect(s, id) matches Some(s2) && {
            &&& store_wf(s2)
            &&& s2 == s.remove(id)
            &&& lookup(s2, id) is None
            &&& delete_effect(s2, id) == Some(s2)
            &&& forall|k: Seq<char>| k != id ==> #[trigger] lookup(s2, k) == lookup(s, k)
        },
{
    if !s.contains_key(id) {
        assert(s.remove(id) == s);
    }
}

/// A store that was never written holds nothing under any identifier.
pub proof fn lemma_empty_lookup(id: Seq<char>)
    ensures
        store_wf(empty_store()),
        lookup(empty_store(), id) is None,
        record_count(empty_store()) == 0,
{
    assert(empty_store().dom() == Set::<Seq<char>>::empty());
}

} // verus!
