use vstd::prelude::*;

verus! {

/// A task record as the contracts see it.
pub struct TodoView {
    pub id: Seq<char>,
    pub title: Seq<char>,
    pub note: Option<Seq<char>>,
    pub completed: bool,
}

/// A stored task record; `id` is its primary key.
#[derive(Debug, Clone, PartialEq, Eq)]
pub struct Todo {
    pub id: String,
    pub title: String,
    pub note: Option<String>,
    pub completed: bool,
}

/// A request to create a task record; it has no identity of its own.
#[derive(Debug, Clone, PartialEq, Eq)]
pub struct NewTodo {
    pub title: String,
    pub note: Option<String>,
    pub completed: bool,
}

pub open spec fn note_view(n: Option<String>) -> Option<Seq<char>> {
    match n {
        Some(s) => Some(s@),
        None => None,
    }
}

/// A lowercase hexadecimal digit.
pub open spec fn is_lower_hex(c: char) -> bool {
    ('0' <= c && c <= '9') || ('a' <= c && c <= 'f')
}

/// The shape of a generated identifier: 32 lowercase hexadecimal digits.
pub open spec fn is_record_id(id: Seq<char>) -> bool {
    id.len() == 32 && forall|i: int| 0 <= i < id.len() ==> #[trigger] is_lower_hex(id[i])
}

/// The record that a request becomes under a given identifier.
pub open spec fn record_of(id: Seq<char>, n: NewTodo) -> TodoView {
    TodoView { id, title: n.title@, note: note_view(n.note), completed: n.completed }
}

/// The record with its completion flag set and every other field kept.
pub open spec fn completed_view(t: TodoView) -> TodoView {
    TodoView { completed: true, ..t }
}

impl View for Todo {
    type V = TodoView;

    open spec fn view(&self) -> TodoView {
        TodoView {
            id: self.id@,
            title: self.title@,
            note: note_view(self.note),
            completed: self.completed,
        }
    }
}

fn copy_note(n: &Option<String>) -> (r: Option<String>)
    ensures
        note_view(r) == note_view(*n),
{
    match n {
        Some(s) => Some(s.clone()),
        None => None,
    }
}

/// Relies on uuid's `Uuid::now_v7` and its simple format: a version 7 UUID
/// drawn from the current time, written as 32 lowercase hexadecimal digits.
#[verifier::external_body]
fn fresh_record_id() -> (r: String)
    ensures
        is_record_id(r@),
{
    uuid::Uuid::now_v7().as_simple().to_string()
}

impl NewTodo {
    /// A request with the given title, no note, not completed.
    pub fn titled(title: String) -> (r: NewTodo)
        ensures
            r.title@ == title@,
            r.note.is_none(),
            !r.completed,
    {
        NewTodo { title, note: None, completed: false }
    }
}

impl Default for NewTodo {
    fn default() -> (r: NewTodo)
        ensures
            r.title@.len() == 0,
            r.note.is_none(),
            !r.completed,
    {
        NewTodo { title: String::new(), note: None, completed: false }
    }
}

impl Todo {
    /// Builds the record that `new_todo` describes under the identifier `id`.
    pub fn with_id(id: String, new_todo: NewTodo) -> (r: Todo)
        ensures
            r@ == record_of(id@, new_todo),
    {
        Todo { id, title: new_todo.title, note: new_todo.note, completed: new_todo.completed }
    }

    /// Builds a record from a request under a freshly generated, time-ordered
    /// identifier.
    pub fn from_new(new_todo: NewTodo) -> (r: Todo)
        ensures
            is_record_id(r.id@),
            r@ == record_of(r.id@, new_todo),
    {
        let id = fresh_record_id();
        Todo::with_id(id, new_todo)
    }

    /// A field-for-field copy of the record.
    pub fn duplicate(&self) -> (r: Todo)
        ensures
            r@ == self@,
    {
        Todo {
            id: self.id.clone(),
            title: self.title.clone(),
            note: copy_note(&self.note),
            completed: self.completed,
        }
    }

    /// A copy of the record marked completed, every other field kept.
    pub fn as_completed(&self) -> (r: Todo)
        ensures
            r@ == completed_view(self@),
    {
        Todo {
            id: self.id.clone(),
            title: self.title.clone(),
            note: copy_note(&self.note),
            completed: true,
        }
    }
}

} // verus!
