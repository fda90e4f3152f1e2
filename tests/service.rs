use ts::error::TsError;
use ts::models::{NewTodo, Todo};
use ts::service::{complete_step, delete_step, prepare_todo, Step};

/// A store that follows the gateway's rules, for driving the service's steps.
struct MemStore {
    rows: Vec<Todo>,
}

impl MemStore {
    fn new() -> MemStore {
        MemStore { rows: Vec::new() }
    }

    fn insert(&mut self, t: Todo) -> Result<(), TsError> {
        if self.rows.iter().any(|r| r.id == t.id) {
            return Err(TsError::DbError("Duplicate key".to_string()));
        }
        self.rows.push(t);
        self.rows.sort_by(|a, b| a.id.cmp(&b.id));
        Ok(())
    }

    fn get(&self, id: &str) -> Result<Option<Todo>, TsError> {
        Ok(self.rows.iter().find(|r| r.id == id).cloned())
    }

    fn list(&self) -> Result<Vec<Todo>, TsError> {
        Ok(self.rows.clone())
    }

    fn run(&mut self, step: Step) -> Result<(), TsError> {
        match step {
            Step::Replace(old, new) => {
                let pos = self.rows.iter().position(|r| *r == old);
                match pos {
                    Some(i) => {
                        self.rows[i] = new;
                        Ok(())
                    }
                    None => Err(TsError::DbError("Incorrect input data".to_string())),
                }
            }
            Step::Remove(t) => {
                let pos = self.rows.iter().position(|r| r.id == t.id);
                match pos {
                    Some(i) => {
                        self.rows.remove(i);
                        Ok(())
                    }
                    None => Err(TsError::DbError("Key not found".to_string())),
                }
            }
            Step::Finish(r) => r,
        }
    }

    fn create(&mut self, n: NewTodo) -> Result<Todo, TsError> {
        let t = prepare_todo(n);
        self.insert(t.clone())?;
        Ok(t)
    }

    fn complete(&mut self, id: &str) -> Result<(), TsError> {
        let step = complete_step(self.get(id));
        self.run(step)
    }

    fn delete(&mut self, id: &str) -> Result<(), TsError> {
        let step = delete_step(self.get(id));
        self.run(step)
    }
}

fn sample() -> Todo {
    Todo { id: "k1".to_string(), title: "t".to_string(), note: Some("n".to_string()), completed: false }
}

#[test]
fn complete_step_replaces_with_completed_copy() {
    match complete_step(Ok(Some(sample()))) {
        Step::Replace(old, new) => {
            assert_eq!(old, sample());
            assert_eq!(new, Todo { completed: true, ..sample() });
        }
        other => panic!("unexpected step {:?}", other),
    }
}

#[test]
fn complete_step_absent_is_noop() {
    assert!(matches!(complete_step(Ok(None)), Step::Finish(Ok(()))));
}

#[test]
fn complete_step_passes_lookup_error() {
    let e = TsError::DbError("io".to_string());
    match complete_step(Err(e.clone())) {
        Step::Finish(Err(got)) => assert_eq!(got, e),
        other => panic!("unexpected step {:?}", other),
    }
}

#[test]
fn delete_step_removes_found_record() {
    match delete_step(Ok(Some(sample()))) {
        Step::Remove(t) => assert_eq!(t, sample()),
        other => panic!("unexpected step {:?}", other),
    }
}

#[test]
fn delete_step_absent_is_noop() {
    assert!(matches!(delete_step(Ok(None)), Step::Finish(Ok(()))));
}

#[test]
fn delete_step_passes_lookup_error() {
    let e = TsError::DbError("io".to_string());
    match delete_step(Err(e.clone())) {
        Step::Finish(Err(got)) => assert_eq!(got, e),
        other => panic!("unexpected step {:?}", other),
    }
}

#[test]
fn prepare_todo_keeps_request() {
    let t = prepare_todo(NewTodo { title: "goof".to_string(), note: Some("bar".to_string()), completed: false });
    assert_eq!(t.id.len(), 32);
    assert_eq!(t.title, "goof");
    assert_eq!(t.note, Some("bar".to_string()));
    assert!(!t.completed);
}

#[test]
fn create_then_list_and_complete_scenario() {
    let mut s = MemStore::new();
    let foo = s.create(NewTodo { title: "foo".to_string(), ..Default::default() }).unwrap();
    let goof = s
        .create(NewTodo { title: "goof".to_string(), note: Some("bar".to_string()), ..Default::default() })
        .unwrap();
    let all = s.list().unwrap();
    assert_eq!(all.len(), 2);
    assert_eq!(all[0], foo);
    assert_eq!(all[1], goof);
    assert_eq!(all[0].title, "foo");
    assert_eq!(all[0].note, None);
    assert_eq!(all[1].title, "goof");
    assert_eq!(all[1].note, Some("bar".to_string()));
    assert!(all.iter().all(|t| !t.completed));

    s.complete(&foo.id).unwrap();
    assert!(s.get(&foo.id).unwrap().unwrap().completed);
    assert_eq!(s.get(&goof.id).unwrap().unwrap(), goof);
}

#[test]
fn create_many_counts_and_get_round_trips() {
    let mut s = MemStore::new();
    let mut made = Vec::new();
    for i in 0..5 {
        made.push(s.create(NewTodo::titled(format!("todo {}", i))).unwrap());
    }
    assert_eq!(s.list().unwrap().len(), 5);
    for t in &made {
        assert!(!t.id.is_empty());
        assert_eq!(s.get(&t.id).unwrap(), Some(t.clone()));
    }
}

#[test]
fn duplicate_id_insert_is_refused() {
    let mut s = MemStore::new();
    let t = prepare_todo(NewTodo::titled("a".to_string()));
    s.insert(t.clone()).unwrap();
    assert!(s.insert(t).is_err());
    assert_eq!(s.list().unwrap().len(), 1);
}

#[test]
fn complete_missing_is_noop() {
    let mut s = MemStore::new();
    let t = s.create(NewTodo::titled("a".to_string())).unwrap();
    s.complete("nope").unwrap();
    assert_eq!(s.list().unwrap(), vec![t]);
}

#[test]
fn delete_twice_is_noop() {
    let mut s = MemStore::new();
    let t = s.create(NewTodo::titled("a".to_string())).unwrap();
    s.delete(&t.id).unwrap();
    assert_eq!(s.get(&t.id).unwrap(), None);
    s.delete(&t.id).unwrap();
    assert_eq!(s.list().unwrap().len(), 0);
}

#[test]
fn stale_replace_is_refused() {
    let mut s = MemStore::new();
    let t = s.create(NewTodo::titled("a".to_string())).unwrap();
    let stale = Todo { title: "other".to_string(), ..t.clone() };
    let step = complete_step(Ok(Some(stale)));
    assert!(s.run(step).is_err());
    assert_eq!(s.get(&t.id).unwrap(), Some(t));
}
