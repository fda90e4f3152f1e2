use vstd::prelude::*;

verus! {

/// Where the store lives.
#[derive(Debug, Clone, PartialEq, Eq)]
pub enum DbType {
    /// A new, empty, volatile store.
    InMemory,
    /// A persistent store at a filesystem path.
    File(String),
}

/// How the service is set up.
#[derive(Debug, Clone, PartialEq, Eq)]
pub struct Config {
    pub db_type: DbType,
}

/// What to do at start-up to obtain a store handle.
#[derive(Debug, Clone, PartialEq, Eq)]
pub enum OpenMode {
    /// Open a volatile store.
    InMemory,
    /// Initialise a new persistent store at the path.
    Create(String),
    /// Open the existing persistent store at the path.
    Open(String),
}

impl Default for DbType {
    fn default() -> (r: DbType)
        ensures
            r == DbType::InMemory,
    {
        DbType::InMemory
    }
}

impl Default for Config {
    fn default() -> (r: Config)
        ensures
            r.db_type == DbType::InMemory,
    {
        Config { db_type: DbType::InMemory }
    }
}

impl Config {
    /// The start-up decision: a volatile store for `InMemory`; for a path,
    /// open it when something already exists there (`path_exists`), create it
    /// otherwise.
    pub fn open_mode(&self, path_exists: bool) -> (r: OpenMode)
        ensures
            match self.db_type {
                DbType::InMemory => r == OpenMode::InMemory,
                DbType::File(p) => match r {
                    OpenMode::Open(q) => path_exists && q@ == p@,
                    OpenMode::Create(q) => !path_exists && q@ == p@,
                    OpenMode::InMemory => false,
                },
            },
    {
        match &self.db_type {
            DbType::InMemory => OpenMode::InMemory,
            DbType::File(p) => {
                if path_exists {
                    OpenMode::Open(p.clone())
                } else {
                    OpenMode::Create(p.clone())
                }
            },
        }
    }
}

} // verus!
