use vstd::prelude::*;

verus! {

/// The single error kind of this layer: a failure of the storage engine,
/// carried with the engine's own description of it.
#[derive(Debug, Clone, PartialEq, Eq)]
pub enum TsError {
    DbError(String),
}

impl TsError {
    /// The engine's description of the failure.
    pub fn message(&self) -> (r: String)
        ensures
            match self {
                TsError::DbError(m) => r@ == m@,
            },
    {
        match self {
            TsError::DbError(m) => m.clone(),
        }
    }
}

} // verus!
