//! A small task-record service over an embedded transactional store.
//!
//! The library holds the record model, an abstract model of the storage
//! gateway's primitives, the start-up decision between creating and opening a
//! store, and the decisions of the domain service's read-then-write
//! operations. The storage engine itself is driven by the caller.
use vstd::prelude::*;


pub mod config;
pub mod error;
pub mod models;
pub mod service;
pub mod store;


