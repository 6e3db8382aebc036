//! A transactional layer over a key-value backing store.
//!
//! Writes are held back in nested contexts. A context can be rolled back, which
//! forgets its writes, or committed, which hands them to the enclosing context or,
//! from the outermost one, to the store. Reads see pending writes first.

pub mod cache_laws;
pub mod edit_log;
pub mod errors;
pub mod key_value_wrapper;
pub mod keyed_map;
pub mod laws;
pub mod operation_laws;
pub mod outcome_laws;
pub mod persisted_log;
pub mod store;
pub mod types;
