//! Durable, resumable task outputs: a key-value store of JSON texts, a
//! shared context that counts completed tasks, and the protocol by which a
//! task first looks for its own persisted output and otherwise runs and
//! persists it.
mod context;
mod durable;
mod error;
mod store;

pub use context::Context;
pub use durable::{
    finish_extract, finish_run, finish_run_result, persist_and_mark, try_cached_and_mark,
};
pub use error::DuraflowError;
pub use store::{sanitize_key, MemoryStore, Storage};
