//! Storage engine that keeps the values of a hierarchical key-expression
//! namespace as objects of a flat, bucket-based object store.
//!
//! The crate holds the decisions of the engine: how keys are translated, what
//! is asked of the store for each operation, and what each answer of the store
//! means. Talking to the store itself is left to the caller.

pub mod config;
pub mod dispatch;
pub mod error;
pub mod key_expr;
pub mod key_translation;
pub mod listing;
pub mod metadata;
pub mod storage;
pub mod store;
pub mod text;
pub mod timestamp;
pub mod volume;
