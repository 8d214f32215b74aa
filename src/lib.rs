//! A scoped-lifetime bridge between host code and an embedded, garbage
//! collected scripting engine: reference handles to engine slots, registry
//! keys reclaimed by a deferred sweep, scopes that invalidate everything they
//! registered before releasing the host payloads, and a type-keyed app data
//! store with dynamic borrow checking.
pub mod app_data;
pub mod engine;
pub mod error;
pub mod laws;
pub mod registry;
pub mod scope;
pub mod types;
