//! A task-list persistence core: typed task records, a fixed session scope,
//! statement builders for an embedded document store, a strict record codec,
//! interpretation of store responses into typed results, and an in-memory
//! task store with verified create/read/list/toggle/delete semantics.

pub mod codec;
pub mod errors;
pub mod ids;
pub mod query;
pub mod response;
pub mod session;
pub mod store;
pub mod task;
