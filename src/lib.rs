//! Client-side handles for PostgreSQL advisory locks.
//!
//! The library decides which statement each lock operation sends and with
//! which bound key; running the statement is left to the caller's database
//! client.

pub mod info;
pub mod lock;
pub mod query;

pub use info::DistributedLockInfo;
pub use lock::DistributedLock;
pub use query::{build_query, LockType, Query};
