//! Sharded mailbox polling: the partition rule that splits an inbox between
//! cooperating workers, the bounded-concurrency dispatcher and poll cycle,
//! the per-message classify-then-notify decisions, the reading of fetched
//! messages, and the store behind the service's HTTP interface.
pub mod alert;
pub mod api;
pub mod classify;
pub mod dispatch;
pub mod mail;
pub mod mime;
pub mod rules;
pub mod shard;
pub mod store;
pub mod text;
