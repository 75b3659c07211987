//! A concurrency-friendly cache of entries that expire.
//!
//! Keys are routed to one of a fixed number of shards, each behind its own
//! reader-writer lock. Every entry carries the instant at which it expires;
//! expired entries are detected only when they are read. The decisions of the
//! compute-if-absent protocol are a small state machine in [`fill`].

pub mod fill;
pub mod item;
pub mod shard;
pub mod sharded_map;

pub use fill::{FillAction, FillEvent, FillPhase};
pub use item::Item;
pub use shard::Shard;
pub use sharded_map::ShardedMap;
