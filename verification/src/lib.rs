//! Client-side routing core for a sharded, group-replicated key-value store.
//!
//! A *group* is a consensus-replicated unit that hosts one or more *shards*,
//! each owning a half-open byte range of a table. The heart of this crate is
//! the group client: the retry and routing state machine that turns a logical
//! (group, shard, key) operation into a sequence of attempts addressed to the
//! right node, reacting to leadership changes, membership-epoch mismatches,
//! and transport faults while preserving idempotency classes.
//!
//! All decision logic is verified; the asynchronous plumbing that performs
//! the actual network calls lives outside and drives these state transitions.

pub mod ascii;
pub mod ast;
pub mod data;
pub mod error;
pub mod group_client;
pub mod migrate;
pub mod report;
pub mod request;
pub mod response;
pub mod schema;
pub mod shard;
pub mod snapshot;
pub mod stmt;
pub mod text;
