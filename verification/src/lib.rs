//! Core of an accelerator layer that sits in front of a blockchain
//! validator's query interface.
//!
//! The library holds the verified ingestion pipeline: a cache of the latest
//! known block per durability tier with a bounded recent-history index
//! ([`block_store`]), the derivation of per-transaction and per-block facts
//! from fetched block data ([`block_processor`]), the byte format of the
//! compute-budget program's instructions ([`compute_budget`]), bounded
//! multi-consumer notification topics with a drop-oldest overflow policy
//! ([`fanout`]), the decisions of the polling jobs and of the supervisor
//! ([`poller`]), and the ordered fallback chain that picks the process
//! identity source ([`identity`]).
//!
//! Network transport, scheduling and persistence stay outside: callers
//! fetch upstream data themselves and hand the plain values to this crate.

pub mod block_processor;
pub mod block_store;
pub mod compute_budget;
pub mod fanout;
pub mod identity;
pub mod poller;
