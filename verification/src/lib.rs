//! An in-memory mailbox for exercising relayers and validators without a
//! chain: the canonical message envelope, its content-addressed identifier,
//! checkpoints over the outbound history, and at-most-once delivery.
//!
//! Every function states what it returns and changes over a mathematical
//! model of the mailbox (`state`), and the properties that tie the calls
//! together are proved once and for all (`laws`). The only code taken on
//! trust is the Keccak-256 implementation of the `sha3` crate (`hashing`).

pub mod checkpoint;
pub mod codec;
pub mod error;
pub mod hashing;
pub mod laws;
pub mod lifecycle;
pub mod mailbox;
pub mod message;
pub mod primitives;
pub mod state;
pub mod transaction;
