//! A transaction coordinator for SQLite files, as a library of decisions.
//!
//! The coordinator serves clients that open read and write transactions on
//! database files and run statements in them. For each file it keeps the
//! live read transactions, one slot for a write transaction, and a queue of
//! requests that wait for that slot, first in, first out.
//!
//! Nothing here talks to SQLite, to the file system or to a channel. Each
//! function takes what the driver or the event loop observed and says what
//! it means: what the registry holds afterwards, what is replied, and what
//! is to be done next.

/// The table of result codes.
pub mod errmap;
/// Result codes classified.
pub mod err;
/// A map keyed by strings, in insertion order.
pub mod strmap;
/// Operations on text.
pub mod text;
/// The shape of identifiers, and fresh ones.
pub mod utils;
/// The placeholders of a statement.
pub mod placeholder;
/// Statements: values, binding rules, result sets.
pub mod stmt;
/// Connections.
pub mod db;
/// Transactions on one connection.
pub mod sma;
/// Requests and replies.
pub mod messages;
/// The registry of live transactions.
pub mod active_txs;
/// The event loop's decisions.
pub mod runtime;
/// One file's states, step by step.
pub mod line;
/// Requests off the wire.
pub mod json_in;
/// Replies onto the wire.
pub mod json_out;
/// The synchronous side of the host boundary.
pub mod iop;
