//! Stdio transport for a language-server-protocol engine.
//!
//! The transport owns two concurrent loops: a reader that decodes framed
//! messages from an input stream and forwards them to the engine over an
//! inbound channel, and a writer that drains an outbound channel and writes
//! each message to an output stream. A shutdown coordinator aggregates the
//! two loops' terminal outcomes.
//!
//! This crate verifies the transport's decision logic: the per-iteration
//! state transitions of both loops, the shutdown aggregation policy, and the
//! sequence-level forwarding guarantees. The blocking stream I/O and the
//! thread plumbing that drive these decisions live outside the library.

pub mod channel;
pub mod coordinator;
pub mod message;
pub mod outcome;
pub mod reader;
pub mod writer;
