//! A minimal task-distribution layer over a partitioned append-only log
//! broker: producers publish kind-tagged task envelopes to a topic, and a
//! consumer pulls them in partition order, routes each to a handler by its
//! kind, and commits its offset once the message has resolved.
//!
//! The broker itself (connections, pulling, committing) is driven by the
//! surrounding process; this crate holds the decisions: how a raw payload is
//! classified, how a kind is resolved to a handler, when the consumer may
//! request a commit, and how a create-topic response is interpreted.

pub mod consumer;
pub mod provision;
pub mod publish;
pub mod registry;
pub mod wire;
