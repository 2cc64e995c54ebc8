//! A verified alert-evaluation engine for a message-queue monitor.
//!
//! The engine takes a configured list of threshold rules (triggers) and one
//! poll cycle's worth of broker queue statistics, and produces the batch of
//! chat notification messages that cycle calls for: a trigger fires when a
//! stat it applies to strictly exceeds its threshold, and at most one message
//! is emitted per `(queue, field)` pair per cycle.
//!
//! Fetching the statistics from the broker and delivering the messages to the
//! chat webhook are collaborators outside this crate; the engine is pure
//! computation over the values they exchange.

pub mod engine;
pub mod laws;
pub mod model;
pub mod text;
pub mod trigger;
