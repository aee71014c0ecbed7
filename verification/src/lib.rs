//! Command ingestion and dispatch pipeline for an interactive shell that
//! drives lookups against a distributed-hash-table node.
//!
//! The verified core covers the pure coordination logic: classifying input
//! lines into commands, the bounded line channel with its backpressure
//! discipline, the dispatcher state machine with its termination protocol,
//! and startup configuration validation. The blocking reads, the async
//! runtime and the node itself live outside this library.

pub mod channel;
pub mod command;
pub mod config;
pub mod dispatcher;
pub mod line;
