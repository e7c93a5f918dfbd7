//! Resilient publishing to and consuming from a partitioned message broker.
//!
//! The library holds the decisions of the messaging core, each with its
//! contract: bounded retry for bootstrap and per-message sends, the ordered
//! buffer of the batching publisher, the running flag and poll-loop rules of
//! the subscriber, configuration defaults and the broker client settings, and
//! an in-memory per-aggregate event log.
pub mod batching;
pub mod config;
pub mod consumer;
pub mod errors;
pub mod event_store;
pub mod message;
pub mod retry;
pub mod settings;
pub mod startup;
pub mod validation;
