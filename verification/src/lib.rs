//! Core of a client for a distributed, log-structured message broker.
//!
//! The crate models the client-side producer pipeline: protocol error
//! classification, retry with exponential backoff, the broker metadata
//! cache with its monotone generation counter, the controller client, and
//! the batching producer with its aggregator and one-shot result slot.
//!
//! All network transports are abstractions: callers provide them through
//! traits, which is also how the test suite injects mock brokers.

pub mod backoff;
pub mod client;
pub mod connector;
pub mod protocol;
pub mod record;
