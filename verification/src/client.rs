//! Client-side producer pipeline: error model, aggregation, the one-shot
//! result slot, the retry envelope, the controller client and the batching
//! producer.

pub mod aggregator;
pub mod broadcast;
pub mod controller;
pub mod error;
pub mod producer;
pub mod retry;
