//! Client-side protocol of a remote proving service: submission, polling under
//! a bounded budget, and aggregation of batch status summaries.

pub mod batch;
pub mod config;
pub mod endpoint;
pub mod jitter;
pub mod outcome;
pub mod prover;
pub mod record;
pub mod single;
pub mod status;
pub mod summary;
