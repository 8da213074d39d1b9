//! An HTTP request engine: sparse options resolve to a fixed policy, one
//! client is built from that policy, and each exchange, single or batched,
//! ends in a success value or a classified failure.

pub mod options;
pub mod error;
pub mod request;
pub mod exchange;
pub mod batch;
pub mod client;
