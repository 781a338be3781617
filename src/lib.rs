//! Rate limiting for a key/value store: token bucket, leaky bucket, fixed
//! window and sliding window policies over one stored value per subject.
//!
//! The policies decide from what the store holds for a key (its remaining
//! time-to-live, its stored text, the store clock) and hand back the write
//! that an acceptance needs; performing reads and writes is left to the caller.

pub mod algorithm;
pub mod bucket;
pub mod command_parser;
pub mod decimal;
pub mod error;
pub mod laws;
pub mod storage;
pub mod traffic_policy;
