//! The per-request middleware chain's decision logic: correlation-ID
//! assignment and the planning of structured log records.

pub mod logger;
