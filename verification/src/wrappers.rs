//! Clients of the two upstream services: the description provider and the
//! Shakespeare transformer. Each one normalizes its service's failure signals
//! into the shared [`errors::WrapperError`] enumeration before anything
//! downstream sees them.

pub mod errors;
pub mod pokemon;
pub mod shakespeare;
