//! The request handlers' decision logic: what each route replies, given what
//! the upstream clients reported.

pub mod health_check;
pub mod pokemon;
