//! Library behind a small HTTP aggregation service: given the name of a
//! pokemon, fetch its flavor text from one upstream service, have a second
//! upstream service restate it in Shakespearean English, and reply with the
//! composed result.
//!
//! Everything that decides or computes lives here, verified: text
//! normalization, the interpretation of each upstream response, the
//! orchestration of the two calls, the mapping of failures onto HTTP replies,
//! the JSON bodies the service sends, and the planning of per-request log
//! records. The surrounding process (routes, sockets, the actual HTTP
//! traffic) stays outside the library.


pub mod controllers;
pub mod json;
pub mod middlewares;
pub mod response;
pub mod server;
pub mod text;
pub mod wrappers;
