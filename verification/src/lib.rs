//! Authentication primitives for an HTTP API: an error taxonomy with its
//! response mapping, password hashing and verification, and signed session
//! tokens.
//!
//! Every function here is synchronous and free of I/O. Callers that serve
//! requests concurrently run the password functions on a worker pool.

pub mod errors;
pub mod utils;
pub mod config;
pub mod models;
