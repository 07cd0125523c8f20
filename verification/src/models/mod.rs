//! Request payloads.

pub mod auth;
