//! Credential hashing and session tokens.

pub mod password;
pub mod jwt;
