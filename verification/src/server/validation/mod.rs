//! Validation of account data.

pub mod user;
pub mod auth;
