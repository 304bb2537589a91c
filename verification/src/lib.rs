//! Verified core of the 1D6 REST API: error reporting, caching with
//! expiry, telemetry bookkeeping, request screening and input validation.
//!
//! The `api` module holds the logic of the current API service, the
//! `server` module the logic of the account and mod-hosting server.
//! Shared text helpers live in `text`.

pub mod text;
pub mod language;
pub mod api;
pub mod server;
