//! Logic of the account and mod-hosting server.

pub mod errors;
pub mod telemetry;
pub mod validation;
pub mod ratelimit;
pub mod cache;
pub mod stats;
pub mod auth;
pub mod cdns;
pub mod responses;
pub mod mods;
pub mod user;
