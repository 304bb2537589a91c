//! Logic of the API service.

pub mod online;
pub mod errors;
pub mod cache;
pub mod stats;
pub mod dates;
pub mod defaults;
pub mod mods;
pub mod gdpr;
pub mod env;
pub mod telemetry;
