//! The sign-in check that request handlers switch on.

pub use crate::server::auth::AuthChecker;
