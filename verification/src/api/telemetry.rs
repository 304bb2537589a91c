//! What the website telemetry route records about the client.

use vstd::prelude::*;
use crate::api::errors::ApiErrors;

verus! {

/// The user agent recorded when the request carries none.
pub const NO_USER_AGENT: &'static str = "User Agent Not Received";

/// The user agent to record for a request whose `User-Agent` header is
/// `header`: `None` when the header is missing, else the outcome of
/// reading it as visible ASCII (the reason on failure). A missing header
/// is recorded as `NO_USER_AGENT`; an unreadable one refuses the request
/// with an unknown error carrying the reason.
pub fn recorded_user_agent<'h>(header: Option<Result<&'h str, String>>) -> (r: Result<&'h str, ApiErrors<'static>>)
    ensures
        match header {
            None => r matches Ok(agent) && agent@ == NO_USER_AGENT@,
            Some(Ok(agent)) => r == Ok::<&'h str, ApiErrors<'static>>(agent),
            Some(Err(reason)) => r matches Err(ApiErrors::UnknownError(m)) && m@ == reason@,
        },
{
    match header {
        None => Ok(NO_USER_AGENT),
        Some(Ok(agent)) => Ok(agent),
        Some(Err(reason)) => Err(ApiErrors::UnknownError(reason)),
    }
}

} // verus!
