//! Fixed answers of the account server.

use vstd::prelude::*;
use vstd::string::*;
use crate::server::errors::ApiError;

verus! {

/// A link to the documentation of the API.
pub const DOCS_LINK: &'static str = "https://github.com/OneDSix/1d6-api/wiki";

/// The message sent when a condition that cannot happen has happened.
pub const IMPOSSIBLE_CONDITION: &'static str = "An impossible condition has been reached. Please make an issue with whatever you did to cause this on the API's GitHub here: https://github.com/OneDSix/1d6-api";

/// The body of the answer to a request for a route that does not exist.
pub fn not_found() -> (r: ApiError<'static>)
    ensures
        r.error@ == "not_found"@,
        r.description@ == "the requested route does not exist"@,
{
    ApiError { error: "not_found", description: String::from_str("the requested route does not exist") }
}

} // verus!
