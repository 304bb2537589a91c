//! Fixed answers of the API service: the index page and the robots file.

use vstd::prelude::*;
use crate::api::dates::{SpecialDates, greeting, special_on};
use crate::server::ratelimit::{KeyedLimiter, keyed_per_second, limiter_burst, limiter_interval_nanos};

verus! {

/// A link to the documentation of the API.
pub const DOCS_LINK: &'static str = "https://github.com/OneDSix/1d6-api/wiki";

/// The message sent when a condition that cannot happen has happened.
pub const IMPOSSIBLE_CONDITION: &'static str = "An impossible condition has been reached. Please make an issue with whatever you did to cause this on the API's GitHub here: https://github.com/OneDSix/1d6-api";

/// The version of the API that the index page reports.
pub const API_VERSION: &'static str = "1";

/// The robots file: no crawler is welcome.
pub const ROBOTS_TXT: &'static str = "
		User-agent: *\n
		Disallow: /
	";

/// The index page: its HTTP status and the fields of its JSON body.
pub struct IndexAnswer {
    pub status: u16,
    pub message: &'static str,
    pub api_version: &'static str,
    pub documentation: &'static str,
}

/// Whether `a` is the index page for a greeting chosen on `message_day`
/// and a status chosen on `status_day`.
pub open spec fn is_index_answer(a: IndexAnswer, message_day: SpecialDates, status_day: SpecialDates) -> bool {
    &&& a.message@ == greeting(message_day)
    &&& a.status == (if status_day == SpecialDates::AprilFools { 418u16 } else { 200u16 })
    &&& a.api_version@ == API_VERSION@
    &&& a.documentation@ == DOCS_LINK@
}

/// The index page whose greeting is that of `message_day` and whose status
/// is that of `status_day`.
pub fn index_answer(message_day: SpecialDates, status_day: SpecialDates) -> (r: IndexAnswer)
    ensures
        is_index_answer(r, message_day, status_day),
{
    IndexAnswer {
        status: status_day.index_status(),
        message: message_day.index_message(),
        api_version: API_VERSION,
        documentation: DOCS_LINK,
    }
}

/// The index page now: the day is looked up once for the greeting and once
/// more for the status.
pub fn index_get() -> (r: IndexAnswer)
    ensures
        exists|m1: u32, d1: u32, m2: u32, d2: u32|
            1 <= m1 <= 12 && 1 <= d1 <= 31 && 1 <= m2 <= 12 && 1 <= d2 <= 31
                && #[trigger] is_index_answer(r, special_on(m1, d1), special_on(m2, d2)),
{
    let message_day = SpecialDates::is_special();
    let status_day = SpecialDates::is_special();
    index_answer(message_day, status_day)
}

/// The API service's limiter: 3 requests per second for each client.
pub fn default_ratelimit() -> (r: KeyedLimiter)
    ensures
        limiter_burst(r) == 3,
        limiter_interval_nanos(r) == 333_333_333,
{
    keyed_per_second(3)
}

} // verus!
