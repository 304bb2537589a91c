//! What the rate-limiting layer does with the rate limiter's answer: pass
//! the request on with the limit headers, or refuse it.

use std::num::NonZeroU32;

use governor::clock::{Clock, DefaultClock};
use governor::middleware::StateInformationMiddleware;
use governor::state::keyed::DefaultKeyedStateStore;
use governor::{Quota, RateLimiter};
use vstd::prelude::*;
use vstd::string::*;
use crate::server::errors::ApiErrors;

verus! {

/// What the rate limiter answered for a client address.
#[derive(Clone, Copy, Debug)]
pub enum RateLimitCheck {
    /// The request may pass: the quota's burst size, how many requests are
    /// left of it, and the seconds until it is whole again.
    Allowed { burst_size: u32, remaining: u32, replenished_in_secs: u64 },
    /// The request is refused: the quota's burst size and how long the
    /// client must wait, in milliseconds and in whole seconds.
    Denied { burst_size: u32, wait_millis: u128, wait_secs: u64 },
}

/// The values of the `x-ratelimit-limit`, `x-ratelimit-remaining` and
/// `x-ratelimit-reset` headers.
#[derive(Clone, Copy, Debug)]
pub struct RateLimitHeaders {
    pub limit: u32,
    pub remaining: u32,
    pub reset: u64,
}

/// What the rate-limiting layer does with a request.
#[derive(Debug)]
pub enum RateLimitDecision {
    /// Pass the request on and add the headers to its answer.
    Forward(RateLimitHeaders),
    /// Answer with the error and the headers.
    Reject(ApiErrors, RateLimitHeaders),
    /// Answer with the error alone: the client's address is unknown.
    NoAddress(ApiErrors),
}

/// The message given when the client's address cannot be read.
pub const NO_ADDRESS_MESSAGE: &'static str = "Unable to obtain user IP address!";

/// Whether `d` is the decision for the limiter's answer, or for a request
/// whose client address is unknown (`None`).
pub open spec fn is_decision_for(check: Option<RateLimitCheck>, d: RateLimitDecision) -> bool {
    match check {
        None => d matches RateLimitDecision::NoAddress(ApiErrors::CustomAuthentication(m))
            && m@ == NO_ADDRESS_MESSAGE@,
        Some(RateLimitCheck::Allowed { burst_size, remaining, replenished_in_secs }) => d
            == RateLimitDecision::Forward(
            RateLimitHeaders { limit: burst_size, remaining, reset: replenished_in_secs },
        ),
        Some(RateLimitCheck::Denied { burst_size, wait_millis, wait_secs }) => d
            == RateLimitDecision::Reject(
            ApiErrors::RateLimitError(wait_millis, burst_size),
            RateLimitHeaders { limit: burst_size, remaining: 0, reset: wait_secs },
        ),
    }
}

/// Decides what to do with a request, given the limiter's answer for its
/// client address (`None` when the address is unknown).
pub fn rate_limit_decision(check: Option<RateLimitCheck>) -> (r: RateLimitDecision)
    ensures
        is_decision_for(check, r),
{
    match check {
        None => RateLimitDecision::NoAddress(
            ApiErrors::CustomAuthentication(String::from_str(NO_ADDRESS_MESSAGE)),
        ),
        Some(RateLimitCheck::Allowed { burst_size, remaining, replenished_in_secs }) => {
            RateLimitDecision::Forward(
                RateLimitHeaders { limit: burst_size, remaining, reset: replenished_in_secs },
            )
        },
        Some(RateLimitCheck::Denied { burst_size, wait_millis, wait_secs }) => {
            RateLimitDecision::Reject(
                ApiErrors::RateLimitError(wait_millis, burst_size),
                RateLimitHeaders { limit: burst_size, remaining: 0, reset: wait_secs },
            )
        },
    }
}

/// A rate limiter that keeps one GCRA state per client key (governor's
/// keyed limiter with the state-information middleware).
#[verifier::external_body]
pub struct KeyedLimiter {
    inner: RateLimiter<String, DefaultKeyedStateStore<String>, DefaultClock, StateInformationMiddleware>,
}

/// The burst size of the quota a limiter was made with.
pub uninterp spec fn limiter_burst(limiter: KeyedLimiter) -> u32;

/// The time, in nanoseconds, in which a limiter's quota gives back one
/// request.
pub uninterp spec fn limiter_interval_nanos(limiter: KeyedLimiter) -> u64;

/// Whether `check` is an answer that `limiter` gives for a request under
/// the client key `key`. It relates an answer to the key it was asked
/// about; it does not say that two requests get the same answer.
pub uninterp spec fn limiter_answered(limiter: KeyedLimiter, key: Seq<char>, check: RateLimitCheck) -> bool;

/// What every answer of the limiter for one request satisfies: it reports the
/// limiter's burst size; a passed request has at most that many left and is
/// told when the whole burst is back; a refused one has its wait in
/// milliseconds and in whole seconds.
pub open spec fn is_limiter_answer(limiter: KeyedLimiter, check: RateLimitCheck) -> bool {
    match check {
        RateLimitCheck::Allowed { burst_size, remaining, replenished_in_secs } => {
            &&& burst_size == limiter_burst(limiter)
            &&& remaining <= burst_size
            &&& replenished_in_secs == limiter_interval_nanos(limiter) * burst_size / 1_000_000_000
        },
        RateLimitCheck::Denied { burst_size, wait_millis, wait_secs } => {
            &&& burst_size == limiter_burst(limiter)
            &&& wait_secs == wait_millis / 1000
        },
    }
}

/// governor's `RateLimiter::keyed` with `Quota::per_second(n)` and the
/// state-information middleware. Claimed: the burst size is `n` and one
/// request comes back every `1_000_000_000 / n` nanoseconds (governor's
/// quota divides a second by `n`; at most 10^9 keeps that interval above 0,
/// below which governor divides by zero when it reports the capacity left).
#[verifier::external_body]
pub(crate) fn keyed_per_second(max_burst: u32) -> (r: KeyedLimiter)
    requires
        0 < max_burst <= 1_000_000_000,
    ensures
        limiter_burst(r) == max_burst,
        limiter_interval_nanos(r) == 1_000_000_000int / (max_burst as int),
{
    let quota = Quota::per_second(NonZeroU32::new(max_burst).unwrap());
    KeyedLimiter { inner: RateLimiter::keyed(quota).with_middleware::<StateInformationMiddleware>() }
}

/// governor's `RateLimiter::check_key` on the client key, read through the
/// state-information middleware: the snapshot's quota, burst capacity left
/// and replenish time when the request passes; the quota and the wait from
/// now (`NotUntil::wait_time_from` with the default clock) when it is
/// refused. Claimed: `is_limiter_answer`, and that the answer is one the
/// limiter gave for `key` (`limiter_answered`). Which of the two comes back,
/// and how much is left, depends on the time and on the key's earlier
/// requests, and is not stated.
#[verifier::external_body]
pub(crate) fn check_key(limiter: &KeyedLimiter, key: &str) -> (r: RateLimitCheck)
    ensures
        is_limiter_answer(*limiter, r),
        limiter_answered(*limiter, key@, r),
{
    match limiter.inner.check_key(&key.to_string()) {
        Ok(snapshot) => RateLimitCheck::Allowed {
            burst_size: snapshot.quota().burst_size().get(),
            remaining: snapshot.remaining_burst_capacity(),
            replenished_in_secs: snapshot.quota().burst_size_replenished_in().as_secs(),
        },
        Err(negative) => {
            let wait = negative.wait_time_from(DefaultClock::default().now());
            RateLimitCheck::Denied {
                burst_size: negative.quota().burst_size().get(),
                wait_millis: wait.as_millis(),
                wait_secs: wait.as_secs(),
            }
        },
    }
}

/// The account server's limiter: 5 requests per second for each client.
pub fn default_ratelimit() -> (r: KeyedLimiter)
    ensures
        limiter_burst(r) == 5,
        limiter_interval_nanos(r) == 200_000_000,
{
    keyed_per_second(5)
}

/// Asks the limiter about the client at `address` (none when the address
/// cannot be read) and decides what to do with its request.
pub fn limit_request(limiter: &KeyedLimiter, address: Option<&str>) -> (r: RateLimitDecision)
    ensures
        address is None ==> is_decision_for(None, r),
        address matches Some(a) ==> exists|c: RateLimitCheck|
            is_limiter_answer(*limiter, c) && limiter_answered(*limiter, a@, c)
                && #[trigger] is_decision_for(Some(c), r),
{
    match address {
        None => rate_limit_decision(None),
        Some(a) => {
            let c = check_key(limiter, a);
            let r = rate_limit_decision(Some(c));
            assert(is_limiter_answer(*limiter, c) && limiter_answered(*limiter, a@, c) && is_decision_for(Some(c), r));
            r
        },
    }
}

/// A refused request reports that nothing is left of its quota, and is
/// answered with "too many requests".
pub proof fn lemma_refusal_reports_nothing_left(check: RateLimitCheck, d: RateLimitDecision)
    requires
        check is Denied,
        is_decision_for(Some(check), d),
    ensures
        d matches RateLimitDecision::Reject(e, h) && h.remaining == 0
            && crate::server::errors::status_of(e) == 429,
{
}

/// The limit headers of every answer report the limiter's burst size as
/// the limit, and never more requests left than that limit.
pub proof fn lemma_headers_within_limit(limiter: KeyedLimiter, check: RateLimitCheck, d: RateLimitDecision)
    requires
        is_limiter_answer(limiter, check),
        is_decision_for(Some(check), d),
    ensures
        match d {
            RateLimitDecision::Forward(h) => h.limit == limiter_burst(limiter) && h.remaining <= h.limit,
            RateLimitDecision::Reject(_, h) => h.limit == limiter_burst(limiter) && h.remaining == 0,
            RateLimitDecision::NoAddress(_) => false,
        },
{
}

} // verus!
