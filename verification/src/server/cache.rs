//! A single value cache with an adjustable age limit. Instants are
//! nanoseconds since the Unix epoch (UTC); age limits are hours.

use vstd::prelude::*;
use crate::api::cache::{MIN_INSTANT, NANOS_PER_HOUR, age_reached, hours_representable, is_clock_reading, is_instant, now_nanos};

verus! {

/// The age limit, in hours, of a cache made by `Cache::new`.
pub const MAX_AGE_HOURS: i64 = 3;

/// What a cache holds: the value if any, when it was stored, and the age
/// limit in hours.
pub struct CacheState<T> {
    pub data: Option<T>,
    pub last_updated: int,
    pub max_age: int,
}

/// A single value cache.
pub struct Cache<T> {
    data: Option<T>,
    last_updated: i128,
    max_age: i64,
}

impl<T> View for Cache<T> {
    type V = CacheState<T>;

    closed spec fn view(&self) -> CacheState<T> {
        CacheState { data: self.data, last_updated: self.last_updated as int, max_age: self.max_age as int }
    }
}

/// Whether the hour counts that `new_full` is given date the cache within
/// range for every reading of the clock.
pub open spec fn full_hours_allowed(hours: int) -> bool {
    0 <= hours + 1 && (hours + 1) * NANOS_PER_HOUR <= -MIN_INSTANT
}

impl<T> Cache<T> {
    #[verifier::type_invariant]
    closed spec fn dated_in_range(self) -> bool {
        is_instant(self.last_updated as int)
    }

    /// Whether the cache is expired at `now`.
    pub open spec fn expired_at(self, now: int) -> bool {
        age_reached(self@.last_updated, self@.max_age, now)
    }

    /// The cache made at `now` holding `data` (if any), aged `hours` hours
    /// plus one, with an age limit of `hours`: expired from the start.
    pub open spec fn made_at(data: Option<T>, hours: int, now: int) -> CacheState<T> {
        CacheState { data, last_updated: now - (hours + 1) * NANOS_PER_HOUR, max_age: hours }
    }

    /// An empty cache made at `now`, expired from the start.
    pub fn new_at(now: i128) -> (r: Self)
        requires
            is_clock_reading(now as int),
        ensures
            r@ == Self::made_at(None, MAX_AGE_HOURS as int, now as int),
    {
        Cache { data: None, last_updated: now - (MAX_AGE_HOURS as i128 + 1) * NANOS_PER_HOUR, max_age: MAX_AGE_HOURS }
    }

    /// An empty cache made now, expired from the start.
    pub fn new() -> (r: Self)
        ensures
            exists|t: int| is_clock_reading(t) && r@ == #[trigger] Self::made_at(None, MAX_AGE_HOURS as int, t),
    {
        Self::new_at(now_nanos())
    }

    /// A cache made at `now` holding `input_data`, with an age limit of
    /// `hours`, dated so that it is expired from the start.
    pub fn new_full_at(input_data: T, hours: i64, now: i128) -> (r: Self)
        requires
            is_clock_reading(now as int),
            full_hours_allowed(hours as int),
        ensures
            r@ == Self::made_at(Some(input_data), hours as int, now as int),
    {
        Cache { data: Some(input_data), last_updated: now - (hours as i128 + 1) * NANOS_PER_HOUR, max_age: hours }
    }

    /// A cache made now holding `input_data`, with an age limit of
    /// `hours`, dated so that it is expired from the start.
    pub fn new_full(input_data: T, hours: i64) -> (r: Self)
        requires
            full_hours_allowed(hours as int),
        ensures
            exists|t: int| is_clock_reading(t) && r@ == #[trigger] Self::made_at(Some(input_data), hours as int, t),
    {
        Self::new_full_at(input_data, hours, now_nanos())
    }

    /// Whether the cache is expired at `now`.
    pub fn is_expired_at(&self, now: i128) -> (r: bool)
        requires
            hours_representable(self@.max_age),
            is_instant(now as int),
        ensures
            r == self.expired_at(now as int),
    {
        proof {
            use_type_invariant(self);
        }
        now - self.last_updated >= self.max_age as i128 * NANOS_PER_HOUR
    }

    /// Whether the cache is expired at the moment of the call.
    pub fn is_expired(&self) -> (r: bool)
        requires
            hours_representable(self@.max_age),
        ensures
            exists|t: int| is_clock_reading(t) && r == #[trigger] self.expired_at(t),
    {
        self.is_expired_at(now_nanos())
    }

    /// Stores `data` at `now`, whatever the cache held; check `is_expired`
    /// first, as this overwrites.
    pub fn update_at(&mut self, data: T, now: i128)
        requires
            is_clock_reading(now as int),
        ensures
            final(self)@ == (CacheState { data: Some(data), last_updated: now as int, max_age: old(self)@.max_age }),
    {
        proof {
            use_type_invariant(&*self);
        }
        self.data = Some(data);
        self.last_updated = now;
    }

    /// Stores `data` now, whatever the cache held.
    pub fn update(&mut self, data: T)
        ensures
            final(self)@.data == Some(data),
            final(self)@.max_age == old(self)@.max_age,
            is_clock_reading(final(self)@.last_updated),
    {
        self.update_at(data, now_nanos());
    }

    /// Sets the age limit to `hours`.
    pub fn set_expiration(&mut self, hours: i64)
        ensures
            final(self)@ == (CacheState { max_age: hours as int, ..old(self)@ }),
    {
        proof {
            use_type_invariant(&*self);
        }
        self.max_age = hours;
    }

    /// The value the cache holds, if any.
    pub fn data(&self) -> (r: &Option<T>)
        ensures
            *r == self@.data,
    {
        &self.data
    }

    /// The instant, in nanoseconds since the epoch, at which the value was
    /// stored.
    pub fn last_updated(&self) -> (r: i128)
        ensures
            r == self@.last_updated,
    {
        self.last_updated
    }

    /// The age limit in hours.
    pub fn max_age(&self) -> (r: i64)
        ensures
            r == self@.max_age,
    {
        self.max_age
    }
}

/// A cache made by `new_full` is expired at the moment it is made and
/// later, whatever value and age limit it was given.
pub proof fn lemma_made_cache_is_expired<T>(data: Option<T>, hours: int, made: int, now: int)
    requires
        made <= now,
    ensures
        age_reached(Cache::<T>::made_at(data, hours, made).last_updated, hours, now),
{
}

} // verus!
