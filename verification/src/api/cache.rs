//! Caches that keep data for a number of hours: a single-value cache and a
//! cache that collects many values. Instants are nanoseconds since the Unix
//! epoch (UTC); an age limit is a number of hours.

use vstd::prelude::*;

verus! {

/// The number of seconds in an hour.
pub const SECS_PER_HOUR: i64 = 3600;

/// The number of nanoseconds in a second.
pub const NANOS_PER_SEC: i128 = 1_000_000_000;

/// The number of nanoseconds in an hour.
pub const NANOS_PER_HOUR: i128 = 3_600_000_000_000;

/// The age limit, in hours, of a new cache.
pub const DEFAULT_MAX_AGE_HOURS: i64 = 3;

/// The earliest instant that a UTC date-time can hold: the start of year
/// -262143.
pub const MIN_INSTANT: i128 = -8_334_601_315_200_000_000_000;

/// The latest instant that a UTC date-time can hold: the last nanosecond
/// of year 262142.
pub const MAX_INSTANT: i128 = 8_210_266_876_799_999_999_999;

/// The latest whole second that a UTC date-time can hold.
pub const MAX_INSTANT_SECS: i64 = 8_210_266_876_799;

/// The longest span, in whole seconds, that a time span can hold
/// (`i64::MAX` milliseconds).
pub const MAX_SPAN_SECS: i64 = 9223372036854775;

/// Whether `t` is an instant that a UTC date-time can hold.
pub open spec fn is_instant(t: int) -> bool {
    MIN_INSTANT <= t <= MAX_INSTANT
}

/// Whether a span of `hours` hours can be held as a time span.
pub open spec fn hours_representable(hours: int) -> bool {
    -MAX_SPAN_SECS <= hours * SECS_PER_HOUR <= MAX_SPAN_SECS
}

/// Whether `t` is a reading that the system clock can give.
pub open spec fn is_clock_reading(t: int) -> bool {
    0 <= t <= MAX_INSTANT
}

/// The whole seconds in a span of `d` nanoseconds, rounded toward zero.
pub open spec fn whole_seconds(d: int) -> int {
    if d >= 0 {
        d / NANOS_PER_SEC as int
    } else {
        -((-d) / NANOS_PER_SEC as int)
    }
}

/// Calls `chrono::Utc::now()` and takes the instant's whole seconds
/// (`timestamp()`) and the nanoseconds into that second
/// (`timestamp_subsec_nanos()`). chrono's `Utc::now` builds the instant
/// from the system clock's time since the epoch (it panics on a clock set
/// before 1970 or beyond the last date it can hold), so the seconds lie
/// between 0 and the latest second and the nanoseconds below a second;
/// that is all that is claimed. Which reading comes back is up to the clock.
#[verifier::external_body]
pub(crate) fn utc_now() -> (r: (i64, u32))
    ensures
        0 <= r.0 <= MAX_INSTANT_SECS,
        r.1 < NANOS_PER_SEC,
{
    let now = chrono::Utc::now();
    (now.timestamp(), now.timestamp_subsec_nanos())
}

/// The current instant, in nanoseconds since the Unix epoch.
pub fn now_nanos() -> (r: i128)
    ensures
        is_clock_reading(r as int),
{
    let (secs, nanos) = utc_now();
    secs as i128 * NANOS_PER_SEC + nanos as i128
}

/// The whole seconds in a span of `d` nanoseconds, rounded toward zero, as
/// a time span reports them.
pub fn seconds_of_span(d: i128) -> (r: i64)
    requires
        -(MAX_INSTANT - MIN_INSTANT) * 2 <= d <= (MAX_INSTANT - MIN_INSTANT) * 2,
    ensures
        r == whole_seconds(d as int),
{
    if d >= 0 {
        (d / NANOS_PER_SEC) as i64
    } else {
        let m: i128 = -d;
        -((m / NANOS_PER_SEC) as i64)
    }
}

/// Operations shared by the caches.
pub trait Caching<T>: Sized {
    /// Whether the cache's instant and age limit can be held by date-times
    /// and time spans.
    spec fn well_formed(&self) -> bool;

    /// Whether the instant at which the cache expires can be held by a
    /// date-time.
    spec fn expiry_in_range(&self) -> bool;

    fn new() -> (r: Self)
        ensures
            r.well_formed(),
    ;

    fn is_expired(&self) -> bool
        requires
            self.well_formed(),
    ;

    fn get_expiration(&self) -> i64
        requires
            self.well_formed(),
            self.expiry_in_range(),
    ;

    fn unsafe_update(&mut self, data: T)
        requires
            old(self).well_formed(),
        ensures
            final(self).well_formed(),
    ;

    fn update(&mut self, data: T)
        requires
            old(self).well_formed(),
        ensures
            final(self).well_formed(),
    ;
}

/// Whether `now - last_updated` has reached `max_age` hours.
pub open spec fn age_reached(last_updated: int, max_age: int, now: int) -> bool {
    now - last_updated >= max_age * NANOS_PER_HOUR
}

/// The whole seconds from the expiry instant `last_updated + max_age hours`
/// to `now`, rounded toward zero: negative while the data is fresh by a
/// second or more, zero or more once it has expired.
pub open spec fn seconds_past_expiry(last_updated: int, max_age: int, now: int) -> int {
    whole_seconds(now - (last_updated + max_age * NANOS_PER_HOUR))
}

/// A single value cache: keeps one value, and when it was stored.
#[derive(Clone, Debug)]
pub struct Cache<T> {
    pub cache_data: Option<T>,
    pub last_updated: i128,
    pub max_age: i64,
}

impl<T> Cache<T> {
    /// The empty cache made at `now`: dated one hour before its age limit,
    /// so that it is expired from the start.
    pub open spec fn fresh(now: int) -> Self {
        Cache {
            cache_data: None,
            last_updated: (now - (DEFAULT_MAX_AGE_HOURS + 1) * NANOS_PER_HOUR) as i128,
            max_age: DEFAULT_MAX_AGE_HOURS,
        }
    }

    /// Whether the cache is expired at `now`.
    pub open spec fn expired_at(self, now: int) -> bool {
        age_reached(self.last_updated as int, self.max_age as int, now)
    }

    /// The seconds from the cache's expiry to `now`.
    pub open spec fn expiration_at(self, now: int) -> int {
        seconds_past_expiry(self.last_updated as int, self.max_age as int, now)
    }

    /// The cache holding `data`, stored at `now`.
    pub open spec fn refreshed(self, data: T, now: int) -> Self {
        Cache { cache_data: Some(data), last_updated: now as i128, max_age: self.max_age }
    }

    /// The cache after offering it `data` at `now`: replaced when expired,
    /// left as it is otherwise.
    pub open spec fn updated(self, data: T, now: int) -> Self {
        if self.expired_at(now) {
            self.refreshed(data, now)
        } else {
            self
        }
    }

    /// Whether the cache's instant and age limit can be held.
    pub open spec fn valid(self) -> bool {
        is_instant(self.last_updated as int) && hours_representable(self.max_age as int)
    }

    /// Whether the cache's expiry instant can be held.
    pub open spec fn expiry_valid(self) -> bool {
        is_instant(self.last_updated + self.max_age * NANOS_PER_HOUR)
    }

    /// Whether the cache's instant, age limit and expiry instant can be held,
    /// so that its age and expiry can be computed.
    pub fn dates_in_range(&self) -> (r: bool)
        ensures
            r == (self.valid() && self.expiry_valid()),
    {
        if self.last_updated < MIN_INSTANT || self.last_updated > MAX_INSTANT {
            return false;
        }
        let span: i128 = self.max_age as i128 * 3600;
        let expiry: i128 = self.last_updated + self.max_age as i128 * NANOS_PER_HOUR;
        -(MAX_SPAN_SECS as i128) <= span && span <= MAX_SPAN_SECS as i128
            && MIN_INSTANT <= expiry && expiry <= MAX_INSTANT
    }

    /// The empty cache made at `now`.
    pub fn new_at(now: i128) -> (r: Self)
        requires
            is_instant(now as int),
            is_instant(now - (DEFAULT_MAX_AGE_HOURS + 1) * NANOS_PER_HOUR),
        ensures
            r == Self::fresh(now as int),
            r.valid(),
    {
        Cache {
            cache_data: None,
            last_updated: now - (DEFAULT_MAX_AGE_HOURS as i128 + 1) * NANOS_PER_HOUR,
            max_age: DEFAULT_MAX_AGE_HOURS,
        }
    }

    /// Whether the cache is expired at `now`.
    pub fn is_expired_at(&self, now: i128) -> (r: bool)
        requires
            self.valid(),
            is_instant(now as int),
        ensures
            r == self.expired_at(now as int),
    {
        now - self.last_updated >= self.max_age as i128 * NANOS_PER_HOUR
    }

    /// The seconds from the cache's expiry to `now`.
    pub fn get_expiration_at(&self, now: i128) -> (r: i64)
        requires
            self.valid(),
            self.expiry_valid(),
            is_instant(now as int),
        ensures
            r == self.expiration_at(now as int),
    {
        let expiry = self.last_updated + self.max_age as i128 * NANOS_PER_HOUR;
        seconds_of_span(now - expiry)
    }

    /// Stores `data` at `now`, whatever the cache held.
    pub fn unsafe_update_at(&mut self, data: T, now: i128)
        requires
            is_instant(now as int),
        ensures
            *final(self) == old(self).refreshed(data, now as int),
    {
        self.cache_data = Some(data);
        self.last_updated = now;
    }

    /// Stores `data` at `now` if the cache is expired then.
    pub fn update_at(&mut self, data: T, now: i128)
        requires
            old(self).valid(),
            is_instant(now as int),
        ensures
            *final(self) == old(self).updated(data, now as int),
    {
        if self.is_expired_at(now) {
            self.cache_data = Some(data);
            self.last_updated = now;
        }
    }
}

impl<T> Caching<T> for Cache<T> {
    open spec fn well_formed(&self) -> bool {
        self.valid()
    }

    open spec fn expiry_in_range(&self) -> bool {
        self.expiry_valid()
    }

    /// Creates an empty cache, dated so that it is expired from the start.
    fn new() -> (r: Self)
        ensures
            exists|t: int| is_clock_reading(t) && r == #[trigger] Self::fresh(t),
    {
        let now = now_nanos();
        Self::new_at(now)
    }

    /// Whether the cache is expired at the moment of the call.
    fn is_expired(&self) -> (r: bool)
        ensures
            exists|t: int| is_clock_reading(t) && r == #[trigger] self.expired_at(t),
    {
        let now = now_nanos();
        self.is_expired_at(now)
    }

    /// The seconds from the cache's expiry to the moment of the call.
    fn get_expiration(&self) -> (r: i64)
        ensures
            exists|t: int| is_clock_reading(t) && r == #[trigger] self.expiration_at(t),
    {
        let now = now_nanos();
        self.get_expiration_at(now)
    }

    /// Overwrites the data present, whatever it is, dated now.
    fn unsafe_update(&mut self, data: T)
        ensures
            exists|t: int| is_clock_reading(t) && *final(self) == #[trigger] old(self).refreshed(data, t),
    {
        let now = now_nanos();
        self.unsafe_update_at(data, now);
    }

    /// Replaces the data, dated now, if the cache is expired; the clock is
    /// read once to decide and once more to date the new data.
    fn update(&mut self, data: T)
        ensures
            (*final(self) == *old(self) && exists|t: int| is_clock_reading(t) && !#[trigger] old(self).expired_at(t))
            || ((exists|t: int| is_clock_reading(t) && #[trigger] old(self).expired_at(t))
                && exists|t: int| is_clock_reading(t) && *final(self) == #[trigger] old(self).refreshed(data, t)),
    {
        if self.is_expired() {
            self.unsafe_update(data);
        }
    }
}

/// A cache that collects many values, with one date for all of them.
#[derive(Clone, Debug)]
pub struct MultiCache<T> {
    pub cache_data: Vec<T>,
    pub last_updated: i128,
    pub max_age: i64,
}

impl<T> MultiCache<T> {
    /// Whether the cache is expired at `now`.
    pub open spec fn expired_at(self, now: int) -> bool {
        age_reached(self.last_updated as int, self.max_age as int, now)
    }

    /// The seconds from the cache's expiry to `now`.
    pub open spec fn expiration_at(self, now: int) -> int {
        seconds_past_expiry(self.last_updated as int, self.max_age as int, now)
    }

    /// Whether the cache's instant and age limit can be held.
    pub open spec fn valid(self) -> bool {
        is_instant(self.last_updated as int) && hours_representable(self.max_age as int)
    }

    /// Whether the cache's expiry instant can be held.
    pub open spec fn expiry_valid(self) -> bool {
        is_instant(self.last_updated + self.max_age * NANOS_PER_HOUR)
    }

    /// The empty cache made at `now`, expired from the start.
    pub fn new_at(now: i128) -> (r: Self)
        requires
            is_instant(now as int),
            is_instant(now - (DEFAULT_MAX_AGE_HOURS + 1) * NANOS_PER_HOUR),
        ensures
            r.cache_data@ == Seq::<T>::empty(),
            r.last_updated == now - (DEFAULT_MAX_AGE_HOURS + 1) * NANOS_PER_HOUR,
            r.max_age == DEFAULT_MAX_AGE_HOURS,
            r.valid(),
    {
        MultiCache {
            cache_data: Vec::new(),
            last_updated: now - (DEFAULT_MAX_AGE_HOURS as i128 + 1) * NANOS_PER_HOUR,
            max_age: DEFAULT_MAX_AGE_HOURS,
        }
    }

    /// Whether the cache is expired at `now`.
    pub fn is_expired_at(&self, now: i128) -> (r: bool)
        requires
            self.valid(),
            is_instant(now as int),
        ensures
            r == self.expired_at(now as int),
    {
        now - self.last_updated >= self.max_age as i128 * NANOS_PER_HOUR
    }

    /// The seconds from the cache's expiry to `now`.
    pub fn get_expiration_at(&self, now: i128) -> (r: i64)
        requires
            self.valid(),
            self.expiry_valid(),
            is_instant(now as int),
        ensures
            r == self.expiration_at(now as int),
    {
        let expiry = self.last_updated + self.max_age as i128 * NANOS_PER_HOUR;
        seconds_of_span(now - expiry)
    }

    /// Overwrites the data with `data` alone and dates the cache `now`,
    /// whatever it held.
    pub fn unsafe_update_at(&mut self, data: T, now: i128)
        requires
            is_instant(now as int),
        ensures
            final(self).cache_data@ == seq![data],
            final(self).last_updated == now,
            final(self).max_age == old(self).max_age,
    {
        let mut fresh: Vec<T> = Vec::new();
        fresh.push(data);
        self.cache_data = fresh;
        self.last_updated = now;
    }

    /// Replaces the data with `data` alone and dates the cache `now` if it
    /// is expired then; leaves it as it is otherwise.
    pub fn update_at(&mut self, data: T, now: i128)
        requires
            old(self).valid(),
            is_instant(now as int),
        ensures
            old(self).expired_at(now as int) ==> {
                &&& final(self).cache_data@ == seq![data]
                &&& final(self).last_updated == now
                &&& final(self).max_age == old(self).max_age
            },
            !old(self).expired_at(now as int) ==> *final(self) == *old(self),
    {
        if self.is_expired_at(now) {
            self.unsafe_update_at(data, now);
        }
    }

    /// Expires (removes) all data in the cache.
    pub fn expire_all(&mut self)
        ensures
            final(self).cache_data@ == Seq::<T>::empty(),
            final(self).last_updated == old(self).last_updated,
            final(self).max_age == old(self).max_age,
    {
        self.cache_data = Vec::new();
    }

    /// Removes the data in need of expiring at `now`: all of it when the
    /// cache is expired then, none otherwise. The date and age limit stay.
    pub fn expire_expired_at(&mut self, now: i128)
        requires
            old(self).valid(),
            is_instant(now as int),
        ensures
            old(self).expired_at(now as int) ==> {
                &&& final(self).cache_data@ == Seq::<T>::empty()
                &&& final(self).last_updated == old(self).last_updated
                &&& final(self).max_age == old(self).max_age
            },
            !old(self).expired_at(now as int) ==> *final(self) == *old(self),
    {
        if self.is_expired_at(now) {
            self.expire_all();
        }
    }

    /// Removes the data in need of expiring at the moment of the call: all
    /// of it when the cache is expired then, none otherwise.
    pub fn expire_expired(&mut self)
        requires
            old(self).valid(),
        ensures
            exists|t: int| is_clock_reading(t) && {
                &&& #[trigger] old(self).expired_at(t) ==> {
                    &&& final(self).cache_data@ == Seq::<T>::empty()
                    &&& final(self).last_updated == old(self).last_updated
                    &&& final(self).max_age == old(self).max_age
                }
                &&& !old(self).expired_at(t) ==> *final(self) == *old(self)
            },
    {
        let now = now_nanos();
        self.expire_expired_at(now);
    }
}

impl<T> Caching<T> for MultiCache<T> {
    open spec fn well_formed(&self) -> bool {
        self.valid()
    }

    open spec fn expiry_in_range(&self) -> bool {
        self.expiry_valid()
    }

    /// Creates an empty cache, dated so that it is expired from the start.
    fn new() -> (r: Self)
        ensures
            r.cache_data@ == Seq::<T>::empty(),
            r.max_age == DEFAULT_MAX_AGE_HOURS,
            exists|t: int| is_clock_reading(t) && r.last_updated == #[trigger] (t - (DEFAULT_MAX_AGE_HOURS + 1) * NANOS_PER_HOUR),
    {
        let now = now_nanos();
        Self::new_at(now)
    }

    /// Whether the cache is expired at the moment of the call.
    fn is_expired(&self) -> (r: bool)
        ensures
            exists|t: int| is_clock_reading(t) && r == #[trigger] self.expired_at(t),
    {
        let now = now_nanos();
        self.is_expired_at(now)
    }

    /// The seconds from the cache's expiry to the moment of the call.
    fn get_expiration(&self) -> (r: i64)
        ensures
            exists|t: int| is_clock_reading(t) && r == #[trigger] self.expiration_at(t),
    {
        let now = now_nanos();
        self.get_expiration_at(now)
    }

    /// Overwrites the data with `data` alone and dates the cache now; check
    /// `is_expired` first, as this overwrites whatever the cache's age.
    fn unsafe_update(&mut self, data: T)
        ensures
            final(self).cache_data@ == seq![data],
            final(self).max_age == old(self).max_age,
            is_clock_reading(final(self).last_updated as int),
    {
        let now = now_nanos();
        self.unsafe_update_at(data, now);
    }

    /// Replaces the data with `data` alone and dates the cache now if it is
    /// expired; the clock is read once to decide and once more to date the
    /// cache.
    fn update(&mut self, data: T)
        ensures
            (*final(self) == *old(self) && exists|t: int| is_clock_reading(t) && !#[trigger] old(self).expired_at(t))
            || ((exists|t: int| is_clock_reading(t) && #[trigger] old(self).expired_at(t))
                && final(self).cache_data@ == seq![data]
                && final(self).max_age == old(self).max_age
                && is_clock_reading(final(self).last_updated as int)),
    {
        if self.is_expired() {
            self.unsafe_update(data);
        }
    }
}

/// A cache that is expired reports zero or more seconds past its expiry,
/// and one that reports a second or more is expired; this holds of both
/// caches, whose `expired_at` and `expiration_at` are these two functions.
pub proof fn lemma_expiry_sign_matches_expired(last_updated: int, max_age: int, now: int)
    ensures
        age_reached(last_updated, max_age, now) ==> seconds_past_expiry(last_updated, max_age, now) >= 0,
        seconds_past_expiry(last_updated, max_age, now) >= 1 ==> age_reached(last_updated, max_age, now),
        seconds_past_expiry(last_updated, max_age, now) < 0 ==> !age_reached(last_updated, max_age, now),
{
}

/// A new cache is expired at the moment it is made and at every later
/// moment.
pub proof fn lemma_fresh_cache_is_expired<T>(made: int, now: int)
    requires
        is_instant(made),
        is_instant(made - (DEFAULT_MAX_AGE_HOURS + 1) * NANOS_PER_HOUR),
        made <= now,
    ensures
        Cache::<T>::fresh(made).expired_at(now),
{
}

/// Data stored at `stored` stays fresh for the cache's age limit: the
/// cache is not expired at any moment less than `max_age` hours later, and
/// is expired from then on.
pub proof fn lemma_refreshed_expiry<T>(c: Cache<T>, data: T, stored: int, now: int)
    requires
        is_instant(stored),
        stored <= now,
    ensures
        c.refreshed(data, stored).expired_at(now) <==> now - stored >= c.max_age * NANOS_PER_HOUR,
{
}

/// Offering data twice at the same moment stores only the first offer when
/// the age limit is positive: once refreshed, the cache is not expired.
pub proof fn lemma_update_once_per_window<T>(c: Cache<T>, d1: T, d2: T, now: int)
    requires
        is_instant(now),
        c.max_age > 0,
    ensures
        c.updated(d1, now).updated(d2, now) == c.updated(d1, now),
{
}

} // verus!
