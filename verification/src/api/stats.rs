//! The statistics that the API service publishes, and the cache that keeps
//! them between database reads.

use vstd::prelude::*;
use crate::api::cache::{Cache, DEFAULT_MAX_AGE_HOURS, NANOS_PER_HOUR, is_clock_reading, is_instant, now_nanos};
use crate::api::online::OnlineGlobal;

verus! {

/// Totals over the whole ecosystem.
#[derive(Clone, Debug)]
pub struct Totals {
    pub users: i64,
    pub servers: i64,
    pub authors: i64,
    pub projects: i64,
}

/// How many programs of each kind are online.
#[derive(Clone, Debug)]
pub struct OnlineStatistics {
    pub proxies: i32,
    pub clients: i32,
    pub servers: i32,
    pub launchers: i32,
    pub unknown: i32,
}

/// The published statistics, with the seconds from the cache's expiry to
/// the moment they were read.
#[derive(Clone, Debug)]
pub struct Stats {
    pub totals: Totals,
    pub online: OnlineStatistics,
    pub refresh_in: i64,
}

impl Stats {
    /// The statistics for the counted users, servers and projects, the
    /// online counts and the refresh time. The author count is not
    /// collected and reads zero.
    pub fn from_counts(users: i64, servers: i64, projects: i64, online: &OnlineGlobal, refresh_in: i64) -> (r: Stats)
        ensures
            r.totals.users == users,
            r.totals.servers == servers,
            r.totals.authors == 0,
            r.totals.projects == projects,
            r.online.proxies == online.proxies,
            r.online.clients == online.clients,
            r.online.servers == online.servers,
            r.online.launchers == online.launchers,
            r.online.unknown == online.unknown,
            r.refresh_in == refresh_in,
    {
        Stats {
            totals: Totals { users, servers, authors: 0, projects },
            online: OnlineStatistics {
                proxies: online.proxies,
                clients: online.clients,
                servers: online.servers,
                launchers: online.launchers,
                unknown: online.unknown,
            },
            refresh_in,
        }
    }
}

/// The statistics cache, and whether it has been filled once.
pub struct StatCache {
    pub stat_cacher: Cache<Stats>,
    pub done_first_cache: bool,
}

impl StatCache {
    /// Once filled, the cache holds statistics.
    pub open spec fn filled_holds_data(self) -> bool {
        self.done_first_cache ==> self.stat_cacher.cache_data is Some
    }

    /// The cache state after recording `data` at `now`: the first record
    /// always stores, every later one only when the cache is expired.
    pub open spec fn recorded(self, data: Stats, now: int) -> StatCache {
        StatCache {
            stat_cacher: if self.done_first_cache {
                self.stat_cacher.updated(data, now)
            } else {
                self.stat_cacher.refreshed(data, now)
            },
            done_first_cache: true,
        }
    }

    /// An empty statistics cache made at `now`, not yet filled.
    pub fn new_at(now: i128) -> (r: StatCache)
        requires
            is_instant(now as int),
            is_instant(now - (DEFAULT_MAX_AGE_HOURS + 1) * NANOS_PER_HOUR),
        ensures
            r.stat_cacher == Cache::<Stats>::fresh(now as int),
            !r.done_first_cache,
    {
        StatCache { stat_cacher: Cache::new_at(now), done_first_cache: false }
    }

    /// Records freshly read statistics at `now`.
    pub fn record_at(&mut self, data: Stats, now: i128)
        requires
            old(self).stat_cacher.valid(),
            is_instant(now as int),
        ensures
            *final(self) == old(self).recorded(data, now as int),
            final(self).stat_cacher.valid(),
    {
        if !self.done_first_cache {
            self.done_first_cache = true;
            self.stat_cacher.unsafe_update_at(data, now);
        } else {
            self.stat_cacher.update_at(data, now);
        }
    }

    /// Records freshly read statistics at the moment of the call.
    pub fn record(&mut self, data: Stats)
        requires
            old(self).stat_cacher.valid(),
        ensures
            exists|t: int| is_clock_reading(t) && *final(self) == #[trigger] old(self).recorded(data, t),
            final(self).stat_cacher.valid(),
    {
        let now = now_nanos();
        self.record_at(data, now);
    }
}

/// Recording keeps the statistics cache filled: after any record the cache
/// holds statistics, and a cache that held them keeps holding them.
pub proof fn lemma_record_fills(c: StatCache, data: Stats, now: int)
    requires
        c.filled_holds_data(),
    ensures
        c.recorded(data, now).filled_holds_data(),
        c.recorded(data, now).stat_cacher.cache_data is Some,
{
}

} // verus!
