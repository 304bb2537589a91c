//! The statistics that the account server publishes.

use vstd::prelude::*;

verus! {

/// Totals over the whole ecosystem; absent where not counted.
#[derive(Clone, Debug)]
pub struct Totals {
    pub users: Option<i64>,
    pub servers: Option<i64>,
    pub authors: Option<i64>,
    pub mods: Option<i64>,
}

/// How many users and servers are online.
#[derive(Clone, Debug)]
pub struct Online {
    pub users: Option<i64>,
    pub servers: Option<i64>,
}

/// The published statistics, with the seconds until they are read again.
#[derive(Clone, Debug)]
pub struct Stats {
    pub totals: Totals,
    pub online: Online,
    pub refresh_in: i64,
}

impl Stats {
    /// The statistics for the counted users and mods. Servers, authors and
    /// online counts are not collected yet and read zero.
    pub fn from_counts(users: i64, mods: i64, refresh_in: i64) -> (r: Stats)
        ensures
            r.totals.users == Some(users),
            r.totals.servers == Some(0i64),
            r.totals.authors == Some(0i64),
            r.totals.mods == Some(mods),
            r.online.users == Some(0i64),
            r.online.servers == Some(0i64),
            r.refresh_in == refresh_in,
    {
        Stats {
            totals: Totals { users: Some(users), servers: Some(0), authors: Some(0), mods: Some(mods) },
            online: Online { users: Some(0), servers: Some(0) },
            refresh_in,
        }
    }
}

} // verus!
