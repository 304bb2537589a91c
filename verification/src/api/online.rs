//! Counts of the clients that are online, by kind.

use vstd::prelude::*;
use crate::text::str_eq;

verus! {

/// How many proxies, clients, servers, launchers and unknown programs
/// reported themselves online.
#[derive(Clone, Copy, Debug)]
pub struct OnlineGlobal {
    pub proxies: i32,
    pub clients: i32,
    pub servers: i32,
    pub launchers: i32,
    pub unknown: i32,
}

impl OnlineGlobal {
    /// All counts at zero.
    pub fn new() -> (r: Self)
        ensures
            r.proxies == 0,
            r.clients == 0,
            r.servers == 0,
            r.launchers == 0,
            r.unknown == 0,
    {
        OnlineGlobal { servers: 0, proxies: 0, clients: 0, launchers: 0, unknown: 0 }
    }

    /// Adds `change` to the proxy count; the other counts stay.
    pub fn change_proxies(&mut self, change: i32)
        requires
            i32::MIN <= old(self).proxies + change <= i32::MAX,
        ensures
            final(self).proxies == old(self).proxies + change,
            final(self).clients == old(self).clients,
            final(self).servers == old(self).servers,
            final(self).launchers == old(self).launchers,
            final(self).unknown == old(self).unknown,
    {
        self.proxies = self.proxies + change;
    }

    /// Adds `change` to the client count; the other counts stay.
    pub fn change_client(&mut self, change: i32)
        requires
            i32::MIN <= old(self).clients + change <= i32::MAX,
        ensures
            final(self).clients == old(self).clients + change,
            final(self).proxies == old(self).proxies,
            final(self).servers == old(self).servers,
            final(self).launchers == old(self).launchers,
            final(self).unknown == old(self).unknown,
    {
        self.clients = self.clients + change;
    }

    /// Adds `change` to the server count; the other counts stay.
    pub fn change_servers(&mut self, change: i32)
        requires
            i32::MIN <= old(self).servers + change <= i32::MAX,
        ensures
            final(self).servers == old(self).servers + change,
            final(self).proxies == old(self).proxies,
            final(self).clients == old(self).clients,
            final(self).launchers == old(self).launchers,
            final(self).unknown == old(self).unknown,
    {
        self.servers = self.servers + change;
    }

    /// Adds `change` to the launcher count; the other counts stay.
    pub fn change_launchers(&mut self, change: i32)
        requires
            i32::MIN <= old(self).launchers + change <= i32::MAX,
        ensures
            final(self).launchers == old(self).launchers + change,
            final(self).proxies == old(self).proxies,
            final(self).clients == old(self).clients,
            final(self).servers == old(self).servers,
            final(self).unknown == old(self).unknown,
    {
        self.launchers = self.launchers + change;
    }

    /// Adds `change` to the count of unknown programs; the other counts stay.
    pub fn change_unknown(&mut self, change: i32)
        requires
            i32::MIN <= old(self).unknown + change <= i32::MAX,
        ensures
            final(self).unknown == old(self).unknown + change,
            final(self).proxies == old(self).proxies,
            final(self).clients == old(self).clients,
            final(self).servers == old(self).servers,
            final(self).launchers == old(self).launchers,
    {
        self.unknown = self.unknown + change;
    }
}

/// The kind of program that reports its activity.
#[derive(Clone, Copy, Debug, PartialEq, Eq, Structural)]
pub enum OnlineKind {
    Proxies,
    Clients,
    Servers,
    Launchers,
    Unknown,
}

/// The kind named by a reported client type.
pub open spec fn kind_of_client(client_type: Seq<char>) -> OnlineKind {
    if client_type == "proxy"@ {
        OnlineKind::Proxies
    } else if client_type == "client"@ {
        OnlineKind::Clients
    } else if client_type == "server"@ {
        OnlineKind::Servers
    } else if client_type == "launcher"@ {
        OnlineKind::Launchers
    } else {
        OnlineKind::Unknown
    }
}

/// The change of the online counts that an activity report asks for: a
/// startup counts one more of its kind, a shutdown one fewer, anything else
/// (a heartbeat included) nothing.
pub open spec fn activity_effect(ping_reason: Seq<char>, client_type: Seq<char>) -> Option<(OnlineKind, i32)> {
    if ping_reason == "startup"@ {
        Some((kind_of_client(client_type), 1i32))
    } else if ping_reason == "shutdown"@ {
        Some((kind_of_client(client_type), -1i32))
    } else {
        None
    }
}

/// The count of `kind` in `counts`.
pub open spec fn count_of(counts: OnlineGlobal, kind: OnlineKind) -> i32 {
    match kind {
        OnlineKind::Proxies => counts.proxies,
        OnlineKind::Clients => counts.clients,
        OnlineKind::Servers => counts.servers,
        OnlineKind::Launchers => counts.launchers,
        OnlineKind::Unknown => counts.unknown,
    }
}

/// Whether `after` is `before` with `change` added to the count of `kind`
/// and every other count the same.
pub open spec fn changed_by(before: OnlineGlobal, after: OnlineGlobal, kind: OnlineKind, change: int) -> bool {
    &&& count_of(after, kind) == count_of(before, kind) + change
    &&& forall|other: OnlineKind| other != kind ==> #[trigger] count_of(after, other) == count_of(before, other)
}

impl OnlineGlobal {
    /// The count of `kind`.
    pub fn count(&self, kind: OnlineKind) -> (r: i32)
        ensures
            r == count_of(*self, kind),
    {
        match kind {
            OnlineKind::Proxies => self.proxies,
            OnlineKind::Clients => self.clients,
            OnlineKind::Servers => self.servers,
            OnlineKind::Launchers => self.launchers,
            OnlineKind::Unknown => self.unknown,
        }
    }

    /// Adds `change` to the count of `kind`, through the method of that
    /// kind; the other counts stay.
    pub fn change_count(&mut self, kind: OnlineKind, change: i32)
        requires
            i32::MIN <= count_of(*old(self), kind) + change <= i32::MAX,
        ensures
            changed_by(*old(self), *final(self), kind, change as int),
    {
        match kind {
            OnlineKind::Proxies => self.change_proxies(change),
            OnlineKind::Clients => self.change_client(change),
            OnlineKind::Servers => self.change_servers(change),
            OnlineKind::Launchers => self.change_launchers(change),
            OnlineKind::Unknown => self.change_unknown(change),
        }
    }
}

/// Reads the kind of program from its reported client type.
pub fn client_kind(client_type: &str) -> (r: OnlineKind)
    ensures
        r == kind_of_client(client_type@),
{
    if str_eq(client_type, "proxy") {
        OnlineKind::Proxies
    } else if str_eq(client_type, "client") {
        OnlineKind::Clients
    } else if str_eq(client_type, "server") {
        OnlineKind::Servers
    } else if str_eq(client_type, "launcher") {
        OnlineKind::Launchers
    } else {
        OnlineKind::Unknown
    }
}

/// Decides which online count an activity report changes, and by how much.
pub fn activity_change(ping_reason: &str, client_type: &str) -> (r: Option<(OnlineKind, i32)>)
    ensures
        r == activity_effect(ping_reason@, client_type@),
{
    if str_eq(ping_reason, "startup") {
        Some((client_kind(client_type), 1))
    } else if str_eq(ping_reason, "shutdown") {
        Some((client_kind(client_type), -1))
    } else {
        None
    }
}

/// A startup and a shutdown of the same client type change the same count
/// by opposite amounts, so the two together leave the counts as they were.
pub proof fn lemma_startup_shutdown_cancel(client_type: Seq<char>)
    ensures
        activity_effect("startup"@, client_type) matches Some((k1, d1))
            && activity_effect("shutdown"@, client_type) matches Some((k2, d2))
            && k1 == k2 && d1 + d2 == 0,
{
    reveal_strlit("startup");
    reveal_strlit("shutdown");
    assert("startup"@ != "shutdown"@) by {
        assert("startup"@[1] != "shutdown"@[1]);
    }
}

/// A startup report followed by a shutdown report of the same client type
/// leaves the online counts as they were.
pub proof fn lemma_startup_then_shutdown_restores(
    c0: OnlineGlobal,
    c1: OnlineGlobal,
    c2: OnlineGlobal,
    client_type: Seq<char>,
)
    requires
        activity_effect("startup"@, client_type) matches Some((k, d))
            && changed_by(c0, c1, k, d as int),
        activity_effect("shutdown"@, client_type) matches Some((k, d))
            && changed_by(c1, c2, k, d as int),
    ensures
        c2 == c0,
{
    lemma_startup_shutdown_cancel(client_type);
    assert(count_of(c2, OnlineKind::Proxies) == count_of(c0, OnlineKind::Proxies));
    assert(count_of(c2, OnlineKind::Clients) == count_of(c0, OnlineKind::Clients));
    assert(count_of(c2, OnlineKind::Servers) == count_of(c0, OnlineKind::Servers));
    assert(count_of(c2, OnlineKind::Launchers) == count_of(c0, OnlineKind::Launchers));
    assert(count_of(c2, OnlineKind::Unknown) == count_of(c0, OnlineKind::Unknown));
}

} // verus!
