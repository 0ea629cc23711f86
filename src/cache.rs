use vstd::prelude::*;

use crate::blocklist::{entries_of, parse_blocklist, views};

verus! {

/// What reading the blocklist source produced.
pub enum SourceRead {
    /// The full text of the source.
    Content(String),
    /// The source does not exist.
    Missing,
    /// The source exists but could not be read (permissions, I/O, time-out).
    Unreadable,
}

/// Why a refresh did not complete.
#[derive(PartialEq, Eq, Structural, Debug, Clone, Copy)]
pub enum RefreshError {
    /// The source could not be read; the cached entries were kept.
    Unreadable,
}

/// The abstract state of the cache.
pub struct CacheView {
    /// The banned entries from the last completed refresh.
    pub entries: Set<Seq<char>>,
    /// When the last refresh completed, in milliseconds; `None` before the first.
    pub last_read: Option<u64>,
    /// Whether a refresh has been claimed and not yet completed.
    pub refreshing: bool,
}

/// Time since `last`, in milliseconds; a clock reading before `last` counts as none.
pub open spec fn elapsed(last: u64, now: u64) -> nat {
    if now >= last {
        (now - last) as nat
    } else {
        0
    }
}

/// Whether a cache in state `c` is stale at `now` for the time-to-live `ttl`.
pub open spec fn stale(c: CacheView, ttl: u64, now: u64) -> bool {
    match c.last_read {
        None => true,
        Some(t) => elapsed(t, now) >= ttl,
    }
}

/// The state after a refresh that read `read` at `now`.
pub open spec fn after_read(c: CacheView, read: SourceRead, now: u64) -> CacheView {
    match read {
        SourceRead::Content(s) => CacheView {
            entries: entries_of(s@),
            last_read: Some(now),
            refreshing: false,
        },
        SourceRead::Missing => CacheView { last_read: Some(now), refreshing: false, ..c },
        SourceRead::Unreadable => CacheView { refreshing: false, ..c },
    }
}

/// Whether a claim on a cache in state `c` at `now` is granted.
pub open spec fn claim_granted(c: CacheView, ttl: u64, now: u64) -> bool {
    stale(c, ttl, now) && !c.refreshing
}

/// The state after a claim on a cache in state `c` at `now`.
pub open spec fn after_claim(c: CacheView, ttl: u64, now: u64) -> CacheView {
    if claim_granted(c, ttl, now) {
        CacheView { refreshing: true, ..c }
    } else {
        c
    }
}

/// How many of the claims made at the times `nows`, one after another and
/// with no refresh completing in between, are granted.
pub open spec fn claims_granted(c: CacheView, ttl: u64, nows: Seq<u64>) -> nat
    decreases nows.len(),
{
    if nows.len() == 0 {
        0
    } else {
        let g: nat = if claim_granted(c, ttl, nows[0]) {
            1
        } else {
            0
        };
        g + claims_granted(after_claim(c, ttl, nows[0]), ttl, nows.drop_first())
    }
}

proof fn lemma_in_flight_grants_none(c: CacheView, ttl: u64, nows: Seq<u64>)
    requires
        c.refreshing,
    ensures
        claims_granted(c, ttl, nows) == 0,
    decreases nows.len(),
{
    if nows.len() > 0 {
        lemma_in_flight_grants_none(after_claim(c, ttl, nows[0]), ttl, nows.drop_first());
    }
}

/// Of any number of claims made while the cache is stale and no refresh is in
/// flight, exactly one is granted: the source is read once.
pub proof fn lemma_single_flight(c: CacheView, ttl: u64, nows: Seq<u64>)
    requires
        !c.refreshing,
        nows.len() > 0,
        stale(c, ttl, nows[0]),
    ensures
        claims_granted(c, ttl, nows) == 1,
{
    lemma_in_flight_grants_none(after_claim(c, ttl, nows[0]), ttl, nows.drop_first());
}

/// In-memory set of banned client addresses, with the time of its last refresh.
pub struct BannedIpsCache {
    ips: Vec<String>,
    last_read: Option<u64>,
    refreshing: bool,
}

impl View for BannedIpsCache {
    type V = CacheView;

    closed spec fn view(&self) -> CacheView {
        CacheView {
            entries: views(self.ips@).to_set(),
            last_read: self.last_read,
            refreshing: self.refreshing,
        }
    }
}

impl BannedIpsCache {
    /// The entries are held once each.
    pub closed spec fn wf(&self) -> bool {
        views(self.ips@).no_duplicates()
    }

    /// An empty cache that has never been refreshed, and so is stale.
    pub fn new() -> (r: Self)
        ensures
            r.wf(),
            r@.entries == Set::<Seq<char>>::empty(),
            r@.last_read is None,
            !r@.refreshing,
    {
        let r = BannedIpsCache { ips: Vec::new(), last_read: None, refreshing: false };
        assert(views(r.ips@) =~= Seq::<Seq<char>>::empty());
        r
    }

    /// Whether the cache is due for a refresh at `now` (milliseconds) for a
    /// time-to-live of `cache_ttl` milliseconds.
    pub fn is_stale(&self, cache_ttl: u64, now: u64) -> (r: bool)
        ensures
            r == stale(self@, cache_ttl, now),
    {
        match self.last_read {
            None => true,
            Some(t) => {
                let e = if now >= t {
                    now - t
                } else {
                    0
                };
                e >= cache_ttl
            },
        }
    }

    /// Claims the refresh when the cache is stale and no refresh is in flight.
    /// Exactly one of any number of claims made while a refresh is due gets
    /// `true`; the others proceed with the entries already held. A claim with
    /// `cache_ttl == 0` asks for a refresh whatever the age of the entries.
    pub fn claim_refresh(&mut self, cache_ttl: u64, now: u64) -> (r: bool)
        requires
            old(self).wf(),
        ensures
            final(self).wf(),
            r == claim_granted(old(self)@, cache_ttl, now),
            final(self)@ == after_claim(old(self)@, cache_ttl, now),
    {
        if !self.refreshing && self.is_stale(cache_ttl, now) {
            self.refreshing = true;
            true
        } else {
            false
        }
    }

    /// Completes a refresh with what was read from the source at `now`.
    /// New content replaces the entries whole; a missing source keeps the
    /// entries held (empty before the first load) and counts as a refresh; an
    /// unreadable source keeps entries and refresh time and is reported.
    /// Any claim is released in every case.
    pub fn refresh(&mut self, read: SourceRead, now: u64) -> (r: Result<(), RefreshError>)
        requires
            old(self).wf(),
        ensures
            final(self).wf(),
            final(self)@ == after_read(old(self)@, read, now),
            r is Err <==> read is Unreadable,
    {
        self.refreshing = false;
        match read {
            SourceRead::Content(s) => {
                self.ips = parse_blocklist(s.as_str());
                self.last_read = Some(now);
                Ok(())
            },
            SourceRead::Missing => {
                self.last_read = Some(now);
                Ok(())
            },
            SourceRead::Unreadable => Err(RefreshError::Unreadable),
        }
    }

    /// Whether `ip` is one of the banned entries.
    pub fn contains(&self, ip: &str) -> (r: bool)
        ensures
            r == self@.entries.contains(ip@),
    {
        let q = ip.to_owned();
        let mut i: usize = 0;
        while i < self.ips.len()
            invariant
                0 <= i <= self.ips@.len(),
                q@ == ip@,
                forall|j: int| 0 <= j < i ==> self.ips@[j]@ != ip@,
            decreases self.ips@.len() - i,
        {
            if self.ips[i] == q {
                assert(views(self.ips@)[i as int] == ip@);
                return true;
            }
            i = i + 1;
        }
        assert(!views(self.ips@).contains(ip@));
        false
    }

    /// The number of distinct banned entries.
    pub fn len(&self) -> (r: usize)
        requires
            self.wf(),
        ensures
            r == self@.entries.len(),
    {
        proof {
            views(self.ips@).unique_seq_to_set();
        }
        self.ips.len()
    }
}

} // verus!
