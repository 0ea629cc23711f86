use vstd::prelude::*;

use crate::blocklist::entries_of;
use crate::cache::{
    after_claim, after_read, claim_granted, stale, BannedIpsCache, CacheView, SourceRead,
};
use crate::text::{chars_of, string_from_chars, trim, trim_chars};

verus! {

/// Outcome of a single access check.
#[derive(PartialEq, Eq, Structural, Debug, Clone, Copy)]
pub enum Decision {
    /// The request continues to the next stage.
    Allow,
    /// The request is refused as forbidden.
    Block,
}

/// The decision for a client at `ip` against a cache in state `c`.
pub open spec fn decision_for(c: CacheView, ip: Seq<char>) -> Decision {
    if c.entries.contains(ip) {
        Decision::Block
    } else {
        Decision::Allow
    }
}

/// The part of a header value before its first comma (all of it if none).
pub open spec fn first_field(s: Seq<char>) -> Seq<char>
    decreases s.len(),
{
    if s.len() == 0 || s[0] == ',' {
        Seq::empty()
    } else {
        seq![s[0]] + first_field(s.drop_first())
    }
}

/// The address taken from a header value: its first comma-separated field, trimmed.
pub open spec fn header_address(h: Seq<char>) -> Seq<char> {
    trim(first_field(h))
}

/// The client address for a request: the trusted real-IP header when it gives
/// an address, else the forwarded-for header when it gives one, else the peer
/// address of the connection. A header that gives an empty address is passed over.
pub open spec fn client_address(
    real_ip: Option<Seq<char>>,
    forwarded_for: Option<Seq<char>>,
    peer: Seq<char>,
) -> Seq<char> {
    if real_ip is Some && header_address(real_ip->0).len() > 0 {
        header_address(real_ip->0)
    } else if forwarded_for is Some && header_address(forwarded_for->0).len() > 0 {
        header_address(forwarded_for->0)
    } else {
        peer
    }
}

/// The view of an optional header value.
pub open spec fn opt_view(h: Option<&str>) -> Option<Seq<char>> {
    match h {
        Some(s) => Some(s@),
        None => None,
    }
}

fn header_ip(h: &str) -> (r: String)
    ensures
        r@ == header_address(h@),
{
    let cs = chars_of(h);
    let n = cs.len();
    let mut head: Vec<char> = Vec::new();
    let mut i: usize = 0;
    assert(cs@.subrange(0, n as int) =~= cs@);
    while i < n && cs[i] != ','
        invariant
            i <= n,
            n == cs@.len(),
            head@ == cs@.take(i as int),
            first_field(cs@) == head@ + first_field(cs@.subrange(i as int, n as int)),
        decreases n - i,
    {
        let ghost rest = cs@.subrange(i as int, n as int);
        assert(rest.drop_first() =~= cs@.subrange(i + 1, n as int));
        head.push(cs[i]);
        assert(head@ =~= cs@.take(i + 1));
        assert(head@ + first_field(cs@.subrange(i + 1, n as int)) =~= cs@.take(i as int) + (seq![
            cs@[i as int],
        ] + first_field(cs@.subrange(i + 1, n as int))));
        i = i + 1;
    }
    assert(first_field(cs@.subrange(i as int, n as int)) =~= Seq::<char>::empty());
    assert(head@ + Seq::<char>::empty() =~= head@);
    let t = trim_chars(&head);
    string_from_chars(&t)
}

/// The client address of a request, from the trusted real-IP header, the
/// forwarded-for header and the peer address, in that order of precedence.
/// A header value that is a comma-separated chain gives its first entry,
/// trimmed; a header that gives an empty address is passed over.
pub fn client_ip(real_ip: Option<&str>, forwarded_for: Option<&str>, peer: &str) -> (r: String)
    ensures
        r@ == client_address(opt_view(real_ip), opt_view(forwarded_for), peer@),
{
    if let Some(h) = real_ip {
        let a = header_ip(h);
        if !a.as_str().is_empty() {
            return a;
        }
    }
    if let Some(h) = forwarded_for {
        let a = header_ip(h);
        if !a.as_str().is_empty() {
            return a;
        }
    }
    peer.to_owned()
}

/// A real-IP header that gives an address decides the client address, whatever
/// the forwarded-for header holds.
pub proof fn lemma_real_ip_header_wins(real_ip: Seq<char>, forwarded_for: Seq<char>, peer: Seq<char>)
    requires
        header_address(real_ip).len() > 0,
    ensures
        client_address(Some(real_ip), Some(forwarded_for), peer) == header_address(real_ip),
{
}

/// Blocks a client whose address is one of the cached entries, allows any other.
pub fn decide(cache: &BannedIpsCache, ip: &str) -> (r: Decision)
    ensures
        r == decision_for(cache@, ip@),
{
    if cache.contains(ip) {
        Decision::Block
    } else {
        Decision::Allow
    }
}

/// After a refresh that read a blocklist text, a client whose address is not
/// one of the text's trimmed lines is allowed.
pub proof fn lemma_unlisted_allowed(c: CacheView, content: String, now: u64, ip: Seq<char>)
    requires
        !entries_of(content@).contains(ip),
    ensures
        decision_for(after_read(c, SourceRead::Content(content), now), ip) == Decision::Allow,
{
}

/// After a refresh that read a blocklist text, a client whose address is one
/// of the text's trimmed lines is blocked.
pub proof fn lemma_listed_blocked(c: CacheView, content: String, now: u64, ip: Seq<char>)
    requires
        entries_of(content@).contains(ip),
    ensures
        decision_for(after_read(c, SourceRead::Content(content), now), ip) == Decision::Block,
{
}

/// Once the time-to-live has run out and no refresh is in flight, the next
/// request's claim is granted; after that refresh reads the changed source,
/// decisions follow the new content, and the cache is due again one
/// time-to-live later.
pub proof fn lemma_stale_cache_follows_source(
    c: CacheView,
    ttl: u64,
    now: u64,
    content: String,
    done_at: u64,
    ip: Seq<char>,
)
    requires
        stale(c, ttl, now),
        !c.refreshing,
    ensures
        claim_granted(c, ttl, now),
        decision_for(after_read(after_claim(c, ttl, now), SourceRead::Content(content), done_at), ip)
            == (if entries_of(content@).contains(ip) {
            Decision::Block
        } else {
            Decision::Allow
        }),
        forall|later: u64|
            later >= done_at + ttl ==> #[trigger] stale(
                after_read(after_claim(c, ttl, now), SourceRead::Content(content), done_at),
                ttl,
                later,
            ),
{
}

/// A refresh that cannot read its source changes no decision and leaves no
/// refresh in flight.
pub proof fn lemma_failed_refresh_keeps_decisions(c: CacheView, now: u64, ip: Seq<char>)
    ensures
        decision_for(after_read(c, SourceRead::Unreadable, now), ip) == decision_for(c, ip),
        !after_read(c, SourceRead::Unreadable, now).refreshing,
{
}

} // verus!
