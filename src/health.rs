use vstd::prelude::*;

use crate::cache::BannedIpsCache;

verus! {

/// Body of the health endpoint.
pub struct HealthResponse {
    pub status: String,
    pub banned_ip_count: usize,
}

/// Reports the service as up, with the number of banned entries held; reads
/// the cache only and never triggers a refresh.
pub fn health_check(cache: &BannedIpsCache) -> (r: HealthResponse)
    requires
        cache.wf(),
    ensures
        r.status@ == "ok"@,
        r.banned_ip_count == cache@.entries.len(),
{
    HealthResponse { status: "ok".to_owned(), banned_ip_count: cache.len() }
}

} // verus!
