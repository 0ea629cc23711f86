use tezcatlipoca_auth::access::{decide, Decision};
use tezcatlipoca_auth::blocklist::parse_blocklist;
use tezcatlipoca_auth::cache::{BannedIpsCache, RefreshError, SourceRead};
use tezcatlipoca_auth::health::health_check;

fn loaded(text: &str, now: u64) -> BannedIpsCache {
    let mut c = BannedIpsCache::new();
    assert_eq!(c.refresh(SourceRead::Content(text.to_string()), now), Ok(()));
    c
}

fn sorted(mut v: Vec<String>) -> Vec<String> {
    v.sort();
    v
}

#[test]
fn parse_trims_each_line() {
    let v = parse_blocklist("  1.1.1.1\t\n2.2.2.2   \n");
    assert_eq!(sorted(v), vec!["1.1.1.1".to_string(), "2.2.2.2".to_string()]);
}

#[test]
fn parse_handles_crlf_and_missing_final_newline() {
    let v = parse_blocklist("1.1.1.1\r\n2.2.2.2");
    assert_eq!(sorted(v), vec!["1.1.1.1".to_string(), "2.2.2.2".to_string()]);
}

#[test]
fn parse_keeps_blank_lines_as_one_empty_entry() {
    let v = parse_blocklist("1.1.1.1\n\n   \n2.2.2.2\n");
    assert_eq!(
        sorted(v),
        vec!["".to_string(), "1.1.1.1".to_string(), "2.2.2.2".to_string()]
    );
}

#[test]
fn parse_removes_duplicates() {
    let v = parse_blocklist("3.3.3.3\n 3.3.3.3\n3.3.3.3 \n");
    assert_eq!(v, vec!["3.3.3.3".to_string()]);
}

#[test]
fn parse_empty_text_has_no_entries() {
    assert!(parse_blocklist("").is_empty());
    assert_eq!(parse_blocklist("\n"), vec!["".to_string()]);
}

#[test]
fn parse_trims_unicode_white_space() {
    let v = parse_blocklist("\u{3000}4.4.4.4\u{a0}\n");
    assert_eq!(v, vec!["4.4.4.4".to_string()]);
}

#[test]
fn parse_keeps_lone_carriage_return_at_end() {
    // a bare `\r` at the very end is not a line ending, but it is white space
    let v = parse_blocklist("5.5.5.5\r");
    assert_eq!(v, vec!["5.5.5.5".to_string()]);
}

#[test]
fn new_cache_is_empty_and_stale() {
    let c = BannedIpsCache::new();
    assert_eq!(c.len(), 0);
    assert!(c.is_stale(5000, 0));
    assert!(c.is_stale(u64::MAX, 0));
    assert!(!c.contains(""));
}

#[test]
fn staleness_follows_ttl() {
    let c = loaded("1.1.1.1\n", 1000);
    assert!(!c.is_stale(5000, 1000));
    assert!(!c.is_stale(5000, 5999));
    assert!(c.is_stale(5000, 6000));
    assert!(c.is_stale(5000, 100_000));
    // a clock reading before the refresh counts as no time elapsed
    assert!(!c.is_stale(5000, 10));
    assert!(c.is_stale(0, 10));
}

#[test]
fn unlisted_addresses_are_allowed() {
    let c = loaded("1.1.1.1\n2.2.2.2\n", 0);
    assert_eq!(decide(&c, "3.3.3.3"), Decision::Allow);
    assert_eq!(decide(&c, "1.1.1.11"), Decision::Allow);
    assert_eq!(decide(&c, " 1.1.1.1"), Decision::Allow);
}

#[test]
fn listed_addresses_are_blocked() {
    let c = loaded("1.1.1.1\n  2.2.2.2  \n", 0);
    assert_eq!(decide(&c, "1.1.1.1"), Decision::Block);
    assert_eq!(decide(&c, "2.2.2.2"), Decision::Block);
}

#[test]
fn trailing_white_space_entry_scenario() {
    let c = loaded("9.9.9.9   \n", 0);
    assert_eq!(decide(&c, "9.9.9.9"), Decision::Block);
    assert_eq!(decide(&c, "9.9.9.8"), Decision::Allow);
    let h = health_check(&c);
    assert_eq!(h.status, "ok");
    assert_eq!(h.banned_ip_count, 1);
}

#[test]
fn health_counts_distinct_entries() {
    let c = loaded("1.1.1.1\n2.2.2.2\n1.1.1.1\n", 0);
    assert_eq!(health_check(&c).banned_ip_count, 2);
    assert_eq!(health_check(&BannedIpsCache::new()).banned_ip_count, 0);
}

#[test]
fn stale_cache_picks_up_changed_source() {
    let mut c = loaded("1.1.1.1\n", 0);
    assert_eq!(decide(&c, "1.1.1.1"), Decision::Block);
    assert!(!c.claim_refresh(5000, 4000));
    assert!(c.claim_refresh(5000, 5000));
    assert_eq!(c.refresh(SourceRead::Content("2.2.2.2\n".to_string()), 5001), Ok(()));
    assert_eq!(decide(&c, "1.1.1.1"), Decision::Allow);
    assert_eq!(decide(&c, "2.2.2.2"), Decision::Block);
    assert!(!c.is_stale(5000, 5002));
}

#[test]
fn concurrent_claims_give_one_refresh() {
    let mut c = loaded("1.1.1.1\n", 0);
    let granted = (0..50u64)
        .filter(|i| c.claim_refresh(5000, 6000 + i))
        .count();
    assert_eq!(granted, 1);
    assert_eq!(c.refresh(SourceRead::Content("1.1.1.1\n".to_string()), 6100), Ok(()));
    assert!(!c.claim_refresh(5000, 6200));
}

#[test]
fn forced_claim_waits_for_in_flight_refresh() {
    let mut c = loaded("1.1.1.1\n", 0);
    assert!(c.claim_refresh(0, 1));
    assert!(!c.claim_refresh(0, 2));
    assert_eq!(c.refresh(SourceRead::Missing, 3), Ok(()));
    assert!(c.claim_refresh(0, 4));
}

#[test]
fn failed_refresh_keeps_entries() {
    let mut c = loaded("7.7.7.7\n", 100);
    assert!(c.claim_refresh(5000, 6000));
    assert_eq!(c.refresh(SourceRead::Unreadable, 6001), Err(RefreshError::Unreadable));
    assert_eq!(decide(&c, "7.7.7.7"), Decision::Block);
    assert_eq!(c.len(), 1);
    // the refresh time is kept, so the cache is still stale, and the claim was released
    assert!(c.is_stale(5000, 6002));
    assert!(c.claim_refresh(5000, 6002));
}

#[test]
fn deleted_source_keeps_prior_entries() {
    let mut c = loaded("8.8.8.8\n", 0);
    assert_eq!(c.refresh(SourceRead::Missing, 10_000), Ok(()));
    assert_eq!(decide(&c, "8.8.8.8"), Decision::Block);
    assert_eq!(health_check(&c).banned_ip_count, 1);
    assert!(!c.is_stale(5000, 10_001));
}

#[test]
fn missing_source_at_start_bans_nothing() {
    let mut c = BannedIpsCache::new();
    assert_eq!(c.refresh(SourceRead::Missing, 0), Ok(()));
    assert_eq!(c.len(), 0);
    assert_eq!(decide(&c, "8.8.8.8"), Decision::Allow);
    assert!(!c.is_stale(5000, 1));
}

#[test]
fn new_content_replaces_entries_whole() {
    let mut c = loaded("1.1.1.1\n2.2.2.2\n", 0);
    assert_eq!(c.refresh(SourceRead::Content("".to_string()), 1), Ok(()));
    assert_eq!(c.len(), 0);
    assert_eq!(decide(&c, "1.1.1.1"), Decision::Allow);
}
