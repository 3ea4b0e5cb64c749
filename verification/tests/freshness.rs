use libindy::entry::CacheEntry;
use libindy::error::CacheError;
use libindy::freshness::{
    is_within, CredDefOptions, Decision, FetchOptions, FreshnessPolicy, PurgeOptions, UNBOUNDED,
};

fn options(min_fresh: i64) -> FetchOptions {
    FetchOptions { no_cache: false, no_update: false, no_store: false, min_fresh }
}

fn entry_at(fetched_at: u64) -> Option<CacheEntry> {
    Some(CacheEntry { payload: vec![1, 2, 3], fetched_at })
}

#[test]
fn min_fresh_boundary_is_inclusive() {
    let now: u64 = 1_000_000;
    let entry = entry_at(now - 100);
    assert_eq!(FreshnessPolicy::decide(&options(100), &entry, now), Decision::ServeCached);
    assert_eq!(FreshnessPolicy::decide(&options(99), &entry, now), Decision::Refetch);
}

#[test]
fn no_entry_refetches_unless_update_is_forbidden() {
    assert_eq!(FreshnessPolicy::decide(&options(UNBOUNDED), &None, 50), Decision::Refetch);
    let mut only_cached = options(UNBOUNDED);
    only_cached.no_update = true;
    assert_eq!(FreshnessPolicy::decide(&only_cached, &None, 50), Decision::ErrorStaleRequired);
}

#[test]
fn no_cache_sets_a_fresh_entry_aside() {
    let mut skip = options(UNBOUNDED);
    skip.no_cache = true;
    assert_eq!(FreshnessPolicy::decide(&skip, &entry_at(10), 10), Decision::Refetch);
}

#[test]
fn unbounded_age_serves_an_old_entry() {
    assert_eq!(
        FreshnessPolicy::decide(&options(UNBOUNDED), &entry_at(0), u64::MAX),
        Decision::ServeCached
    );
}

#[test]
fn stale_entry_is_served_when_update_is_forbidden() {
    let mut only_cached = options(10);
    only_cached.no_update = true;
    assert_eq!(FreshnessPolicy::decide(&only_cached, &entry_at(0), 1000), Decision::ServeCached);
    assert_eq!(FreshnessPolicy::decide(&options(10), &entry_at(0), 1000), Decision::Refetch);
}

#[test]
fn entry_from_the_future_counts_as_fresh() {
    assert_eq!(FreshnessPolicy::decide(&options(0), &entry_at(500), 400), Decision::ServeCached);
}

#[test]
fn zero_bound_serves_only_what_was_fetched_now() {
    assert_eq!(FreshnessPolicy::decide(&options(0), &entry_at(400), 400), Decision::ServeCached);
    assert_eq!(FreshnessPolicy::decide(&options(0), &entry_at(399), 400), Decision::Refetch);
}

#[test]
fn decide_gives_the_same_answer_twice() {
    let now: u64 = 77;
    for no_cache in [false, true] {
        for no_update in [false, true] {
            for min_fresh in [-1i64, 0, 5, 100] {
                for entry in [None, entry_at(0), entry_at(72), entry_at(77)] {
                    let o = FetchOptions { no_cache, no_update, no_store: false, min_fresh };
                    let first = FreshnessPolicy::decide(&o, &entry, now);
                    let second = FreshnessPolicy::decide(&o, &entry, now);
                    assert_eq!(first, second);
                }
            }
        }
    }
}

#[test]
fn payload_and_no_store_play_no_part_in_the_decision() {
    let a = Some(CacheEntry { payload: vec![], fetched_at: 90 });
    let b = Some(CacheEntry { payload: vec![9; 40], fetched_at: 90 });
    let mut keep = options(10);
    keep.no_store = true;
    assert_eq!(
        FreshnessPolicy::decide(&options(10), &a, 100),
        FreshnessPolicy::decide(&keep, &b, 100)
    );
    assert_eq!(FreshnessPolicy::decide(&options(10), &a, 101), Decision::Refetch);
    assert_eq!(FreshnessPolicy::decide(&keep, &b, 101), Decision::Refetch);
}

#[test]
fn cred_def_policy() {
    let forced = CredDefOptions { force_update: true };
    let plain = CredDefOptions { force_update: false };
    assert_eq!(FreshnessPolicy::decide_cred_def(&forced, &entry_at(5)), Decision::Refetch);
    assert_eq!(FreshnessPolicy::decide_cred_def(&forced, &None), Decision::Refetch);
    assert_eq!(FreshnessPolicy::decide_cred_def(&plain, &entry_at(5)), Decision::ServeCached);
    assert_eq!(FreshnessPolicy::decide_cred_def(&plain, &None), Decision::Refetch);
}

#[test]
fn is_within_at_the_limits_of_the_clock() {
    assert!(is_within(UNBOUNDED, 0, u64::MAX));
    assert!(!is_within(i64::MAX, 0, u64::MAX));
    assert!(is_within(i64::MAX, u64::MAX, 0));
    assert!(is_within(i64::MIN, u64::MAX, 0));
    assert!(!is_within(i64::MIN, 0, 0));
    assert!(is_within(-2, 10, 8));
    assert!(!is_within(-2, 10, 9));
}

#[test]
fn options_that_exclude_each_other_are_turned_down() {
    let mut o = options(UNBOUNDED);
    assert_eq!(o.validate(), Ok(()));
    o.no_cache = true;
    assert_eq!(o.validate(), Ok(()));
    o.no_update = true;
    assert_eq!(o.validate(), Err(CacheError::InvalidArgument));
    o.no_cache = false;
    assert_eq!(o.validate(), Ok(()));
}

#[test]
fn default_options() {
    assert_eq!(
        FetchOptions::default(),
        FetchOptions { no_cache: false, no_update: false, no_store: false, min_fresh: -1 }
    );
    assert_eq!(CredDefOptions::default(), CredDefOptions { force_update: false });
    assert_eq!(PurgeOptions::default(), PurgeOptions { min_fresh: -1 });
}
