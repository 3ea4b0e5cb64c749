//! The freshness policy: whether a cached entry may be served.

use crate::entry::{entry_view, CacheEntry, EntryView};
use crate::error::CacheError;
use vstd::prelude::*;

verus! {

/// Per-call cache policy of a schema lookup.
#[derive(Clone, Copy, Debug, PartialEq, Eq, Structural)]
pub struct FetchOptions {
    /// Skip the cache: neither look at it nor let it answer.
    pub no_cache: bool,
    /// Use only what is cached: never ask the ledger.
    pub no_update: bool,
    /// Do not store what the ledger answered.
    pub no_store: bool,
    /// Serve a cached entry only if it is no older than this many seconds;
    /// `UNBOUNDED` accepts any age.
    pub min_fresh: i64,
}

/// Per-call cache policy of a credential-definition lookup.
#[derive(Clone, Copy, Debug, PartialEq, Eq, Structural)]
pub struct CredDefOptions {
    /// Ask the ledger whatever is cached.
    pub force_update: bool,
}

/// Policy of a purge.
#[derive(Clone, Copy, Debug, PartialEq, Eq, Structural)]
pub struct PurgeOptions {
    /// Erase entries older than this many seconds; `UNBOUNDED` erases all.
    pub min_fresh: i64,
}

/// What a lookup does next.
#[derive(Clone, Copy, Debug, PartialEq, Eq, Structural)]
pub enum Decision {
    /// Hand back the cached payload.
    ServeCached,
    /// Ask the ledger.
    Refetch,
    /// Nothing is cached and asking the ledger is forbidden.
    ErrorStaleRequired,
}

/// The age bound that accepts any age on a lookup and erases everything on a purge.
pub const UNBOUNDED: i64 = -1;

/// Seconds between the moment an entry was fetched and `now`; negative for an
/// entry stamped later than `now`.
pub open spec fn age(fetched_at: u64, now: u64) -> int {
    now - fetched_at
}

/// Whether an entry fetched at `fetched_at` is within `min_fresh` seconds at `now`.
pub open spec fn within(min_fresh: i64, fetched_at: u64, now: u64) -> bool {
    min_fresh == UNBOUNDED || age(fetched_at, now) <= min_fresh
}

/// Whether an entry fetched at `fetched_at` is within `min_fresh` seconds at `now`.
pub fn is_within(min_fresh: i64, fetched_at: u64, now: u64) -> (fresh: bool)
    ensures
        fresh == within(min_fresh, fetched_at, now),
{
    if min_fresh == UNBOUNDED {
        true
    } else {
        let elapsed: i128 = now as i128 - fetched_at as i128;
        elapsed <= min_fresh as i128
    }
}

impl FetchOptions {
    /// Options that can be honoured together. Skipping the cache and never
    /// asking the ledger exclude each other: nothing would be left to answer.
    pub open spec fn consistent(self) -> bool {
        !(self.no_cache && self.no_update)
    }

    /// Turns down options that exclude each other.
    pub fn validate(&self) -> (checked: Result<(), CacheError>)
        ensures
            checked is Ok <==> self.consistent(),
            checked is Err ==> checked == Err::<(), CacheError>(CacheError::InvalidArgument),
    {
        if self.no_cache && self.no_update {
            Err(CacheError::InvalidArgument)
        } else {
            Ok(())
        }
    }
}

impl Default for FetchOptions {
    /// Use the cache, refresh when needed, store what was fetched, accept any age.
    fn default() -> (options: FetchOptions)
        ensures
            options == (FetchOptions {
                no_cache: false,
                no_update: false,
                no_store: false,
                min_fresh: UNBOUNDED,
            }),
    {
        FetchOptions { no_cache: false, no_update: false, no_store: false, min_fresh: UNBOUNDED }
    }
}

impl Default for CredDefOptions {
    /// Serve what is cached.
    fn default() -> (options: CredDefOptions)
        ensures
            options == (CredDefOptions { force_update: false }),
    {
        CredDefOptions { force_update: false }
    }
}

impl Default for PurgeOptions {
    /// Erase everything.
    fn default() -> (options: PurgeOptions)
        ensures
            options == (PurgeOptions { min_fresh: UNBOUNDED }),
    {
        PurgeOptions { min_fresh: UNBOUNDED }
    }
}

/// The decision for a schema lookup, given what the cache holds for the key.
///
/// Without an entry the ledger is asked, unless that is forbidden. With one,
/// `no_cache` sets it aside; otherwise it is served if it is fresh enough, and
/// also when it is stale but the ledger may not be asked.
pub open spec fn spec_decide(options: FetchOptions, entry: Option<EntryView>, now: u64) -> Decision {
    match entry {
        None => if options.no_update {
            Decision::ErrorStaleRequired
        } else {
            Decision::Refetch
        },
        Some(e) => if options.no_cache {
            Decision::Refetch
        } else if within(options.min_fresh, e.fetched_at, now) {
            Decision::ServeCached
        } else if options.no_update {
            Decision::ServeCached
        } else {
            Decision::Refetch
        },
    }
}

/// The decision for a credential-definition lookup.
pub open spec fn spec_decide_cred_def(options: CredDefOptions, entry: Option<EntryView>) -> Decision {
    if options.force_update {
        Decision::Refetch
    } else if entry is Some {
        Decision::ServeCached
    } else {
        Decision::Refetch
    }
}

/// Evaluates cache policy. It has no state and touches nothing: its answers
/// depend on its arguments alone.
pub struct FreshnessPolicy;

impl FreshnessPolicy {
    /// Decides what a schema lookup does next.
    pub fn decide(options: &FetchOptions, entry: &Option<CacheEntry>, now: u64) -> (decision:
        Decision)
        ensures
            decision == spec_decide(*options, entry_view(*entry), now),
    {
        match entry {
            None => {
                if options.no_update {
                    Decision::ErrorStaleRequired
                } else {
                    Decision::Refetch
                }
            },
            Some(e) => {
                if options.no_cache {
                    Decision::Refetch
                } else if is_within(options.min_fresh, e.fetched_at, now) {
                    Decision::ServeCached
                } else if options.no_update {
                    Decision::ServeCached
                } else {
                    Decision::Refetch
                }
            },
        }
    }

    /// Decides what a credential-definition lookup does next.
    pub fn decide_cred_def(options: &CredDefOptions, entry: &Option<CacheEntry>) -> (decision:
        Decision)
        ensures
            decision == spec_decide_cred_def(*options, entry_view(*entry)),
    {
        if options.force_update {
            Decision::Refetch
        } else if entry.is_some() {
            Decision::ServeCached
        } else {
            Decision::Refetch
        }
    }
}

/// Equal arguments give equal decisions.
pub proof fn decide_is_deterministic(
    options_a: FetchOptions,
    entry_a: Option<EntryView>,
    now_a: u64,
    options_b: FetchOptions,
    entry_b: Option<EntryView>,
    now_b: u64,
)
    requires
        options_a == options_b,
        entry_a == entry_b,
        now_a == now_b,
    ensures
        spec_decide(options_a, entry_a, now_a) == spec_decide(options_b, entry_b, now_b),
{
}

/// The payload of an entry plays no part in the decision: only its fetch
/// time does.
pub proof fn decide_ignores_payload(options: FetchOptions, a: EntryView, b: EntryView, now: u64)
    requires
        a.fetched_at == b.fetched_at,
    ensures
        spec_decide(options, Some(a), now) == spec_decide(options, Some(b), now),
{
}

/// The age bound is inclusive. An entry exactly `min_fresh` seconds old is
/// served; one second older it is refetched, where the ledger may be asked.
pub proof fn age_bound_is_inclusive(options: FetchOptions, entry: EntryView, now: u64)
    requires
        !options.no_cache,
        options.min_fresh >= 0,
    ensures
        age(entry.fetched_at, now) == options.min_fresh ==> spec_decide(options, Some(entry), now)
            == Decision::ServeCached,
        age(entry.fetched_at, now) == options.min_fresh + 1 && !options.no_update ==> spec_decide(
            options,
            Some(entry),
            now,
        ) == Decision::Refetch,
{
}

/// With `no_cache` set and consistent options the decision is to refetch,
/// whatever the cache holds: the lookup need not read the cache at all.
pub proof fn no_cache_always_refetches(options: FetchOptions, entry: Option<EntryView>, now: u64)
    requires
        options.no_cache,
        options.consistent(),
    ensures
        spec_decide(options, entry, now) == Decision::Refetch,
{
}

/// With `no_update` set the decision is never to refetch, unless the cache is
/// set aside, which consistent options exclude.
pub proof fn no_update_never_refetches(options: FetchOptions, entry: Option<EntryView>, now: u64)
    requires
        options.no_update,
        options.consistent(),
    ensures
        spec_decide(options, entry, now) != Decision::Refetch,
        entry is None <==> spec_decide(options, entry, now) == Decision::ErrorStaleRequired,
{
}

/// An unbounded age serves whatever is cached.
pub proof fn unbounded_serves_any_age(options: FetchOptions, entry: EntryView, now: u64)
    requires
        !options.no_cache,
        options.min_fresh == UNBOUNDED,
    ensures
        spec_decide(options, Some(entry), now) == Decision::ServeCached,
{
}

} // verus!
