//! What a lookup amounts to, from start to end, against a wallet.
//!
//! The steps of the coordinator are put together here for a lookup that runs
//! alone: the wallet is read unless the policy skips it, the plan is carried
//! out, and a fetched payload is written unless the policy forbids it. The
//! statements below are about that whole.

use crate::coordinator::{lands, result_view, spec_cred_def_plan, spec_schema_plan, starts_or_joins, Flights, GetStep, Landing, Plan};
use crate::dispatcher::CommandHandle;
use crate::entry::{spec_encode, ArtifactKind, EntryView, KeyView, PoolHandle};
use crate::error::CacheError;
use crate::fetcher::{spec_refusal, Reply};
use crate::freshness::{age, CredDefOptions, FetchOptions, UNBOUNDED};
use crate::store::{erased, held, purge_all_leaves_nothing, put_is_an_upsert, record_key_carries_prefix, scanned, spec_prefix, spec_record_key, spec_sweep, sweep_lists_the_doomed, WalletModel, WalletRecord};
use vstd::prelude::*;

verus! {

/// How a lookup ended: its answer, the wallet it leaves, and how often it
/// asked the ledger.
pub struct Ending {
    pub result: Result<Seq<u8>, CacheError>,
    pub wallet: WalletModel,
    pub fetches: nat,
}

/// What the wallet answers to the read for an artifact.
pub open spec fn read(wallet: WalletModel, kind: ArtifactKind, id: Seq<char>) -> Option<Seq<u8>> {
    let key = spec_record_key(kind, id);
    if wallet.dom().contains(key) {
        Some(wallet[key])
    } else {
        None
    }
}

/// The end of a lookup that follows `plan`, where the ledger would answer
/// `ledger` at the time `now`.
pub open spec fn carried_out(
    plan: Plan,
    wallet: WalletModel,
    kind: ArtifactKind,
    id: Seq<char>,
    ledger: Result<Seq<u8>, CacheError>,
    now: u64,
) -> Ending {
    match plan {
        Plan::Serve(payload) => Ending { result: Ok(payload), wallet, fetches: 0 },
        Plan::Fail(error) => Ending { result: Err(error), wallet, fetches: 0 },
        Plan::Fetch { store } => Ending {
            result: ledger,
            wallet: match ledger {
                Ok(payload) => if store {
                    wallet.insert(
                        spec_record_key(kind, id),
                        spec_encode(EntryView { payload, fetched_at: now }),
                    )
                } else {
                    wallet
                },
                Err(_) => wallet,
            },
            fetches: 1,
        },
    }
}

/// The plan of a schema lookup from its start: with `no_cache` the wallet is
/// not read.
pub open spec fn schema_plan(wallet: WalletModel, id: Seq<char>, options: FetchOptions, now: u64) -> Plan {
    if !options.consistent() {
        Plan::Fail(CacheError::InvalidArgument)
    } else if options.no_cache {
        Plan::Fetch { store: !options.no_store }
    } else {
        spec_schema_plan(options, Ok(read(wallet, ArtifactKind::Schema, id)), now)
    }
}

/// The end of a schema lookup that runs alone.
pub open spec fn schema_lookup(
    wallet: WalletModel,
    id: Seq<char>,
    options: FetchOptions,
    ledger: Result<Seq<u8>, CacheError>,
    now: u64,
) -> Ending {
    carried_out(schema_plan(wallet, id, options, now), wallet, ArtifactKind::Schema, id, ledger, now)
}

/// The plan of a credential-definition lookup from its start: with
/// `force_update` the wallet is not read.
pub open spec fn cred_def_plan(wallet: WalletModel, id: Seq<char>, options: CredDefOptions) -> Plan {
    if options.force_update {
        Plan::Fetch { store: true }
    } else {
        spec_cred_def_plan(options, Ok(read(wallet, ArtifactKind::CredDef, id)))
    }
}

/// The end of a credential-definition lookup that runs alone.
pub open spec fn cred_def_lookup(
    wallet: WalletModel,
    id: Seq<char>,
    options: CredDefOptions,
    ledger: Result<Seq<u8>, CacheError>,
    now: u64,
) -> Ending {
    carried_out(cred_def_plan(wallet, id, options), wallet, ArtifactKind::CredDef, id, ledger, now)
}

/// The options of a call that names none.
pub open spec fn default_options() -> FetchOptions {
    FetchOptions { no_cache: false, no_update: false, no_store: false, min_fresh: UNBOUNDED }
}

/// A lookup with `no_cache` is a passthrough to the ledger: its answer is the
/// ledger's, whatever the wallet holds, and it asks the ledger once.
pub proof fn no_cache_is_a_passthrough(
    wallet: WalletModel,
    id: Seq<char>,
    options: FetchOptions,
    ledger: Result<Seq<u8>, CacheError>,
    now: u64,
)
    requires
        options.no_cache,
        options.consistent(),
    ensures
        schema_lookup(wallet, id, options, ledger, now).result == ledger,
        schema_lookup(wallet, id, options, ledger, now).fetches == 1,
{
}

/// A lookup with `no_store` leaves the wallet as it found it, so that a later
/// lookup ends as if the first had not taken place.
pub proof fn no_store_leaves_the_cache(
    wallet: WalletModel,
    id: Seq<char>,
    options: FetchOptions,
    ledger: Result<Seq<u8>, CacheError>,
    now: u64,
    later_options: FetchOptions,
    later_ledger: Result<Seq<u8>, CacheError>,
    later: u64,
)
    requires
        options.no_store,
    ensures
        schema_lookup(wallet, id, options, ledger, now).wallet == wallet,
        schema_lookup(
            schema_lookup(wallet, id, options, ledger, now).wallet,
            id,
            later_options,
            later_ledger,
            later,
        ) == schema_lookup(wallet, id, later_options, later_ledger, later),
{
}

/// A lookup with `no_update` never asks the ledger. It fails exactly if the
/// wallet holds no entry for the artifact.
pub proof fn no_update_never_fetches(
    wallet: WalletModel,
    id: Seq<char>,
    options: FetchOptions,
    ledger: Result<Seq<u8>, CacheError>,
    now: u64,
)
    requires
        options.no_update,
        options.consistent(),
    ensures
        schema_lookup(wallet, id, options, ledger, now).fetches == 0,
        schema_lookup(wallet, id, options, ledger, now).wallet == wallet,
        match held(wallet, ArtifactKind::Schema, id) {
            Some(entry) => schema_lookup(wallet, id, options, ledger, now).result == Ok::<
                Seq<u8>,
                CacheError,
            >(entry.payload),
            None => schema_lookup(wallet, id, options, ledger, now).result == Err::<
                Seq<u8>,
                CacheError,
            >(CacheError::StaleRequired),
        },
{
}

/// A lookup whose fetch fails writes nothing: what the wallet held stays, and
/// no entry comes into being. This holds of every failure, a reply of an
/// unknown transaction type among them.
pub proof fn failed_fetch_writes_nothing(
    wallet: WalletModel,
    id: Seq<char>,
    options: FetchOptions,
    error: CacheError,
    now: u64,
)
    ensures
        schema_lookup(wallet, id, options, Err(error), now).wallet == wallet,
{
}

/// A reply whose transaction type has no registered parser fails the fetch
/// with `UnknownTransactionType`, and the lookup that asked for it leaves the
/// wallet as it was: no cache entry comes of such a reply.
pub proof fn unknown_type_is_never_cached(
    registered: Set<Seq<char>>,
    reply: Reply,
    wallet: WalletModel,
    id: Seq<char>,
    options: FetchOptions,
    now: u64,
)
    requires
        !registered.contains(reply.txn_type@),
    ensures
        spec_refusal(registered, Ok(reply)) == Some(CacheError::UnknownTransactionType),
        schema_lookup(wallet, id, options, Err(CacheError::UnknownTransactionType), now).wallet
            == wallet,
        schema_lookup(wallet, id, options, Err(CacheError::UnknownTransactionType), now).fetches
            == 1 ==> schema_lookup(
            wallet,
            id,
            options,
            Err(CacheError::UnknownTransactionType),
            now,
        ).result == Err::<Seq<u8>, CacheError>(CacheError::UnknownTransactionType),
{
}

/// A forced credential-definition lookup asks the ledger whatever the wallet
/// holds, and stores what it gets.
pub proof fn force_update_refetches_and_stores(
    wallet: WalletModel,
    id: Seq<char>,
    payload: Seq<u8>,
    now: u64,
)
    ensures
        cred_def_lookup(wallet, id, CredDefOptions { force_update: true }, Ok(payload), now).result
            == Ok::<Seq<u8>, CacheError>(payload),
        cred_def_lookup(wallet, id, CredDefOptions { force_update: true }, Ok(payload), now).fetches
            == 1,
        held(
            cred_def_lookup(
                wallet,
                id,
                CredDefOptions { force_update: true },
                Ok(payload),
                now,
            ).wallet,
            ArtifactKind::CredDef,
            id,
        ) == Some(EntryView { payload, fetched_at: now }),
{
    put_is_an_upsert(
        wallet,
        ArtifactKind::CredDef,
        id,
        EntryView { payload, fetched_at: now },
        ArtifactKind::CredDef,
        id,
    );
}

/// A lookup on a cold cache fetches and stores; a lookup that follows within
/// the accepted age is served from the cache, with the same payload and without
/// asking the ledger.
pub proof fn fetched_once_then_served(
    wallet: WalletModel,
    id: Seq<char>,
    payload: Seq<u8>,
    fetched_at: u64,
    options: FetchOptions,
    ledger: Result<Seq<u8>, CacheError>,
    now: u64,
)
    requires
        held(wallet, ArtifactKind::Schema, id) is None,
        !options.no_cache,
        options.min_fresh == UNBOUNDED || age(fetched_at, now) <= options.min_fresh,
    ensures
        schema_lookup(wallet, id, default_options(), Ok(payload), fetched_at).result == Ok::<
            Seq<u8>,
            CacheError,
        >(payload),
        schema_lookup(wallet, id, default_options(), Ok(payload), fetched_at).fetches == 1,
        held(
            schema_lookup(wallet, id, default_options(), Ok(payload), fetched_at).wallet,
            ArtifactKind::Schema,
            id,
        ) == Some(EntryView { payload, fetched_at }),
        schema_lookup(
            schema_lookup(wallet, id, default_options(), Ok(payload), fetched_at).wallet,
            id,
            options,
            ledger,
            now,
        ).result == Ok::<Seq<u8>, CacheError>(payload),
        schema_lookup(
            schema_lookup(wallet, id, default_options(), Ok(payload), fetched_at).wallet,
            id,
            options,
            ledger,
            now,
        ).fetches == 0,
{
    put_is_an_upsert(
        wallet,
        ArtifactKind::Schema,
        id,
        EntryView { payload, fetched_at },
        ArtifactKind::Schema,
        id,
    );
}

/// After an unbounded purge every lookup of that kind ends as on an empty
/// wallet: it finds the cache cold.
pub proof fn purged_cache_is_cold(
    wallet: WalletModel,
    records: Seq<WalletRecord>,
    purged_at: u64,
    id: Seq<char>,
    options: FetchOptions,
    ledger: Result<Seq<u8>, CacheError>,
    now: u64,
)
    requires
        scanned(wallet, spec_prefix(ArtifactKind::Schema), records),
    ensures
        schema_lookup(
            erased(wallet, spec_sweep(records, UNBOUNDED, purged_at)),
            id,
            options,
            ledger,
            now,
        ).result == schema_lookup(Map::empty(), id, options, ledger, now).result,
        schema_lookup(
            erased(wallet, spec_sweep(records, UNBOUNDED, purged_at)),
            id,
            options,
            ledger,
            now,
        ).fetches == schema_lookup(Map::empty(), id, options, ledger, now).fetches,
{
    purge_all_leaves_nothing(
        wallet,
        ArtifactKind::Schema,
        records,
        purged_at,
        ArtifactKind::Schema,
        id,
    );
    let after = erased(wallet, spec_sweep(records, UNBOUNDED, purged_at));
    let key = spec_record_key(ArtifactKind::Schema, id);
    sweep_lists_the_doomed(records, UNBOUNDED, purged_at, key);
    record_key_carries_prefix(ArtifactKind::Schema, id, ArtifactKind::Schema);
    if wallet.dom().contains(key) {
        assert(spec_sweep(records, UNBOUNDED, purged_at).contains(key));
    }
    assert(!after.dom().contains(key));
}

/// Single flight. Of two lookups that need a fetch for a key that is not in
/// flight, the first is told to fetch and the second waits; when the fetch
/// lands, both get its result, and the key is in flight no more.
pub proof fn second_lookup_shares_the_fetch(
    flights: Flights,
    key: KeyView,
    first: CommandHandle,
    first_step: GetStep,
    first_store: bool,
    between: Flights,
    second: CommandHandle,
    second_step: GetStep,
    second_store: bool,
    after: Flights,
    pool: PoolHandle,
    submitter_did: Seq<char>,
    result: Result<Seq<u8>, CacheError>,
    now: u64,
    landing: Landing,
)
    requires
        !flights.dom().contains(key),
        starts_or_joins(flights, between, first_step, first, pool, submitter_did, key, first_store),
        starts_or_joins(between, after, second_step, second, pool, submitter_did, key, second_store),
        lands(Some(after[key]), key, result, now, landing),
    ensures
        first_step is Fetch,
        second_step is Wait,
        after[key].waiters == seq![first, second],
        landing.completions@.len() == 2,
        landing.completions@[0].handle == first,
        landing.completions@[1].handle == second,
        result_view(landing.completions@[0].result) == result,
        result_view(landing.completions@[1].result) == result,
        after.remove(key) == flights,
{
    assert(between.dom().contains(key));
    assert(after[key].waiters =~= seq![first, second]);
    assert(after.remove(key) =~= flights);
}

} // verus!
