//! The cache coordinator: policy, lookup, fetch, store and purge, step by step.
//!
//! A lookup starts with `get_schema` or `get_cred_def`. Each step names the
//! outside work that comes next: a wallet read, answered to `schema_read` or
//! `cred_def_read`, or a fetch, answered to `fetched`. At most one fetch is
//! under way for a key: a lookup that needs a fetch for a key that is already
//! being fetched waits, and gets its answer when that fetch lands.

use crate::dispatcher::CommandHandle;
use crate::entry::{spec_decode, spec_encode, ArtifactKind, CacheEntry, CacheKey, EntryView, KeyView, PoolHandle, WalletHandle};
use crate::error::{CacheError, StorageFailure};
use crate::fetcher::Fetched;
use crate::freshness::{spec_decide, spec_decide_cred_def, CredDefOptions, Decision, FetchOptions, FreshnessPolicy, PurgeOptions};
use crate::store::{key_views, spec_prefix, spec_record_key, spec_sweep, CacheStore, WalletErase, WalletRead, WalletRecord, WalletScan, WalletWrite};
use crate::text::copy_bytes;
use vstd::prelude::*;

verus! {

/// A schema lookup: where to ask, on whose behalf, for what, under which policy.
#[derive(Clone, Debug)]
pub struct SchemaCall {
    pub pool: PoolHandle,
    pub wallet: WalletHandle,
    pub submitter_did: String,
    pub id: String,
    pub options: FetchOptions,
}

/// A credential-definition lookup.
#[derive(Clone, Debug)]
pub struct CredDefCall {
    pub pool: PoolHandle,
    pub wallet: WalletHandle,
    pub submitter_did: String,
    pub id: String,
    pub options: CredDefOptions,
}

/// A purge of one kind's cache in one wallet.
#[derive(Clone, Copy, Debug, PartialEq, Eq, Structural)]
pub struct PurgeCall {
    pub wallet: WalletHandle,
    pub options: PurgeOptions,
}

/// What is handed to the fetch of an artifact.
#[derive(Clone, Debug)]
pub struct FetchRequest {
    pub pool: PoolHandle,
    pub submitter_did: String,
    pub key: CacheKey,
}

/// What a lookup does next.
pub enum GetStep {
    /// Read the wallet, then report the answer.
    ReadCache(WalletRead),
    /// Fetch the artifact, then report the outcome.
    Fetch(FetchRequest),
    /// The artifact is being fetched for an earlier lookup. The answer comes
    /// when that fetch lands.
    Wait,
    /// The lookup has ended.
    Done(Result<Vec<u8>, CacheError>),
}

/// The answer that one command gets.
pub struct Completion {
    pub handle: CommandHandle,
    pub result: Result<Vec<u8>, CacheError>,
}

/// What follows the end of a fetch: at most one wallet write, and the answers
/// for the lookups that waited for it. A failure of the write changes none of
/// the answers: the payload is then simply not cached.
pub struct Landing {
    pub write: Option<WalletWrite>,
    pub completions: Vec<Completion>,
}

/// What a purge does after its scan.
pub enum PurgeStep {
    /// Delete these records, then report how it went.
    Erase(WalletErase),
    /// The purge has ended.
    Done(Result<(), CacheError>),
}

/// A fetch that is under way: the lookups that wait for it, oldest first, and
/// whether any of them lets the payload be stored.
pub struct Flight {
    pub key: CacheKey,
    pub waiters: Vec<CommandHandle>,
    pub store: bool,
}

/// A flight as a mathematical value.
pub struct FlightView {
    pub waiters: Seq<CommandHandle>,
    pub store: bool,
}

/// The fetches under way, by key.
pub type Flights = Map<KeyView, FlightView>;

/// Whether the list holds a flight for the key.
pub open spec fn holds(flights: Seq<Flight>, key: KeyView) -> bool {
    exists|i: int| 0 <= i < flights.len() && (#[trigger] flights[i]).key@ == key
}

/// The place of a key's flight in the list.
pub open spec fn place(flights: Seq<Flight>, key: KeyView) -> int {
    choose|i: int| 0 <= i < flights.len() && (#[trigger] flights[i]).key@ == key
}

/// Whether no two flights in the list are for the same key, and none is
/// without a waiter.
pub open spec fn one_per_key(flights: Seq<Flight>) -> bool {
    &&& forall|i: int, j: int|
        0 <= i < j < flights.len() ==> (#[trigger] flights[i]).key@ != (#[trigger] flights[j]).key@
    &&& forall|i: int| 0 <= i < flights.len() ==> (#[trigger] flights[i]).waiters@.len() > 0
}

/// The flights of a list, by key.
pub open spec fn table(flights: Seq<Flight>) -> Flights {
    Map::new(
        |key: KeyView| holds(flights, key),
        |key: KeyView|
            {
                let flight = flights[place(flights, key)];
                FlightView { waiters: flight.waiters@, store: flight.store }
            },
    )
}

/// The flights after a lookup asked for a fetch of `key`: it joins the flight
/// for the key, or starts one.
pub open spec fn spec_join(flights: Flights, key: KeyView, handle: CommandHandle, store: bool) -> Flights {
    if flights.dom().contains(key) {
        flights.insert(
            key,
            FlightView {
                waiters: flights[key].waiters.push(handle),
                store: flights[key].store || store,
            },
        )
    } else {
        flights.insert(key, FlightView { waiters: seq![handle], store })
    }
}

/// Whether a lookup that asked for a fetch was dealt with as single flight
/// demands: it waits if the key was in flight, and otherwise is told to fetch,
/// with exactly what the call gave.
pub open spec fn starts_or_joins(
    before: Flights,
    after: Flights,
    step: GetStep,
    handle: CommandHandle,
    pool: PoolHandle,
    submitter_did: Seq<char>,
    key: KeyView,
    store: bool,
) -> bool {
    &&& after == spec_join(before, key, handle, store)
    &&& if before.dom().contains(key) {
        step is Wait
    } else {
        &&& step matches GetStep::Fetch(request)
        &&& request.pool == pool
        &&& request.submitter_did@ == submitter_did
        &&& request.key@ == key
    }
}

/// What a lookup does once the cache was read.
pub enum Plan {
    /// Answer with this payload.
    Serve(Seq<u8>),
    /// End with this error.
    Fail(CacheError),
    /// Fetch; store the payload unless the policy forbids it.
    Fetch { store: bool },
}

/// A wallet's answer to a read as a mathematical value.
pub open spec fn answer_view(answer: Result<Option<Vec<u8>>, StorageFailure>) -> Result<
    Option<Seq<u8>>,
    StorageFailure,
> {
    match answer {
        Ok(Some(value)) => Ok(Some(value@)),
        Ok(None) => Ok(None),
        Err(failure) => Err(failure),
    }
}

/// The entry that a wallet's answer to a read holds.
pub open spec fn answered(answer: Result<Option<Seq<u8>>, StorageFailure>) -> Option<EntryView> {
    match answer {
        Ok(Some(value)) => spec_decode(value),
        _ => None,
    }
}

/// The plan of a schema lookup, given the wallet's answer.
pub open spec fn spec_schema_plan(
    options: FetchOptions,
    answer: Result<Option<Seq<u8>>, StorageFailure>,
    now: u64,
) -> Plan {
    if !options.consistent() {
        Plan::Fail(CacheError::InvalidArgument)
    } else if answer is Err {
        Plan::Fail(CacheError::StorageFailure)
    } else {
        match spec_decide(options, answered(answer), now) {
            Decision::ServeCached => Plan::Serve(answered(answer)->0.payload),
            Decision::Refetch => Plan::Fetch { store: !options.no_store },
            Decision::ErrorStaleRequired => Plan::Fail(CacheError::StaleRequired),
        }
    }
}

/// The plan of a credential-definition lookup, given the wallet's answer. What
/// is fetched is stored.
pub open spec fn spec_cred_def_plan(
    options: CredDefOptions,
    answer: Result<Option<Seq<u8>>, StorageFailure>,
) -> Plan {
    if answer is Err {
        Plan::Fail(CacheError::StorageFailure)
    } else {
        match spec_decide_cred_def(options, answered(answer)) {
            Decision::ServeCached => Plan::Serve(answered(answer)->0.payload),
            _ => Plan::Fetch { store: true },
        }
    }
}

/// Whether a step carries out a plan.
pub open spec fn follows(
    plan: Plan,
    before: Flights,
    after: Flights,
    step: GetStep,
    handle: CommandHandle,
    pool: PoolHandle,
    submitter_did: Seq<char>,
    key: KeyView,
) -> bool {
    match plan {
        Plan::Serve(payload) => {
            &&& after == before
            &&& step matches GetStep::Done(Ok(bytes))
            &&& bytes@ == payload
        },
        Plan::Fail(error) => {
            &&& after == before
            &&& step matches GetStep::Done(Err(e))
            &&& e == error
        },
        Plan::Fetch { store } => starts_or_joins(
            before,
            after,
            step,
            handle,
            pool,
            submitter_did,
            key,
            store,
        ),
    }
}

/// The payload of a fetch outcome, or its error.
pub open spec fn payload_of(outcome: Result<Fetched, CacheError>) -> Result<Seq<u8>, CacheError> {
    match outcome {
        Ok(fetched) => Ok(fetched.payload@),
        Err(error) => Err(error),
    }
}

/// A result as a mathematical value.
pub open spec fn result_view(result: Result<Vec<u8>, CacheError>) -> Result<Seq<u8>, CacheError> {
    match result {
        Ok(bytes) => Ok(bytes@),
        Err(error) => Err(error),
    }
}

/// Appending a flight for a key that has none adds it to the table.
proof fn table_after_push(flights: Seq<Flight>, flight: Flight)
    requires
        one_per_key(flights),
        !holds(flights, flight.key@),
        flight.waiters@.len() > 0,
    ensures
        one_per_key(flights.push(flight)),
        table(flights.push(flight)) == table(flights).insert(
            flight.key@,
            FlightView { waiters: flight.waiters@, store: flight.store },
        ),
{
    let after = flights.push(flight);
    let last = flights.len() as int;
    assert(after[last] == flight);
    assert forall|a: int, b: int| 0 <= a < b < after.len() implies (#[trigger] after[a]).key@ != (
    #[trigger] after[b]).key@ by {
        assert(after[a] == flights[a]);
        if b < last {
            assert(after[b] == flights[b]);
        }
    }
    assert forall|a: int| 0 <= a < after.len() implies (#[trigger] after[a]).waiters@.len() > 0 by {
        if a < last {
            assert(after[a] == flights[a]);
        }
    }
    assert forall|key: KeyView| holds(after, key) <==> holds(flights, key) || key
        == flight.key@ by {
        if holds(flights, key) {
            let k = place(flights, key);
            assert(after[k].key@ == key);
        }
        if holds(after, key) {
            let k = place(after, key);
            if k != last {
                assert(flights[k].key@ == key);
            }
        }
    }
    assert forall|key: KeyView| holds(after, key) && key != flight.key@ implies after[place(
        after,
        key,
    )] == flights[place(flights, key)] by {
        let k = place(after, key);
        assert(flights[k].key@ == key);
        let m = place(flights, key);
        assert(after[m].key@ == key);
        assert(k == m);
    }
    let k = place(after, flight.key@);
    if k != last {
        assert(flights[k].key@ == flight.key@);
    }
    assert(table(after) =~= table(flights).insert(
        flight.key@,
        FlightView { waiters: flight.waiters@, store: flight.store },
    ));
}

/// Taking a flight out of the list takes it out of the table.
proof fn table_after_remove(flights: Seq<Flight>, i: int)
    requires
        one_per_key(flights),
        0 <= i < flights.len(),
    ensures
        one_per_key(flights.remove(i)),
        !holds(flights.remove(i), flights[i].key@),
        table(flights.remove(i)) == table(flights).remove(flights[i].key@),
        table(flights)[flights[i].key@] == (FlightView {
            waiters: flights[i].waiters@,
            store: flights[i].store,
        }),
        holds(flights, flights[i].key@),
{
    let after = flights.remove(i);
    let gone = flights[i].key@;
    assert forall|a: int| 0 <= a < after.len() implies #[trigger] after[a] == flights[if a < i {
        a
    } else {
        a + 1
    }] by {}
    assert forall|a: int, b: int| 0 <= a < b < after.len() implies (#[trigger] after[a]).key@ != (
    #[trigger] after[b]).key@ by {
        let a0 = if a < i { a } else { a + 1 };
        let b0 = if b < i { b } else { b + 1 };
        assert(after[a] == flights[a0]);
        assert(after[b] == flights[b0]);
    }
    assert forall|a: int| 0 <= a < after.len() implies (#[trigger] after[a]).waiters@.len() > 0 by {
        let a0 = if a < i { a } else { a + 1 };
        assert(after[a] == flights[a0]);
    }
    if holds(after, gone) {
        let k = place(after, gone);
        let k0 = if k < i { k } else { k + 1 };
        assert(after[k] == flights[k0]);
        if k0 < i {
            assert(flights[k0].key@ != flights[i].key@);
        } else {
            assert(flights[i].key@ != flights[k0].key@);
        }
    }
    assert forall|key: KeyView| holds(after, key) <==> holds(flights, key) && key != gone by {
        if holds(flights, key) && key != gone {
            let k = place(flights, key);
            let k1 = if k < i { k } else { k - 1 };
            assert(after[k1] == flights[k]);
        }
        if holds(after, key) {
            let k = place(after, key);
            let k0 = if k < i { k } else { k + 1 };
            assert(after[k] == flights[k0]);
            assert(flights[k0].key@ == key);
        }
    }
    assert forall|key: KeyView| holds(after, key) implies after[place(after, key)] == flights[place(
        flights,
        key,
    )] by {
        let k = place(after, key);
        let k0 = if k < i { k } else { k + 1 };
        assert(after[k] == flights[k0]);
        assert(flights[k0].key@ == key);
        let m = place(flights, key);
        if m != k0 {
            if m < k0 {
                assert(flights[m].key@ != flights[k0].key@);
            } else {
                assert(flights[k0].key@ != flights[m].key@);
            }
        }
    }
    let m = place(flights, gone);
    if m != i {
        if m < i {
            assert(flights[m].key@ != flights[i].key@);
        } else {
            assert(flights[i].key@ != flights[m].key@);
        }
    }
    assert(table(after) =~= table(flights).remove(gone));
}

/// Orchestrates lookups and purges, and keeps the fetches under way.
pub struct CacheCoordinator {
    flights: Vec<Flight>,
}

impl CacheCoordinator {
    #[verifier::type_invariant]
    spec fn well_formed(&self) -> bool {
        one_per_key(self.flights@)
    }

    /// The fetches under way, by key.
    pub closed spec fn view(&self) -> Flights {
        table(self.flights@)
    }

    /// A coordinator with no fetch under way.
    pub fn new() -> (coordinator: Self)
        ensures
            coordinator@ == Map::<KeyView, FlightView>::empty(),
    {
        let coordinator = CacheCoordinator { flights: Vec::new() };
        assert(coordinator@ =~= Map::<KeyView, FlightView>::empty());
        coordinator
    }

    /// Where the flight of a key stands in the list, if it has one.
    fn find(&self, key: &CacheKey) -> (found: Option<usize>)
        ensures
            match found {
                Some(i) => i < self.flights@.len() && self.flights@[i as int].key@ == key@,
                None => !holds(self.flights@, key@),
            },
    {
        let mut i: usize = 0;
        while i < self.flights.len()
            invariant
                0 <= i <= self.flights.len(),
                forall|k: int| 0 <= k < i ==> (#[trigger] self.flights@[k]).key@ != key@,
            decreases self.flights.len() - i,
        {
            if self.flights[i].key.same(key) {
                return Some(i);
            }
            i += 1;
        }
        None
    }

    /// Whether a fetch is under way for a key.
    pub fn in_flight(&self, key: &CacheKey) -> (flying: bool)
        ensures
            flying == self@.dom().contains(key@),
    {
        self.find(key).is_some()
    }

    /// Moves the flights out and leaves none.
    fn take(&mut self) -> (flights: Vec<Flight>)
        ensures
            flights@ == old(self).flights@,
            one_per_key(flights@),
            table(flights@) == old(self)@,
            final(self).flights@.len() == 0,
    {
        proof {
            use_type_invariant(&*self);
        }
        let mut flights: Vec<Flight> = Vec::new();
        core::mem::swap(&mut self.flights, &mut flights);
        flights
    }

    /// Registers a lookup that needs a fetch: as a waiter of the flight for
    /// its key, or as the first of a new one.
    fn need_fetch(&mut self, handle: CommandHandle, request: FetchRequest, store: bool) -> (step:
        GetStep)
        ensures
            starts_or_joins(
                old(self)@,
                final(self)@,
                step,
                handle,
                request.pool,
                request.submitter_did@,
                request.key@,
                store,
            ),
    {
        let found = self.find(&request.key);
        let mut flights = self.take();
        let ghost before = flights@;
        match found {
            Some(i) => {
                let mut flight = flights.remove(i);
                proof {
                    table_after_remove(before, i as int);
                }
                flight.waiters.push(handle);
                flight.store = flight.store || store;
                proof {
                    table_after_push(flights@, flight);
                    assert(table(flights@.push(flight)) =~= spec_join(
                        table(before),
                        request.key@,
                        handle,
                        store,
                    ));
                }
                flights.push(flight);
                self.flights = flights;
                GetStep::Wait
            },
            None => {
                let mut waiters: Vec<CommandHandle> = Vec::new();
                waiters.push(handle);
                let flight = Flight { key: request.key.duplicate(), waiters, store };
                proof {
                    table_after_push(before, flight);
                }
                flights.push(flight);
                self.flights = flights;
                GetStep::Fetch(request)
            },
        }
    }

    /// Carries out the plan of a lookup.
    fn carry_out(
        &mut self,
        handle: CommandHandle,
        decision: Decision,
        entry: Option<CacheEntry>,
        store: bool,
        request: FetchRequest,
    ) -> (step: GetStep)
        requires
            decision == Decision::ServeCached ==> entry is Some,
        ensures
            follows(
                match decision {
                    Decision::ServeCached => Plan::Serve(entry->0.payload@),
                    Decision::Refetch => Plan::Fetch { store },
                    Decision::ErrorStaleRequired => Plan::Fail(CacheError::StaleRequired),
                },
                old(self)@,
                final(self)@,
                step,
                handle,
                request.pool,
                request.submitter_did@,
                request.key@,
            ),
    {
        match decision {
            Decision::ServeCached => match entry {
                Some(e) => GetStep::Done(Ok(e.payload)),
                None => GetStep::Done(Err(CacheError::StaleRequired)),
            },
            Decision::ErrorStaleRequired => GetStep::Done(Err(CacheError::StaleRequired)),
            Decision::Refetch => self.need_fetch(handle, request, store),
        }
    }

    /// Starts a schema lookup. Options that exclude each other end it at once.
    /// With `no_cache` the wallet is not read: the lookup goes straight to the
    /// fetch. Otherwise the wallet is read first.
    pub fn get_schema(&mut self, handle: CommandHandle, call: &SchemaCall) -> (step: GetStep)
        ensures
            !call.options.consistent() ==> follows(
                Plan::Fail(CacheError::InvalidArgument),
                old(self)@,
                final(self)@,
                step,
                handle,
                call.pool,
                call.submitter_did@,
                schema_key(*call),
            ),
            call.options.consistent() && call.options.no_cache ==> follows(
                Plan::Fetch { store: !call.options.no_store },
                old(self)@,
                final(self)@,
                step,
                handle,
                call.pool,
                call.submitter_did@,
                schema_key(*call),
            ),
            call.options.consistent() && !call.options.no_cache ==> {
                &&& final(self)@ == old(self)@
                &&& step matches GetStep::ReadCache(read)
                &&& read.wallet == call.wallet
                &&& read.key@ == spec_record_key(ArtifactKind::Schema, call.id@)
            },
    {
        if call.options.validate().is_err() {
            return GetStep::Done(Err(CacheError::InvalidArgument));
        }
        let key = CacheKey { wallet: call.wallet, kind: ArtifactKind::Schema, id: call.id.clone() };
        if call.options.no_cache {
            let request = FetchRequest {
                pool: call.pool,
                submitter_did: call.submitter_did.clone(),
                key,
            };
            self.need_fetch(handle, request, !call.options.no_store)
        } else {
            GetStep::ReadCache(CacheStore::get(&key))
        }
    }

    /// Goes on with a schema lookup once the wallet has answered the read. A
    /// failed read ends the lookup. Otherwise the freshness policy decides: the
    /// cached payload is served, or the lookup ends for want of an entry, or the
    /// artifact is fetched.
    pub fn schema_read(
        &mut self,
        handle: CommandHandle,
        call: &SchemaCall,
        answer: Result<Option<Vec<u8>>, StorageFailure>,
        now: u64,
    ) -> (step: GetStep)
        ensures
            follows(
                spec_schema_plan(call.options, answer_view(answer), now),
                old(self)@,
                final(self)@,
                step,
                handle,
                call.pool,
                call.submitter_did@,
                schema_key(*call),
            ),
    {
        if call.options.validate().is_err() {
            return GetStep::Done(Err(CacheError::InvalidArgument));
        }
        match CacheStore::got(answer) {
            Err(error) => GetStep::Done(Err(error)),
            Ok(entry) => {
                let decision = FreshnessPolicy::decide(&call.options, &entry, now);
                let request = FetchRequest {
                    pool: call.pool,
                    submitter_did: call.submitter_did.clone(),
                    key: CacheKey {
                        wallet: call.wallet,
                        kind: ArtifactKind::Schema,
                        id: call.id.clone(),
                    },
                };
                self.carry_out(handle, decision, entry, !call.options.no_store, request)
            },
        }
    }

    /// Starts a credential-definition lookup. With `force_update` the wallet is
    /// not read: the lookup goes straight to the fetch, and what is fetched is
    /// stored. Otherwise the wallet is read first.
    pub fn get_cred_def(&mut self, handle: CommandHandle, call: &CredDefCall) -> (step: GetStep)
        ensures
            call.options.force_update ==> follows(
                Plan::Fetch { store: true },
                old(self)@,
                final(self)@,
                step,
                handle,
                call.pool,
                call.submitter_did@,
                cred_def_key(*call),
            ),
            !call.options.force_update ==> {
                &&& final(self)@ == old(self)@
                &&& step matches GetStep::ReadCache(read)
                &&& read.wallet == call.wallet
                &&& read.key@ == spec_record_key(ArtifactKind::CredDef, call.id@)
            },
    {
        let key = CacheKey { wallet: call.wallet, kind: ArtifactKind::CredDef, id: call.id.clone() };
        if call.options.force_update {
            let request = FetchRequest {
                pool: call.pool,
                submitter_did: call.submitter_did.clone(),
                key,
            };
            self.need_fetch(handle, request, true)
        } else {
            GetStep::ReadCache(CacheStore::get(&key))
        }
    }

    /// Goes on with a credential-definition lookup once the wallet has
    /// answered the read.
    pub fn cred_def_read(
        &mut self,
        handle: CommandHandle,
        call: &CredDefCall,
        answer: Result<Option<Vec<u8>>, StorageFailure>,
    ) -> (step: GetStep)
        ensures
            follows(
                spec_cred_def_plan(call.options, answer_view(answer)),
                old(self)@,
                final(self)@,
                step,
                handle,
                call.pool,
                call.submitter_did@,
                cred_def_key(*call),
            ),
    {
        match CacheStore::got(answer) {
            Err(error) => GetStep::Done(Err(error)),
            Ok(entry) => {
                let decision = FreshnessPolicy::decide_cred_def(&call.options, &entry);
                let request = FetchRequest {
                    pool: call.pool,
                    submitter_did: call.submitter_did.clone(),
                    key: CacheKey {
                        wallet: call.wallet,
                        kind: ArtifactKind::CredDef,
                        id: call.id.clone(),
                    },
                };
                self.carry_out(handle, decision, entry, true, request)
            },
        }
    }

    /// Ends the fetch for a key. Every lookup that waited for it gets the same
    /// answer: the payload, or the error of the fetch. The payload is written to
    /// the wallet, stamped `now`, if the fetch succeeded and one of the lookups
    /// lets it be stored; a failed fetch writes nothing. An outcome for a key
    /// that is not in flight is dropped.
    pub fn fetched(&mut self, key: &CacheKey, outcome: Result<Fetched, CacheError>, now: u64) -> (landing:
        Landing)
        ensures
            final(self)@ == old(self)@.remove(key@),
            lands(
                if old(self)@.dom().contains(key@) {
                    Some(old(self)@[key@])
                } else {
                    None
                },
                key@,
                payload_of(outcome),
                now,
                landing,
            ),
    {
        let found = self.find(key);
        let mut flights = self.take();
        let ghost before = flights@;
        match found {
            None => {
                self.flights = flights;
                assert(self@ =~= old(self)@.remove(key@));
                Landing { write: None, completions: Vec::new() }
            },
            Some(i) => {
                let flight = flights.remove(i);
                proof {
                    table_after_remove(before, i as int);
                }
                self.flights = flights;
                let ghost result = payload_of(outcome);
                let mut completions: Vec<Completion> = Vec::new();
                let mut n: usize = 0;
                match outcome {
                    Err(error) => {
                        while n < flight.waiters.len()
                            invariant
                                0 <= n <= flight.waiters.len(),
                                completions@.len() == n,
                                result == Err::<Seq<u8>, CacheError>(error),
                                forall|k: int|
                                    0 <= k < n ==> (#[trigger] completions@[k]).handle
                                        == flight.waiters@[k] && result_view(completions@[k].result)
                                        == result,
                            decreases flight.waiters.len() - n,
                        {
                            completions.push(
                                Completion { handle: flight.waiters[n], result: Err(error) },
                            );
                            n += 1;
                        }
                        Landing { write: None, completions }
                    },
                    Ok(fetched) => {
                        while n < flight.waiters.len()
                            invariant
                                0 <= n <= flight.waiters.len(),
                                completions@.len() == n,
                                result == Ok::<Seq<u8>, CacheError>(fetched.payload@),
                                forall|k: int|
                                    0 <= k < n ==> (#[trigger] completions@[k]).handle
                                        == flight.waiters@[k] && result_view(completions@[k].result)
                                        == result,
                            decreases flight.waiters.len() - n,
                        {
                            completions.push(
                                Completion {
                                    handle: flight.waiters[n],
                                    result: Ok(copy_bytes(&fetched.payload)),
                                },
                            );
                            n += 1;
                        }
                        let write = if flight.store {
                            let entry = CacheEntry { payload: fetched.payload, fetched_at: now };
                            Some(CacheStore::put(key, &entry))
                        } else {
                            None
                        };
                        Landing { write, completions }
                    },
                }
            },
        }
    }

    /// Starts a purge of the schema cache of a wallet: the scan to run.
    pub fn purge_schema_cache(call: &PurgeCall) -> (scan: WalletScan)
        ensures
            scan.wallet == call.wallet,
            scan.prefix@ == spec_prefix(ArtifactKind::Schema),
    {
        CacheStore::purge(call.wallet, ArtifactKind::Schema)
    }

    /// Starts a purge of the credential-definition cache of a wallet: the scan
    /// to run.
    pub fn purge_cred_def_cache(call: &PurgeCall) -> (scan: WalletScan)
        ensures
            scan.wallet == call.wallet,
            scan.prefix@ == spec_prefix(ArtifactKind::CredDef),
    {
        CacheStore::purge(call.wallet, ArtifactKind::CredDef)
    }

    /// Goes on with a purge once the wallet has answered the scan. A failed
    /// scan ends the purge with an error. Otherwise the records that the policy
    /// erases are to be deleted; if there are none, the purge has ended.
    pub fn purge_scanned(
        call: &PurgeCall,
        answer: Result<Vec<WalletRecord>, StorageFailure>,
        now: u64,
    ) -> (step: PurgeStep)
        ensures
            match answer {
                Err(_) => step matches PurgeStep::Done(Err(e)) && e == CacheError::StorageFailure,
                Ok(records) => if spec_sweep(records@, call.options.min_fresh, now).len() == 0 {
                    step matches PurgeStep::Done(Ok(_))
                } else {
                    &&& step matches PurgeStep::Erase(erase)
                    &&& erase.wallet == call.wallet
                    &&& key_views(erase.keys@) == spec_sweep(
                        records@,
                        call.options.min_fresh,
                        now,
                    )
                },
            },
    {
        match answer {
            Err(_) => PurgeStep::Done(Err(CacheError::StorageFailure)),
            Ok(records) => {
                let keys = CacheStore::sweep(&records, call.options.min_fresh, now);
                assert(key_views(keys@).len() == keys@.len());
                if keys.len() == 0 {
                    PurgeStep::Done(Ok(()))
                } else {
                    PurgeStep::Erase(WalletErase { wallet: call.wallet, keys })
                }
            },
        }
    }

    /// Ends a purge once the wallet has answered the delete. A failed delete
    /// fails the purge.
    pub fn purge_erased(answer: Result<(), StorageFailure>) -> (result: Result<(), CacheError>)
        ensures
            answer is Ok <==> result is Ok,
            result matches Err(e) ==> e == CacheError::StorageFailure,
    {
        match answer {
            Ok(()) => Ok(()),
            Err(_) => Err(CacheError::StorageFailure),
        }
    }
}

/// The key of the artifact that a schema lookup asks for.
pub open spec fn schema_key(call: SchemaCall) -> KeyView {
    KeyView { wallet: call.wallet, kind: ArtifactKind::Schema, id: call.id@ }
}

/// The key of the artifact that a credential-definition lookup asks for.
pub open spec fn cred_def_key(call: CredDefCall) -> KeyView {
    KeyView { wallet: call.wallet, kind: ArtifactKind::CredDef, id: call.id@ }
}

/// The write that stores a fetched payload.
pub open spec fn stores(write: WalletWrite, key: KeyView, payload: Seq<u8>, now: u64) -> bool {
    &&& write.wallet == key.wallet
    &&& write.key@ == spec_record_key(key.kind, key.id)
    &&& write.value@ == spec_encode(EntryView { payload, fetched_at: now })
}

/// Whether a landing is what the end of a fetch owes. Without a flight it is
/// empty. With one, every waiter gets the result of the fetch, in the order in
/// which the lookups came, and the payload is written exactly if the fetch
/// succeeded and the flight lets it be stored.
pub open spec fn lands(
    flight: Option<FlightView>,
    key: KeyView,
    result: Result<Seq<u8>, CacheError>,
    now: u64,
    landing: Landing,
) -> bool {
    match flight {
        None => landing.write is None && landing.completions@.len() == 0,
        Some(f) => {
            &&& landing.completions@.len() == f.waiters.len()
            &&& forall|k: int|
                0 <= k < f.waiters.len() ==> (#[trigger] landing.completions@[k]).handle
                    == f.waiters[k] && result_view(landing.completions@[k].result) == result
            &&& match result {
                Ok(payload) => if f.store {
                    landing.write matches Some(write) && stores(write, key, payload, now)
                } else {
                    landing.write is None
                },
                Err(_) => landing.write is None,
            }
        },
    }
}

} // verus!
