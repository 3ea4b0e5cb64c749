use std::collections::HashMap;

use libindy::coordinator::{
    CacheCoordinator, CredDefCall, GetStep, Landing, PurgeCall, PurgeStep, SchemaCall,
};
use libindy::entry::{ArtifactKind, CacheEntry, CacheKey, WalletHandle};
use libindy::error::{CacheError, StorageFailure};
use libindy::fetcher::{Fetched, ResponseMetadata};
use libindy::freshness::{CredDefOptions, FetchOptions, PurgeOptions};
use libindy::store::WalletRecord;

const W: WalletHandle = WalletHandle(1);
const P: i32 = 5;

struct Wallet {
    records: HashMap<String, Vec<u8>>,
    failing: bool,
    reads: usize,
}

impl Wallet {
    fn new() -> Wallet {
        Wallet { records: HashMap::new(), failing: false, reads: 0 }
    }

    fn get(&mut self, key: &str) -> Result<Option<Vec<u8>>, StorageFailure> {
        self.reads += 1;
        if self.failing {
            return Err(StorageFailure);
        }
        Ok(self.records.get(key).cloned())
    }

    fn scan(&self, prefix: &str) -> Result<Vec<WalletRecord>, StorageFailure> {
        if self.failing {
            return Err(StorageFailure);
        }
        let mut found: Vec<WalletRecord> = self
            .records
            .iter()
            .filter(|(key, _)| key.starts_with(prefix))
            .map(|(key, value)| WalletRecord { key: key.clone(), value: value.clone() })
            .collect();
        found.sort_by_key(|record| record.key.clone());
        Ok(found)
    }

    fn apply(&mut self, landing: &Landing) {
        if let Some(write) = &landing.write {
            if !self.failing {
                self.records.insert(write.key.clone(), write.value.clone());
            }
        }
    }
}

struct Ledger {
    answer: Result<Vec<u8>, CacheError>,
    fetches: usize,
}

impl Ledger {
    fn answering(payload: &[u8]) -> Ledger {
        Ledger { answer: Ok(payload.to_vec()), fetches: 0 }
    }

    fn failing(error: CacheError) -> Ledger {
        Ledger { answer: Err(error), fetches: 0 }
    }

    fn fetch(&mut self) -> Result<Fetched, CacheError> {
        self.fetches += 1;
        match &self.answer {
            Ok(payload) => Ok(Fetched {
                payload: payload.clone(),
                metadata: ResponseMetadata {
                    seq_no: None,
                    txn_time: None,
                    last_seq_no: None,
                    last_txn_time: None,
                },
            }),
            Err(error) => Err(*error),
        }
    }
}

fn schema_call(id: &str, options: FetchOptions) -> SchemaCall {
    SchemaCall {
        pool: P,
        wallet: W,
        submitter_did: "did".to_string(),
        id: id.to_string(),
        options,
    }
}

fn default_options() -> FetchOptions {
    FetchOptions::default()
}

fn get_schema(
    coordinator: &mut CacheCoordinator,
    wallet: &mut Wallet,
    ledger: &mut Ledger,
    handle: u64,
    call: &SchemaCall,
    now: u64,
) -> Result<Vec<u8>, CacheError> {
    let mut step = coordinator.get_schema(handle, call);
    if let GetStep::ReadCache(read) = &step {
        assert_eq!(read.wallet, call.wallet);
        let answer = wallet.get(&read.key);
        step = coordinator.schema_read(handle, call, answer, now);
    }
    match step {
        GetStep::Done(result) => result,
        GetStep::Fetch(request) => {
            assert_eq!(request.pool, call.pool);
            assert_eq!(request.submitter_did, call.submitter_did);
            assert_eq!(request.key.id, call.id);
            let outcome = ledger.fetch();
            let landing = coordinator.fetched(&request.key, outcome, now);
            wallet.apply(&landing);
            assert_eq!(landing.completions.len(), 1);
            assert_eq!(landing.completions[0].handle, handle);
            landing.completions.into_iter().next().unwrap().result
        }
        GetStep::Wait => panic!("a lone lookup was told to wait"),
        GetStep::ReadCache(_) => panic!("the wallet was read twice"),
    }
}

fn purge_schemas(wallet: &mut Wallet, min_fresh: i64, now: u64) -> Result<(), CacheError> {
    let call = PurgeCall { wallet: W, options: PurgeOptions { min_fresh } };
    let scan = CacheCoordinator::purge_schema_cache(&call);
    let answer = wallet.scan(&scan.prefix);
    match CacheCoordinator::purge_scanned(&call, answer, now) {
        PurgeStep::Done(result) => result,
        PurgeStep::Erase(erase) => {
            assert_eq!(erase.wallet, W);
            for key in &erase.keys {
                wallet.records.remove(key);
            }
            CacheCoordinator::purge_erased(Ok(()))
        }
    }
}

#[test]
fn end_to_end_fetch_then_serve() {
    let mut coordinator = CacheCoordinator::new();
    let mut wallet = Wallet::new();
    let mut ledger = Ledger::answering(b"X");
    let t0 = 1_000;
    let first = get_schema(
        &mut coordinator,
        &mut wallet,
        &mut ledger,
        1,
        &schema_call("schemaId1", default_options()),
        t0,
    );
    assert_eq!(first, Ok(b"X".to_vec()));
    assert_eq!(ledger.fetches, 1);
    let stored = CacheEntry::decode(&wallet.records["schema:schemaId1"]).unwrap();
    assert_eq!(stored.fetched_at, t0);
    assert_eq!(stored.payload, b"X".to_vec());

    let mut within = default_options();
    within.min_fresh = 3600;
    ledger.answer = Ok(b"Y".to_vec());
    let second = get_schema(
        &mut coordinator,
        &mut wallet,
        &mut ledger,
        2,
        &schema_call("schemaId1", within),
        t0 + 10,
    );
    assert_eq!(second, Ok(b"X".to_vec()));
    assert_eq!(ledger.fetches, 1);
}

#[test]
fn stale_entry_is_refreshed() {
    let mut coordinator = CacheCoordinator::new();
    let mut wallet = Wallet::new();
    let mut ledger = Ledger::answering(b"old");
    get_schema(&mut coordinator, &mut wallet, &mut ledger, 1, &schema_call("s", default_options()), 100)
        .unwrap();
    ledger.answer = Ok(b"new".to_vec());
    let mut bounded = default_options();
    bounded.min_fresh = 50;
    let again = get_schema(&mut coordinator, &mut wallet, &mut ledger, 2, &schema_call("s", bounded), 151);
    assert_eq!(again, Ok(b"new".to_vec()));
    assert_eq!(ledger.fetches, 2);
    let stored = CacheEntry::decode(&wallet.records["schema:s"]).unwrap();
    assert_eq!(stored.fetched_at, 151);
    assert_eq!(stored.payload, b"new".to_vec());
}

#[test]
fn no_cache_never_reads_the_wallet() {
    let mut coordinator = CacheCoordinator::new();
    let mut wallet = Wallet::new();
    let mut ledger = Ledger::answering(b"cached");
    get_schema(&mut coordinator, &mut wallet, &mut ledger, 1, &schema_call("s", default_options()), 100)
        .unwrap();
    let reads_before = wallet.reads;
    ledger.answer = Ok(b"direct".to_vec());
    let mut skip = default_options();
    skip.no_cache = true;
    let passthrough = get_schema(&mut coordinator, &mut wallet, &mut ledger, 2, &schema_call("s", skip), 100);
    assert_eq!(passthrough, Ok(b"direct".to_vec()));
    assert_eq!(wallet.reads, reads_before);
    assert_eq!(ledger.fetches, 2);

    ledger.answer = Err(CacheError::TransportFailure);
    let failed = get_schema(&mut coordinator, &mut wallet, &mut ledger, 3, &schema_call("s", skip), 100);
    assert_eq!(failed, Err(CacheError::TransportFailure));
    assert_eq!(wallet.reads, reads_before);
}

#[test]
fn no_store_leaves_the_cache_as_it_was() {
    let mut coordinator = CacheCoordinator::new();
    let mut wallet = Wallet::new();
    let mut ledger = Ledger::answering(b"fresh");
    let mut keep_out = default_options();
    keep_out.no_store = true;
    let first = get_schema(&mut coordinator, &mut wallet, &mut ledger, 1, &schema_call("s", keep_out), 10);
    assert_eq!(first, Ok(b"fresh".to_vec()));
    assert!(wallet.records.is_empty());

    ledger.answer = Ok(b"second".to_vec());
    let second =
        get_schema(&mut coordinator, &mut wallet, &mut ledger, 2, &schema_call("s", default_options()), 11);
    assert_eq!(second, Ok(b"second".to_vec()));
    assert_eq!(ledger.fetches, 2);

    ledger.answer = Ok(b"third".to_vec());
    keep_out.no_cache = true;
    let third = get_schema(&mut coordinator, &mut wallet, &mut ledger, 3, &schema_call("s", keep_out), 12);
    assert_eq!(third, Ok(b"third".to_vec()));
    let stored = CacheEntry::decode(&wallet.records["schema:s"]).unwrap();
    assert_eq!(stored.payload, b"second".to_vec());
    assert_eq!(stored.fetched_at, 11);
}

#[test]
fn no_update_never_asks_the_ledger() {
    let mut coordinator = CacheCoordinator::new();
    let mut wallet = Wallet::new();
    let mut ledger = Ledger::answering(b"v");
    let mut only_cached = default_options();
    only_cached.no_update = true;
    only_cached.min_fresh = 5;
    let miss = get_schema(&mut coordinator, &mut wallet, &mut ledger, 1, &schema_call("s", only_cached), 10);
    assert_eq!(miss, Err(CacheError::StaleRequired));
    assert_eq!(ledger.fetches, 0);

    get_schema(&mut coordinator, &mut wallet, &mut ledger, 2, &schema_call("s", default_options()), 10)
        .unwrap();
    assert_eq!(ledger.fetches, 1);
    let stale = get_schema(&mut coordinator, &mut wallet, &mut ledger, 3, &schema_call("s", only_cached), 500);
    assert_eq!(stale, Ok(b"v".to_vec()));
    assert_eq!(ledger.fetches, 1);
}

#[test]
fn options_that_exclude_each_other_end_the_lookup() {
    let mut coordinator = CacheCoordinator::new();
    let mut wallet = Wallet::new();
    let mut ledger = Ledger::answering(b"v");
    let both = FetchOptions { no_cache: true, no_update: true, no_store: false, min_fresh: -1 };
    let result = get_schema(&mut coordinator, &mut wallet, &mut ledger, 1, &schema_call("s", both), 10);
    assert_eq!(result, Err(CacheError::InvalidArgument));
    assert_eq!(ledger.fetches, 0);
    assert_eq!(wallet.reads, 0);
    let step = coordinator.schema_read(1, &schema_call("s", both), Ok(None), 10);
    assert!(matches!(step, GetStep::Done(Err(CacheError::InvalidArgument))));
}

#[test]
fn failed_fetch_is_reported_and_writes_nothing() {
    let mut coordinator = CacheCoordinator::new();
    let mut wallet = Wallet::new();
    let mut ledger = Ledger::answering(b"kept");
    get_schema(&mut coordinator, &mut wallet, &mut ledger, 1, &schema_call("s", default_options()), 10)
        .unwrap();
    let before = wallet.records.clone();
    for error in [
        CacheError::UnknownTransactionType,
        CacheError::StateProofVerificationFailed,
        CacheError::TransportFailure,
    ] {
        ledger.answer = Err(error);
        let mut bounded = default_options();
        bounded.min_fresh = 1;
        let result = get_schema(&mut coordinator, &mut wallet, &mut ledger, 2, &schema_call("s", bounded), 99);
        assert_eq!(result, Err(error));
        assert_eq!(wallet.records, before);
    }
    let cold = get_schema(&mut coordinator, &mut wallet, &mut ledger, 3, &schema_call("other", default_options()), 99);
    assert_eq!(cold, Err(CacheError::TransportFailure));
    assert!(!wallet.records.contains_key("schema:other"));
}

#[test]
fn failed_read_ends_the_lookup() {
    let mut coordinator = CacheCoordinator::new();
    let mut wallet = Wallet::new();
    wallet.failing = true;
    let mut ledger = Ledger::answering(b"v");
    let result = get_schema(&mut coordinator, &mut wallet, &mut ledger, 1, &schema_call("s", default_options()), 10);
    assert_eq!(result, Err(CacheError::StorageFailure));
    assert_eq!(ledger.fetches, 0);
}

#[test]
fn failed_write_does_not_fail_the_lookup() {
    let mut coordinator = CacheCoordinator::new();
    let mut wallet = Wallet::new();
    let mut ledger = Ledger::answering(b"v");
    let mut skip = default_options();
    skip.no_cache = true;
    wallet.failing = true;
    let result = get_schema(&mut coordinator, &mut wallet, &mut ledger, 1, &schema_call("s", skip), 10);
    assert_eq!(result, Ok(b"v".to_vec()));
    assert!(wallet.records.is_empty());
}

#[test]
fn torn_record_counts_as_a_miss() {
    let mut coordinator = CacheCoordinator::new();
    let mut wallet = Wallet::new();
    wallet.records.insert("schema:s".to_string(), vec![1, 2, 3]);
    let mut ledger = Ledger::answering(b"v");
    let result = get_schema(&mut coordinator, &mut wallet, &mut ledger, 1, &schema_call("s", default_options()), 10);
    assert_eq!(result, Ok(b"v".to_vec()));
    assert_eq!(ledger.fetches, 1);
    assert_eq!(CacheEntry::decode(&wallet.records["schema:s"]).unwrap().payload, b"v".to_vec());
}

#[test]
fn concurrent_lookups_share_one_fetch() {
    let mut coordinator = CacheCoordinator::new();
    let call = schema_call("s", default_options());
    let first = coordinator.get_schema(1, &call);
    assert!(matches!(first, GetStep::ReadCache(_)));
    let second = coordinator.get_schema(2, &call);
    assert!(matches!(second, GetStep::ReadCache(_)));
    let first = coordinator.schema_read(1, &call, Ok(None), 10);
    let key = match first {
        GetStep::Fetch(request) => request.key,
        _ => panic!("the first lookup did not fetch"),
    };
    assert!(coordinator.in_flight(&key));
    let second = coordinator.schema_read(2, &call, Ok(None), 10);
    assert!(matches!(second, GetStep::Wait));
    let mut skip = default_options();
    skip.no_cache = true;
    let third = coordinator.get_schema(3, &schema_call("s", skip));
    assert!(matches!(third, GetStep::Wait));
    let elsewhere = coordinator.schema_read(4, &schema_call("t", default_options()), Ok(None), 10);
    assert!(matches!(elsewhere, GetStep::Fetch(_)));

    let fetched = Fetched {
        payload: b"shared".to_vec(),
        metadata: ResponseMetadata { seq_no: Some(1), txn_time: None, last_seq_no: None, last_txn_time: None },
    };
    let landing = coordinator.fetched(&key, Ok(fetched), 12);
    assert_eq!(landing.completions.len(), 3);
    for (completion, handle) in landing.completions.iter().zip([1u64, 2, 3]) {
        assert_eq!(completion.handle, handle);
        assert_eq!(completion.result, Ok(b"shared".to_vec()));
    }
    let write = landing.write.unwrap();
    assert_eq!(write.key, "schema:s");
    assert_eq!(write.value, CacheEntry { payload: b"shared".to_vec(), fetched_at: 12 }.encode());
    assert!(!coordinator.in_flight(&key));

    let late = coordinator.fetched(&key, Err(CacheError::TransportFailure), 13);
    assert!(late.completions.is_empty());
    assert!(late.write.is_none());
}

#[test]
fn waiters_of_a_failed_fetch_all_get_the_error() {
    let mut coordinator = CacheCoordinator::new();
    let call = schema_call("s", default_options());
    let key = match coordinator.schema_read(7, &call, Ok(None), 10) {
        GetStep::Fetch(request) => request.key,
        _ => panic!("no fetch"),
    };
    assert!(matches!(coordinator.schema_read(8, &call, Ok(None), 10), GetStep::Wait));
    let landing = coordinator.fetched(&key, Err(CacheError::StateProofVerificationFailed), 11);
    assert!(landing.write.is_none());
    assert_eq!(landing.completions.len(), 2);
    assert_eq!(landing.completions[0].handle, 7);
    assert_eq!(landing.completions[1].handle, 8);
    assert_eq!(landing.completions[0].result, Err(CacheError::StateProofVerificationFailed));
    assert_eq!(landing.completions[1].result, Err(CacheError::StateProofVerificationFailed));
}

#[test]
fn shared_fetch_is_stored_if_one_waiter_allows_it() {
    let mut coordinator = CacheCoordinator::new();
    let mut keep_out = default_options();
    keep_out.no_store = true;
    let key = match coordinator.schema_read(1, &schema_call("s", keep_out), Ok(None), 10) {
        GetStep::Fetch(request) => request.key,
        _ => panic!("no fetch"),
    };
    let alone = coordinator.fetched(
        &key,
        Ok(Fetched {
            payload: vec![1],
            metadata: ResponseMetadata { seq_no: None, txn_time: None, last_seq_no: None, last_txn_time: None },
        }),
        10,
    );
    assert!(alone.write.is_none());

    coordinator.schema_read(2, &schema_call("s", keep_out), Ok(None), 10);
    coordinator.schema_read(3, &schema_call("s", default_options()), Ok(None), 10);
    let shared = coordinator.fetched(
        &key,
        Ok(Fetched {
            payload: vec![2],
            metadata: ResponseMetadata { seq_no: None, txn_time: None, last_seq_no: None, last_txn_time: None },
        }),
        10,
    );
    assert!(shared.write.is_some());
}

#[test]
fn schemas_and_cred_defs_do_not_share_a_flight() {
    let mut coordinator = CacheCoordinator::new();
    let schema = coordinator.schema_read(1, &schema_call("same", default_options()), Ok(None), 10);
    assert!(matches!(schema, GetStep::Fetch(_)));
    let call = CredDefCall {
        pool: P,
        wallet: W,
        submitter_did: "did".to_string(),
        id: "same".to_string(),
        options: CredDefOptions { force_update: false },
    };
    let cred_def = coordinator.cred_def_read(2, &call, Ok(None));
    match cred_def {
        GetStep::Fetch(request) => {
            assert_eq!(request.key.kind, ArtifactKind::CredDef);
            assert_eq!(request.key.wallet, W);
        }
        _ => panic!("no fetch"),
    }
    let other_wallet = SchemaCall { wallet: WalletHandle(2), ..schema_call("same", default_options()) };
    assert!(matches!(coordinator.schema_read(3, &other_wallet, Ok(None), 10), GetStep::Fetch(_)));
}

#[test]
fn cred_def_lookup_serves_or_fetches() {
    let mut coordinator = CacheCoordinator::new();
    let plain = CredDefCall {
        pool: P,
        wallet: W,
        submitter_did: "did".to_string(),
        id: "cd".to_string(),
        options: CredDefOptions { force_update: false },
    };
    match coordinator.get_cred_def(1, &plain) {
        GetStep::ReadCache(read) => assert_eq!(read.key, "cred_def:cd"),
        _ => panic!("the wallet was not read"),
    }
    let cached = CacheEntry { payload: b"def".to_vec(), fetched_at: 0 }.encode();
    let served = coordinator.cred_def_read(1, &plain, Ok(Some(cached)));
    assert!(matches!(served, GetStep::Done(Ok(payload)) if payload == b"def".to_vec()));
    let failed = coordinator.cred_def_read(1, &plain, Err(StorageFailure));
    assert!(matches!(failed, GetStep::Done(Err(CacheError::StorageFailure))));

    let forced = CredDefCall { options: CredDefOptions { force_update: true }, ..plain.clone() };
    let key = match coordinator.get_cred_def(2, &forced) {
        GetStep::Fetch(request) => request.key,
        _ => panic!("a forced lookup did not fetch"),
    };
    let landing = coordinator.fetched(
        &key,
        Ok(Fetched {
            payload: b"new".to_vec(),
            metadata: ResponseMetadata { seq_no: None, txn_time: None, last_seq_no: None, last_txn_time: None },
        }),
        77,
    );
    let write = landing.write.unwrap();
    assert_eq!(write.key, "cred_def:cd");
    assert_eq!(write.value, CacheEntry { payload: b"new".to_vec(), fetched_at: 77 }.encode());
    assert_eq!(landing.completions[0].result, Ok(b"new".to_vec()));
}

#[test]
fn purge_all_leaves_a_cold_cache() {
    let mut coordinator = CacheCoordinator::new();
    let mut wallet = Wallet::new();
    let mut ledger = Ledger::answering(b"v1");
    for (handle, id) in [(1u64, "a"), (2, "b"), (3, "c")] {
        get_schema(&mut coordinator, &mut wallet, &mut ledger, handle, &schema_call(id, default_options()), 10)
            .unwrap();
    }
    wallet.records.insert("cred_def:a".to_string(), CacheEntry { payload: vec![1], fetched_at: 1 }.encode());
    assert_eq!(purge_schemas(&mut wallet, -1, 11), Ok(()));
    assert_eq!(wallet.records.len(), 1);
    assert!(wallet.records.contains_key("cred_def:a"));

    ledger.answer = Ok(b"v2".to_vec());
    let fetches = ledger.fetches;
    let after = get_schema(&mut coordinator, &mut wallet, &mut ledger, 9, &schema_call("a", default_options()), 12);
    assert_eq!(after, Ok(b"v2".to_vec()));
    assert_eq!(ledger.fetches, fetches + 1);
}

#[test]
fn purge_keeps_what_is_within_the_bound() {
    let mut wallet = Wallet::new();
    let now = 10_000;
    for (id, age) in [("old", 301u64), ("edge", 300), ("young", 5)] {
        wallet.records.insert(
            format!("schema:{}", id),
            CacheEntry { payload: vec![7], fetched_at: now - age }.encode(),
        );
    }
    assert_eq!(purge_schemas(&mut wallet, 300, now), Ok(()));
    assert!(!wallet.records.contains_key("schema:old"));
    assert!(wallet.records.contains_key("schema:edge"));
    assert!(wallet.records.contains_key("schema:young"));
    assert_eq!(purge_schemas(&mut wallet, 300, now), Ok(()));
    assert_eq!(wallet.records.len(), 2);
}

#[test]
fn purge_of_cred_defs_scans_their_prefix() {
    let call = PurgeCall { wallet: WalletHandle(4), options: PurgeOptions { min_fresh: -1 } };
    let scan = CacheCoordinator::purge_cred_def_cache(&call);
    assert_eq!(scan.wallet, WalletHandle(4));
    assert_eq!(scan.prefix, "cred_def:");
    let scan = CacheCoordinator::purge_schema_cache(&call);
    assert_eq!(scan.prefix, "schema:");
}

#[test]
fn storage_failure_fails_the_purge() {
    let call = PurgeCall { wallet: W, options: PurgeOptions { min_fresh: -1 } };
    let step = CacheCoordinator::purge_scanned(&call, Err(StorageFailure), 5);
    assert!(matches!(step, PurgeStep::Done(Err(CacheError::StorageFailure))));
    assert_eq!(CacheCoordinator::purge_erased(Err(StorageFailure)), Err(CacheError::StorageFailure));
    assert_eq!(CacheCoordinator::purge_erased(Ok(())), Ok(()));
    let nothing = CacheCoordinator::purge_scanned(&call, Ok(Vec::new()), 5);
    assert!(matches!(nothing, PurgeStep::Done(Ok(()))));
}

#[test]
fn key_of_a_fetch_request_names_the_call() {
    let mut coordinator = CacheCoordinator::new();
    let mut skip = default_options();
    skip.no_cache = true;
    match coordinator.get_schema(1, &schema_call("wanted", skip)) {
        GetStep::Fetch(request) => {
            let expected =
                CacheKey { wallet: W, kind: ArtifactKind::Schema, id: "wanted".to_string() };
            assert!(request.key.same(&expected));
            assert_eq!(request.pool, P);
            assert_eq!(request.submitter_did, "did");
        }
        _ => panic!("no fetch"),
    }
}
