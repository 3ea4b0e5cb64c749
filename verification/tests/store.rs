use libindy::entry::{ArtifactKind, CacheEntry, CacheKey, WalletHandle};
use libindy::error::{CacheError, StorageFailure};
use libindy::store::{CacheStore, WalletRecord};

fn record(key: &str, fetched_at: u64, payload: &[u8]) -> WalletRecord {
    WalletRecord {
        key: key.to_string(),
        value: CacheEntry { payload: payload.to_vec(), fetched_at }.encode(),
    }
}

#[test]
fn entry_layout_is_stamp_then_payload() {
    let entry = CacheEntry { payload: vec![0xAA, 0xBB], fetched_at: 0x0102_0304_0506_0708 };
    assert_eq!(entry.encode(), vec![8, 7, 6, 5, 4, 3, 2, 1, 0xAA, 0xBB]);
}

#[test]
fn decode_inverts_encode() {
    for fetched_at in [0u64, 1, 255, 256, 1_600_000_000, u64::MAX] {
        for payload in [vec![], vec![0u8], vec![1, 2, 3, 4, 5, 6, 7, 8, 9]] {
            let entry = CacheEntry { payload: payload.clone(), fetched_at };
            let back = CacheEntry::decode(&entry.encode()).unwrap();
            assert_eq!(back.payload, payload);
            assert_eq!(back.fetched_at, fetched_at);
        }
    }
}

#[test]
fn short_value_holds_no_entry() {
    assert!(CacheEntry::decode(&[]).is_none());
    assert!(CacheEntry::decode(&[1, 2, 3, 4, 5, 6, 7]).is_none());
    let just_a_stamp = CacheEntry::decode(&[1, 0, 0, 0, 0, 0, 0, 0]).unwrap();
    assert_eq!(just_a_stamp.fetched_at, 1);
    assert!(just_a_stamp.payload.is_empty());
}

#[test]
fn record_keys_carry_the_kind() {
    assert_eq!(CacheStore::record_key(ArtifactKind::Schema, "id1"), "schema:id1");
    assert_eq!(CacheStore::record_key(ArtifactKind::CredDef, "id1"), "cred_def:id1");
    assert_eq!(CacheStore::record_key(ArtifactKind::Schema, ""), "schema:");
    assert_eq!(CacheStore::prefix(ArtifactKind::Schema), "schema:");
    assert_eq!(CacheStore::prefix(ArtifactKind::CredDef), "cred_def:");
}

#[test]
fn get_and_put_name_the_same_record() {
    let key = CacheKey { wallet: WalletHandle(7), kind: ArtifactKind::CredDef, id: "cd:1".to_string() };
    let read = CacheStore::get(&key);
    assert_eq!(read.wallet, WalletHandle(7));
    assert_eq!(read.key, "cred_def:cd:1");
    let entry = CacheEntry { payload: vec![5, 6], fetched_at: 3 };
    let write = CacheStore::put(&key, &entry);
    assert_eq!(write.wallet, WalletHandle(7));
    assert_eq!(write.key, "cred_def:cd:1");
    assert_eq!(write.value, vec![3, 0, 0, 0, 0, 0, 0, 0, 5, 6]);
}

#[test]
fn got_reads_the_wallets_answer() {
    assert_eq!(CacheStore::got(Err(StorageFailure)).unwrap_err(), CacheError::StorageFailure);
    assert!(CacheStore::got(Ok(None)).unwrap().is_none());
    assert!(CacheStore::got(Ok(Some(vec![1, 2]))).unwrap().is_none());
    let entry = CacheStore::got(Ok(Some(vec![9, 0, 0, 0, 0, 0, 0, 0, 42]))).unwrap().unwrap();
    assert_eq!(entry.fetched_at, 9);
    assert_eq!(entry.payload, vec![42]);
}

#[test]
fn purge_names_the_scan() {
    let scan = CacheStore::purge(WalletHandle(3), ArtifactKind::Schema);
    assert_eq!(scan.wallet, WalletHandle(3));
    assert_eq!(scan.prefix, "schema:");
}

#[test]
fn unbounded_sweep_takes_every_record() {
    let records = vec![
        record("schema:a", 100, b"x"),
        WalletRecord { key: "schema:torn".to_string(), value: vec![1] },
        record("schema:b", 0, b"y"),
    ];
    assert_eq!(CacheStore::sweep(&records, -1, 100), vec!["schema:a", "schema:torn", "schema:b"]);
    assert!(CacheStore::sweep(&Vec::new(), -1, 100).is_empty());
}

#[test]
fn bounded_sweep_takes_what_is_older_than_the_bound() {
    let now = 1_000;
    let records = vec![
        record("schema:older", now - 101, b"x"),
        record("schema:at", now - 100, b"y"),
        record("schema:younger", now - 1, b"z"),
        WalletRecord { key: "schema:torn".to_string(), value: vec![] },
        record("schema:ahead", now + 5, b"w"),
    ];
    assert_eq!(CacheStore::sweep(&records, 100, now), vec!["schema:older", "schema:torn"]);
    assert_eq!(
        CacheStore::sweep(&records, 0, now),
        vec!["schema:older", "schema:at", "schema:younger", "schema:torn"]
    );
}

#[test]
fn key_copy_and_comparison() {
    let key = CacheKey { wallet: WalletHandle(1), kind: ArtifactKind::Schema, id: "a".to_string() };
    let copy = key.duplicate();
    assert!(key.same(&copy));
    let other_wallet = CacheKey { wallet: WalletHandle(2), kind: ArtifactKind::Schema, id: "a".to_string() };
    let other_kind = CacheKey { wallet: WalletHandle(1), kind: ArtifactKind::CredDef, id: "a".to_string() };
    let other_id = CacheKey { wallet: WalletHandle(1), kind: ArtifactKind::Schema, id: "b".to_string() };
    assert!(!key.same(&other_wallet));
    assert!(!key.same(&other_kind));
    assert!(!key.same(&other_id));
}
