//! The cache store: keyed persistence of cache entries in the wallet.
//!
//! The wallet itself is driven by the embedding process. This module says what
//! to ask of it and what its answers mean: `get`, `put` and `purge` build the
//! request, `got` and `sweep` read the answer.

use crate::entry::{decode_inverts_encode, entry_view, spec_decode, spec_encode, ArtifactKind, CacheEntry, CacheKey, EntryView, WalletHandle};
use crate::error::{CacheError, StorageFailure};
use crate::freshness::{age, is_within, within, UNBOUNDED};
use vstd::prelude::*;
use vstd::string::*;

verus! {

/// The text that every record key of a kind starts with.
pub open spec fn spec_prefix(kind: ArtifactKind) -> Seq<char> {
    match kind {
        ArtifactKind::Schema => "schema:"@,
        ArtifactKind::CredDef => "cred_def:"@,
    }
}

/// The wallet key under which an artifact is kept: the kind's prefix, then the id.
pub open spec fn spec_record_key(kind: ArtifactKind, id: Seq<char>) -> Seq<char> {
    spec_prefix(kind) + id
}

/// Whether `text` starts with `prefix`.
pub open spec fn starts_with(text: Seq<char>, prefix: Seq<char>) -> bool {
    prefix.len() <= text.len() && text.subrange(0, prefix.len() as int) == prefix
}

/// A wallet read for one record.
pub struct WalletRead {
    pub wallet: WalletHandle,
    pub key: String,
}

/// A wallet write of one record, replacing what the key held.
pub struct WalletWrite {
    pub wallet: WalletHandle,
    pub key: String,
    pub value: Vec<u8>,
}

/// A wallet scan for the records whose key starts with a prefix.
pub struct WalletScan {
    pub wallet: WalletHandle,
    pub prefix: String,
}

/// A wallet delete of the records under a list of keys, in the order of the list.
pub struct WalletErase {
    pub wallet: WalletHandle,
    pub keys: Vec<String>,
}

/// A record as a wallet scan returns it.
pub struct WalletRecord {
    pub key: String,
    pub value: Vec<u8>,
}

/// Whether a purge erases a record with this value. An unbounded purge erases
/// every record. A bounded one erases the entries older than the bound, and the
/// records that hold no entry.
pub open spec fn doomed(value: Seq<u8>, min_fresh: i64, now: u64) -> bool {
    match spec_decode(value) {
        Some(entry) => !within(min_fresh, entry.fetched_at, now),
        None => true,
    }
}

/// The keys that a purge erases, in the order of the scan.
pub open spec fn spec_sweep(records: Seq<WalletRecord>, min_fresh: i64, now: u64) -> Seq<Seq<char>>
    decreases records.len(),
{
    if records.len() == 0 {
        Seq::empty()
    } else {
        let rest = spec_sweep(records.drop_last(), min_fresh, now);
        if min_fresh == UNBOUNDED || doomed(records.last().value@, min_fresh, now) {
            rest.push(records.last().key@)
        } else {
            rest
        }
    }
}

/// The texts of a list of keys.
pub open spec fn key_views(keys: Seq<String>) -> Seq<Seq<char>> {
    keys.map_values(|key: String| key@)
}

/// Keyed persistence of cache entries, one cache per artifact kind and wallet.
pub struct CacheStore;

impl CacheStore {
    /// The text that every record key of a kind starts with.
    pub fn prefix(kind: ArtifactKind) -> (text: String)
        ensures
            text@ == spec_prefix(kind),
    {
        match kind {
            ArtifactKind::Schema => String::from_str("schema:"),
            ArtifactKind::CredDef => String::from_str("cred_def:"),
        }
    }

    /// The wallet key under which an artifact is kept.
    pub fn record_key(kind: ArtifactKind, id: &str) -> (text: String)
        ensures
            text@ == spec_record_key(kind, id@),
    {
        let mut text = CacheStore::prefix(kind);
        text.append(id);
        text
    }

    /// The read that looks an artifact up.
    pub fn get(key: &CacheKey) -> (read: WalletRead)
        ensures
            read.wallet == key.wallet,
            read.key@ == spec_record_key(key.kind, key.id@),
    {
        WalletRead { wallet: key.wallet, key: CacheStore::record_key(key.kind, key.id.as_str()) }
    }

    /// What the wallet's answer to a read means. A record that holds no entry
    /// counts as absent.
    pub fn got(answer: Result<Option<Vec<u8>>, StorageFailure>) -> (found: Result<
        Option<CacheEntry>,
        CacheError,
    >)
        ensures
            answer is Err <==> found is Err,
            found is Err ==> found == Err::<Option<CacheEntry>, CacheError>(
                CacheError::StorageFailure,
            ),
            found matches Ok(entry) ==> entry_view(entry) == match answer {
                Ok(Some(value)) => spec_decode(value@),
                _ => None,
            },
    {
        match answer {
            Err(_) => Err(CacheError::StorageFailure),
            Ok(None) => Ok(None),
            Ok(Some(value)) => Ok(CacheEntry::decode(value.as_slice())),
        }
    }

    /// The write that stores an entry under a key, over whatever the key held.
    pub fn put(key: &CacheKey, entry: &CacheEntry) -> (write: WalletWrite)
        ensures
            write.wallet == key.wallet,
            write.key@ == spec_record_key(key.kind, key.id@),
            write.value@ == spec_encode(entry@),
    {
        WalletWrite {
            wallet: key.wallet,
            key: CacheStore::record_key(key.kind, key.id.as_str()),
            value: entry.encode(),
        }
    }

    /// The scan that a purge of one kind in one wallet starts with.
    pub fn purge(wallet: WalletHandle, kind: ArtifactKind) -> (scan: WalletScan)
        ensures
            scan.wallet == wallet,
            scan.prefix@ == spec_prefix(kind),
    {
        WalletScan { wallet, prefix: CacheStore::prefix(kind) }
    }

    /// The keys to erase, out of the records that the scan returned.
    pub fn sweep(records: &Vec<WalletRecord>, min_fresh: i64, now: u64) -> (keys: Vec<String>)
        ensures
            key_views(keys@) == spec_sweep(records@, min_fresh, now),
    {
        let mut keys: Vec<String> = Vec::new();
        let mut i: usize = 0;
        assert(key_views(keys@) =~= Seq::<Seq<char>>::empty());
        while i < records.len()
            invariant
                0 <= i <= records.len(),
                key_views(keys@) == spec_sweep(records@.subrange(0, i as int), min_fresh, now),
            decreases records.len() - i,
        {
            let record = &records[i];
            let ghost before = keys@;
            assert(records@.subrange(0, i + 1).drop_last() =~= records@.subrange(0, i as int));
            assert(records@.subrange(0, i + 1).last() == records@[i as int]);
            let erase = if min_fresh == UNBOUNDED {
                true
            } else {
                match CacheEntry::decode(record.value.as_slice()) {
                    Some(entry) => !is_within(min_fresh, entry.fetched_at, now),
                    None => true,
                }
            };
            if erase {
                keys.push(record.key.clone());
                assert(key_views(keys@) =~= key_views(before).push(record.key@));
            }
            i += 1;
        }
        assert(records@.subrange(0, i as int) =~= records@);
        keys
    }
}

/// What one wallet holds: record values by record key.
pub type WalletModel = Map<Seq<char>, Seq<u8>>;

/// The entry that a wallet holds for an artifact.
pub open spec fn held(wallet: WalletModel, kind: ArtifactKind, id: Seq<char>) -> Option<EntryView> {
    let key = spec_record_key(kind, id);
    if wallet.dom().contains(key) {
        spec_decode(wallet[key])
    } else {
        None
    }
}

/// Whether `records` is what a scan of `wallet` for `prefix` returns: every
/// record of the wallet under the prefix, as the wallet holds it, and no other.
pub open spec fn scanned(wallet: WalletModel, prefix: Seq<char>, records: Seq<WalletRecord>) -> bool {
    &&& forall|i: int|
        0 <= i < records.len() ==> {
            &&& wallet.dom().contains(#[trigger] records[i].key@)
            &&& wallet[records[i].key@] == records[i].value@
            &&& starts_with(records[i].key@, prefix)
        }
    &&& forall|key: Seq<char>|
        wallet.dom().contains(key) && starts_with(key, prefix) ==> exists|i: int|
            0 <= i < records.len() && #[trigger] records[i].key@ == key
}

/// The wallet after the records under `keys` were erased.
pub open spec fn erased(wallet: WalletModel, keys: Seq<Seq<char>>) -> WalletModel {
    wallet.remove_keys(keys.to_set())
}

/// A record key starts with the prefix of its kind, and not with that of the
/// other kind.
pub proof fn record_key_carries_prefix(kind: ArtifactKind, id: Seq<char>, other: ArtifactKind)
    ensures
        starts_with(spec_record_key(kind, id), spec_prefix(other)) <==> kind == other,
{
    reveal_strlit("schema:");
    reveal_strlit("cred_def:");
    let key = spec_record_key(kind, id);
    let prefix = spec_prefix(other);
    if kind == other {
        assert(key.subrange(0, prefix.len() as int) =~= prefix);
    } else {
        if starts_with(key, prefix) {
            assert(key.subrange(0, prefix.len() as int)[0] == prefix[0]);
            assert(key[0] == spec_prefix(kind)[0]);
        }
    }
}

/// Two artifacts share a record key only if they are the same artifact.
pub proof fn record_keys_are_distinct(
    kind_a: ArtifactKind,
    id_a: Seq<char>,
    kind_b: ArtifactKind,
    id_b: Seq<char>,
)
    requires
        spec_record_key(kind_a, id_a) == spec_record_key(kind_b, id_b),
    ensures
        kind_a == kind_b,
        id_a == id_b,
{
    record_key_carries_prefix(kind_a, id_a, kind_a);
    record_key_carries_prefix(kind_b, id_b, kind_a);
    let prefix = spec_prefix(kind_a);
    let key = spec_record_key(kind_a, id_a);
    assert(key.subrange(prefix.len() as int, key.len() as int) =~= id_a);
    assert(key.subrange(prefix.len() as int, key.len() as int) =~= id_b);
}

/// After a `put` the wallet holds the entry under its key, and what it holds
/// for every other artifact is as before.
pub proof fn put_is_an_upsert(
    wallet: WalletModel,
    kind: ArtifactKind,
    id: Seq<char>,
    entry: EntryView,
    other_kind: ArtifactKind,
    other_id: Seq<char>,
)
    ensures
        held(wallet.insert(spec_record_key(kind, id), spec_encode(entry)), kind, id) == Some(entry),
        (other_kind != kind || other_id != id) ==> held(
            wallet.insert(spec_record_key(kind, id), spec_encode(entry)),
            other_kind,
            other_id,
        ) == held(wallet, other_kind, other_id),
{
    decode_inverts_encode(entry);
    if spec_record_key(kind, id) == spec_record_key(other_kind, other_id) {
        record_keys_are_distinct(kind, id, other_kind, other_id);
    }
}

/// A key is swept exactly if the scan lists it with a value that the purge erases.
pub proof fn sweep_lists_the_doomed(
    records: Seq<WalletRecord>,
    min_fresh: i64,
    now: u64,
    key: Seq<char>,
)
    ensures
        spec_sweep(records, min_fresh, now).contains(key) <==> exists|i: int|
            0 <= i < records.len() && #[trigger] records[i].key@ == key && (min_fresh == UNBOUNDED
                || doomed(records[i].value@, min_fresh, now)),
    decreases records.len(),
{
    if records.len() > 0 {
        let front = records.drop_last();
        let rest = spec_sweep(front, min_fresh, now);
        let last = records.last();
        let erase = min_fresh == UNBOUNDED || doomed(last.value@, min_fresh, now);
        sweep_lists_the_doomed(front, min_fresh, now, key);
        if spec_sweep(records, min_fresh, now).contains(key) {
            if erase && last.key@ == key {
                assert(records[records.len() - 1].key@ == key);
            } else {
                if erase {
                    let j = choose|j: int| 0 <= j < rest.push(last.key@).len() && rest.push(last.key@)[j] == key;
                    assert(rest[j] == key);
                }
                assert(rest.contains(key));
                let i = choose|i: int|
                    0 <= i < front.len() && #[trigger] front[i].key@ == key && (min_fresh
                        == UNBOUNDED || doomed(front[i].value@, min_fresh, now));
                assert(records[i].key@ == key);
            }
        }
        if exists|i: int|
            0 <= i < records.len() && #[trigger] records[i].key@ == key && (min_fresh == UNBOUNDED
                || doomed(records[i].value@, min_fresh, now)) {
            let i = choose|i: int|
                0 <= i < records.len() && #[trigger] records[i].key@ == key && (min_fresh
                    == UNBOUNDED || doomed(records[i].value@, min_fresh, now));
            if i == records.len() - 1 {
                assert(rest.push(last.key@)[rest.len() as int] == key);
            } else {
                assert(front[i].key@ == key);
                assert(rest.contains(key));
                let j = choose|j: int| 0 <= j < rest.len() && rest[j] == key;
                if erase {
                    assert(rest.push(last.key@)[j] == key);
                }
            }
        }
    }
}

/// An unbounded purge leaves nothing of its kind in the wallet, so that every
/// later lookup of that kind finds the cache cold. The other kind is untouched.
pub proof fn purge_all_leaves_nothing(
    wallet: WalletModel,
    kind: ArtifactKind,
    records: Seq<WalletRecord>,
    now: u64,
    other_kind: ArtifactKind,
    id: Seq<char>,
)
    requires
        scanned(wallet, spec_prefix(kind), records),
    ensures
        held(erased(wallet, spec_sweep(records, UNBOUNDED, now)), kind, id) is None,
        other_kind != kind ==> held(
            erased(wallet, spec_sweep(records, UNBOUNDED, now)),
            other_kind,
            id,
        ) == held(wallet, other_kind, id),
{
    let swept = spec_sweep(records, UNBOUNDED, now);
    let key = spec_record_key(kind, id);
    sweep_lists_the_doomed(records, UNBOUNDED, now, key);
    record_key_carries_prefix(kind, id, kind);
    if wallet.dom().contains(key) {
        assert(swept.contains(key));
    }
    if other_kind != kind {
        let other_key = spec_record_key(other_kind, id);
        sweep_lists_the_doomed(records, UNBOUNDED, now, other_key);
        record_key_carries_prefix(other_kind, id, kind);
        assert(!swept.contains(other_key));
    }
}

/// A bounded purge erases the entries older than the bound and keeps those at
/// or within it. The other kind is untouched.
pub proof fn purge_keeps_the_fresh(
    wallet: WalletModel,
    kind: ArtifactKind,
    records: Seq<WalletRecord>,
    min_fresh: i64,
    now: u64,
    other_kind: ArtifactKind,
    id: Seq<char>,
)
    requires
        scanned(wallet, spec_prefix(kind), records),
        min_fresh != UNBOUNDED,
    ensures
        held(erased(wallet, spec_sweep(records, min_fresh, now)), kind, id) == match held(
            wallet,
            kind,
            id,
        ) {
            Some(entry) => if age(entry.fetched_at, now) <= min_fresh {
                Some(entry)
            } else {
                None
            },
            None => None,
        },
        other_kind != kind ==> held(
            erased(wallet, spec_sweep(records, min_fresh, now)),
            other_kind,
            id,
        ) == held(wallet, other_kind, id),
{
    let swept = spec_sweep(records, min_fresh, now);
    let key = spec_record_key(kind, id);
    sweep_lists_the_doomed(records, min_fresh, now, key);
    record_key_carries_prefix(kind, id, kind);
    if wallet.dom().contains(key) {
        let i = choose|i: int| 0 <= i < records.len() && #[trigger] records[i].key@ == key;
        assert(records[i].value@ == wallet[key]);
        if doomed(wallet[key], min_fresh, now) {
            assert(swept.contains(key));
        } else {
            if swept.contains(key) {
                let j = choose|j: int|
                    0 <= j < records.len() && #[trigger] records[j].key@ == key && (min_fresh
                        == UNBOUNDED || doomed(records[j].value@, min_fresh, now));
                assert(records[j].value@ == wallet[key]);
            }
        }
    }
    if other_kind != kind {
        let other_key = spec_record_key(other_kind, id);
        sweep_lists_the_doomed(records, min_fresh, now, other_key);
        record_key_carries_prefix(other_kind, id, kind);
        assert(!swept.contains(other_key));
    }
}

} // verus!
