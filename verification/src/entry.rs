//! Cached artifacts: what identifies one, what is kept of it, and how it is
//! laid out in a wallet record.

use vstd::bytes::*;
use vstd::prelude::*;
use vstd::slice::*;

verus! {

/// A wallet opened by the embedding process.
#[derive(Clone, Copy, Debug, PartialEq, Eq, Structural)]
pub struct WalletHandle(pub i32);

/// A pool of validator connections opened by the embedding process.
pub type PoolHandle = i32;

/// The kinds of artifact that are cached. Each kind has a cache of its own.
#[derive(Clone, Copy, Debug, PartialEq, Eq, Structural)]
pub enum ArtifactKind {
    Schema,
    CredDef,
}

/// Identity of a cached artifact.
#[derive(Clone, Debug)]
pub struct CacheKey {
    pub wallet: WalletHandle,
    pub kind: ArtifactKind,
    pub id: String,
}

/// A cache key as a mathematical value.
pub struct KeyView {
    pub wallet: WalletHandle,
    pub kind: ArtifactKind,
    pub id: Seq<char>,
}

impl View for CacheKey {
    type V = KeyView;

    open spec fn view(&self) -> KeyView {
        KeyView { wallet: self.wallet, kind: self.kind, id: self.id@ }
    }
}

impl CacheKey {
    /// A copy of the key.
    pub fn duplicate(&self) -> (copy: CacheKey)
        ensures
            copy@ == self@,
    {
        CacheKey { wallet: self.wallet, kind: self.kind, id: self.id.clone() }
    }

    /// Whether both keys name the same artifact in the same wallet.
    pub fn same(&self, other: &CacheKey) -> (equal: bool)
        ensures
            equal == (self@ == other@),
    {
        self.wallet == other.wallet && self.kind == other.kind && self.id == other.id
    }
}

/// A stored artifact with the time it was fetched, in seconds since the epoch.
#[derive(Clone, Debug)]
pub struct CacheEntry {
    pub payload: Vec<u8>,
    pub fetched_at: u64,
}

/// A cache entry as a mathematical value.
pub struct EntryView {
    pub payload: Seq<u8>,
    pub fetched_at: u64,
}

impl View for CacheEntry {
    type V = EntryView;

    open spec fn view(&self) -> EntryView {
        EntryView { payload: self.payload@, fetched_at: self.fetched_at }
    }
}

/// The view of an entry that may be absent.
pub open spec fn entry_view(entry: Option<CacheEntry>) -> Option<EntryView> {
    match entry {
        Some(e) => Some(e@),
        None => None,
    }
}

/// Number of bytes that the fetch time takes at the head of a record value.
pub const STAMP_LEN: usize = 8;

/// The record value of an entry: the fetch time as eight little-endian bytes,
/// then the payload.
pub open spec fn spec_encode(entry: EntryView) -> Seq<u8> {
    spec_u64_to_le_bytes(entry.fetched_at) + entry.payload
}

/// The entry that a record value holds, if it is long enough to hold a fetch time.
pub open spec fn spec_decode(value: Seq<u8>) -> Option<EntryView> {
    if value.len() >= STAMP_LEN {
        Some(
            EntryView {
                payload: value.subrange(STAMP_LEN as int, value.len() as int),
                fetched_at: spec_u64_from_le_bytes(value.subrange(0, STAMP_LEN as int)),
            },
        )
    } else {
        None
    }
}

/// Decoding the record value of an entry gives the entry back.
pub proof fn decode_inverts_encode(entry: EntryView)
    ensures
        spec_decode(spec_encode(entry)) == Some(entry),
{
    lemma_auto_spec_u64_to_from_le_bytes();
    let value = spec_encode(entry);
    let stamp = spec_u64_to_le_bytes(entry.fetched_at);
    assert(value.subrange(0, STAMP_LEN as int) =~= stamp);
    assert(value.subrange(STAMP_LEN as int, value.len() as int) =~= entry.payload);
}

impl CacheEntry {
    /// Lays the entry out as a record value.
    pub fn encode(&self) -> (value: Vec<u8>)
        ensures
            value@ == spec_encode(self@),
    {
        let mut value = u64_to_le_bytes(self.fetched_at);
        let ghost stamp = value@;
        let mut i: usize = 0;
        while i < self.payload.len()
            invariant
                0 <= i <= self.payload.len(),
                value@ == stamp + self.payload@.subrange(0, i as int),
            decreases self.payload.len() - i,
        {
            value.push(self.payload[i]);
            i += 1;
            assert(value@ =~= stamp + self.payload@.subrange(0, i as int));
        }
        assert(self.payload@.subrange(0, i as int) =~= self.payload@);
        value
    }

    /// Reads an entry out of a record value. A value too short to hold a fetch
    /// time holds no entry.
    pub fn decode(value: &[u8]) -> (entry: Option<CacheEntry>)
        ensures
            entry_view(entry) == spec_decode(value@),
    {
        if value.len() < STAMP_LEN {
            return None;
        }
        let fetched_at = u64_from_le_bytes(slice_subrange(value, 0, STAMP_LEN));
        let payload = slice_to_vec(slice_subrange(value, STAMP_LEN, value.len()));
        Some(CacheEntry { payload, fetched_at })
    }
}

} // verus!
