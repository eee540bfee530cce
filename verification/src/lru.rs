//! The association table's store: the time-limited LRU cache of
//! `lru_time_cache`, keyed by client address.
//!
//! Nothing here is proved.  The cache reads the clock on every call, so a
//! contract cannot say which entries have expired by then; it says what the
//! cache's source shows whatever the clock reads: the entries that expire
//! are some of the least recently used ones, and the rest keep their order.

use crate::addr::AddrKey;
use crate::association::UdpAssociation;
use lru_time_cache::LruCache;
use std::time::Duration;
use vstd::prelude::*;

verus! {

#[verifier::external_type_specification]
#[verifier::external_body]
#[verifier::reject_recursive_types(Key)]
#[verifier::reject_recursive_types(Value)]
pub struct ExLruCache<Key, Value>(LruCache<Key, Value>);

/// The longest time to live that a table is created with, in milliseconds:
/// the seconds that fit in 32 bits.  Adding it to a reading of the
/// monotonic clock stays within what the clock's type can hold.
pub const MAX_EXPIRY_MILLIS: u64 = 4_294_967_295_000;

/// The most entries that a table is created for: the store reserves room
/// for all of them at once, and the reservation must fit the address space.
pub const MAX_TABLE_CAPACITY: usize = usize::MAX / 64;

/// One entry of a table.
pub type Entry = (AddrKey, UdpAssociation);

/// The entries of a cache, least recently used first.
pub uninterp spec fn lru_entries(cache: LruCache<AddrKey, UdpAssociation>) -> Seq<Entry>;

/// The number of entries that a cache was created to hold at most.
pub uninterp spec fn lru_capacity(cache: LruCache<AddrKey, UdpAssociation>) -> nat;

/// Whether some entry has the key.
pub open spec fn holds_key(entries: Seq<Entry>, key: AddrKey) -> bool {
    exists|i: int| 0 <= i < entries.len() && (#[trigger] entries[i]).0 == key
}

/// No two entries have the same key.
pub open spec fn distinct_keys(entries: Seq<Entry>) -> bool {
    forall|i: int, j: int|
        0 <= i < j < entries.len() ==> (#[trigger] entries[i]).0 != (#[trigger] entries[j]).0
}

/// The entries with the one at `i` made the most recently used.
pub open spec fn moved_to_back(entries: Seq<Entry>, i: int) -> Seq<Entry> {
    entries.remove(i).push(entries[i])
}

/// What is left of `entries` once room is made for one more entry in a
/// cache of the given capacity: the least recently used entries go, as many
/// as it takes.
pub open spec fn room_made(entries: Seq<Entry>, capacity: nat) -> Seq<Entry> {
    if entries.len() >= capacity {
        entries.skip(entries.len() - capacity + 1)
    } else {
        entries
    }
}

/// Whether `rest` is what is left of `all` once some of the least recently
/// used entries are gone.
pub open spec fn is_newest_part(rest: Seq<Entry>, all: Seq<Entry>) -> bool {
    rest.len() <= all.len() && rest == all.skip(all.len() - rest.len())
}

/// The keys of the entries, most recently used first.
pub open spec fn keys_newest_first(entries: Seq<Entry>) -> Seq<AddrKey> {
    Seq::new(entries.len(), |i: int| entries[entries.len() - 1 - i].0)
}

/// How a lookup of `key` among the unexpired entries `live` ends: an entry
/// that is found becomes the most recently used.
pub open spec fn looked_up(
    live: Seq<Entry>,
    key: AddrKey,
    after: Seq<Entry>,
    found: Option<&UdpAssociation>,
) -> bool {
    match found {
        Some(value) => exists|i: int|
            0 <= i < live.len() && #[trigger] live[i] == (key, *value) && after == moved_to_back(
                live,
                i,
            ),
        None => !holds_key(live, key) && after == live,
    }
}

/// How an insertion of `key` with `value` among the unexpired entries
/// `live` ends.  An entry with that key is replaced and handed back;
/// otherwise room is made.  Either way the new entry is the most recently
/// used.
pub open spec fn inserted(
    live: Seq<Entry>,
    capacity: nat,
    key: AddrKey,
    value: UdpAssociation,
    after: Seq<Entry>,
    displaced: Option<UdpAssociation>,
) -> bool {
    match displaced {
        Some(previous) => exists|i: int|
            0 <= i < live.len() && #[trigger] live[i] == (key, previous) && after == live.remove(
                i,
            ).push((key, value)),
        None => !holds_key(live, key) && after == room_made(live, capacity).push((key, value)),
    }
}

/// `LruCache::with_expiry_duration`: an empty cache whose entries expire
/// after the given time, without a limit on their number.
#[verifier::external_body]
pub(crate) fn lru_with_expiry(time_to_live_millis: u64) -> (cache: LruCache<
    AddrKey,
    UdpAssociation,
>)
    requires
        time_to_live_millis <= MAX_EXPIRY_MILLIS,
    ensures
        lru_entries(cache) == Seq::<Entry>::empty(),
        lru_capacity(cache) == usize::MAX,
{
    LruCache::with_expiry_duration(Duration::from_millis(time_to_live_millis))
}

/// `LruCache::with_expiry_duration_and_capacity`: an empty cache whose
/// entries expire after the given time, for at most `capacity` entries.
#[verifier::external_body]
pub(crate) fn lru_with_expiry_and_capacity(time_to_live_millis: u64, capacity: usize) -> (cache:
    LruCache<AddrKey, UdpAssociation>)
    requires
        time_to_live_millis <= MAX_EXPIRY_MILLIS,
        capacity <= MAX_TABLE_CAPACITY,
    ensures
        lru_entries(cache) == Seq::<Entry>::empty(),
        lru_capacity(cache) == capacity,
{
    LruCache::with_expiry_duration_and_capacity(
        Duration::from_millis(time_to_live_millis),
        capacity,
    )
}

/// `LruCache::get`: drops the entries that have expired, which are some of
/// the least recently used ones, then looks the key up among the rest.  As
/// a lookup neither adds nor takes an entry, the number of entries left
/// tells how many have expired.
#[verifier::external_body]
pub(crate) fn lru_get<'a>(cache: &'a mut LruCache<AddrKey, UdpAssociation>, key: &AddrKey) -> (found:
    Option<&'a UdpAssociation>)
    ensures
        lru_capacity(*final(cache)) == lru_capacity(*old(cache)),
        lru_entries(*final(cache)).len() <= lru_entries(*old(cache)).len(),
        looked_up(
            lru_entries(*old(cache)).skip(
                lru_entries(*old(cache)).len() - lru_entries(*final(cache)).len(),
            ),
            *key,
            lru_entries(*final(cache)),
            found,
        ),
{
    cache.get(key)
}

/// `LruCache::insert`: drops the entries that have expired, which are some
/// of the least recently used ones, then inserts among the rest.  It
/// panics in a cache that was created for no entry at all.
#[verifier::external_body]
pub(crate) fn lru_insert(
    cache: &mut LruCache<AddrKey, UdpAssociation>,
    key: AddrKey,
    value: UdpAssociation,
) -> (displaced: Option<UdpAssociation>)
    requires
        lru_capacity(*old(cache)) >= 1,
    ensures
        lru_capacity(*final(cache)) == lru_capacity(*old(cache)),
        exists|k: int|
            0 <= k <= lru_entries(*old(cache)).len() && inserted(
                #[trigger] lru_entries(*old(cache)).skip(k),
                lru_capacity(*old(cache)),
                key,
                value,
                lru_entries(*final(cache)),
                displaced,
            ),
{
    cache.insert(key, value)
}

/// `LruCache::iter`, with the iterator let go at once: drops the entries
/// that have expired, which are some of the least recently used ones, and
/// leaves the rest as they are.
#[verifier::external_body]
pub(crate) fn lru_purge(cache: &mut LruCache<AddrKey, UdpAssociation>)
    ensures
        lru_capacity(*final(cache)) == lru_capacity(*old(cache)),
        is_newest_part(lru_entries(*final(cache)), lru_entries(*old(cache))),
{
    let _ = cache.iter();
}

/// `LruCache::peek_iter`, collected: the keys of the entries that have not
/// expired, most recently used first.  The cache stays as it is.
#[verifier::external_body]
pub(crate) fn lru_keys(cache: &LruCache<AddrKey, UdpAssociation>) -> (listed: Vec<AddrKey>)
    ensures
        listed@.len() <= lru_entries(*cache).len(),
        listed@ == keys_newest_first(
            lru_entries(*cache).skip(lru_entries(*cache).len() - listed@.len()),
        ),
{
    cache.peek_iter().map(|entry| *entry.0).collect()
}

} // verus!
