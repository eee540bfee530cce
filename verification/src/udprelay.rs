//! The UDP front end: the table of associations, one per client address,
//! kept in order of use and emptied of what has idled too long.

use crate::addr::{addresses_of, lemma_addresses_of_address_keys, AddrKey, SocketAddress};
use crate::association::{RelayError, UdpAssociation, ASSOCIATION_QUEUE_BOUND};
use crate::lru::{
    distinct_keys, holds_key, inserted, is_newest_part, keys_newest_first, lru_capacity, lru_entries,
    lru_get, lru_insert, lru_keys, lru_purge, lru_with_expiry, lru_with_expiry_and_capacity, moved_to_back,
    room_made, Entry, MAX_EXPIRY_MILLIS, MAX_TABLE_CAPACITY,
};
use lru_time_cache::LruCache;
use tokio::sync::mpsc::Receiver;
use tokio::task::JoinHandle;
use vstd::prelude::*;
use vstd::slice::slice_to_vec;

verus! {

/// An association that saw no datagram for five minutes is let go, unless
/// configured otherwise.  In milliseconds.
pub const DEFAULT_UDP_EXPIRY_MILLIS: u64 = 300_000;

/// How long the front end pauses after a failed receive on its socket
/// before it tries again, in milliseconds.
pub const RECEIVE_RETRY_DELAY_MILLIS: u64 = 1000;

/// Every entry's key is the key of an address, and every entry's queue is
/// bounded as an association's queue is.
pub open spec fn sound_entries(entries: Seq<Entry>) -> bool {
    forall|i: int|
        0 <= i < entries.len() ==> SocketAddress::spec_from_key((#[trigger] entries[i]).0).is_some()
            && entries[i].1.wf()
}

/// How relaying a datagram of the client with `key` changes the unexpired
/// entries `live`: the client's association becomes the most recently
/// used; if the client had none, a new one is installed, for which room is
/// made if the table is at its capacity.
pub open spec fn relayed(live: Seq<Entry>, capacity: nat, key: AddrKey, after: Seq<Entry>) -> bool {
    if holds_key(live, key) {
        exists|i: int|
            0 <= i < live.len() && (#[trigger] live[i]).0 == key && after == moved_to_back(live, i)
    } else {
        &&& after.len() > 0
        &&& after.last().0 == key
        &&& after.last().1.wf()
        &&& after.drop_last() == room_made(live, capacity)
    }
}

/// How a keep-alive for the client with `key` changes the unexpired
/// entries `live`: the client's association, if there is one, becomes the
/// most recently used, and nothing else changes.
pub open spec fn refreshed(live: Seq<Entry>, key: AddrKey, after: Seq<Entry>) -> bool {
    if holds_key(live, key) {
        exists|i: int|
            0 <= i < live.len() && (#[trigger] live[i]).0 == key && after == moved_to_back(live, i)
    } else {
        after == live
    }
}

/// The UDP front end of a tunnel.
pub struct UdpTunnel {
    assoc_map: LruCache<AddrKey, UdpAssociation>,
    time_to_live_millis: u64,
}

impl UdpTunnel {
    /// The associations, least recently used first.
    pub closed spec fn entries(&self) -> Seq<Entry> {
        lru_entries(self.assoc_map)
    }

    /// The time after which an idle association expires, in milliseconds.
    pub closed spec fn spec_time_to_live_millis(&self) -> u64 {
        self.time_to_live_millis
    }

    /// The most associations that the table holds.
    pub closed spec fn capacity(&self) -> nat {
        lru_capacity(self.assoc_map)
    }

    /// No client has two associations, and the table holds at most as many
    /// associations as its capacity, which is not zero.
    pub open spec fn wf(&self) -> bool {
        &&& distinct_keys(self.entries())
        &&& sound_entries(self.entries())
        &&& 1 <= self.capacity()
        &&& self.entries().len() <= self.capacity()
    }

    /// An empty table whose associations expire after `time_to_live_millis`
    /// without a datagram, or after the default time, and which holds at
    /// most `capacity` associations, or any number.
    pub fn new(time_to_live_millis: Option<u64>, capacity: Option<usize>) -> (tunnel: UdpTunnel)
        requires
            time_to_live_millis matches Some(millis) ==> millis <= MAX_EXPIRY_MILLIS,
            capacity matches Some(limit) ==> 1 <= limit <= MAX_TABLE_CAPACITY,
        ensures
            tunnel.wf(),
            tunnel.entries() == Seq::<Entry>::empty(),
            tunnel.capacity() == match capacity {
                Some(limit) => limit,
                None => usize::MAX,
            },
            tunnel.spec_time_to_live_millis() == match time_to_live_millis {
                Some(millis) => millis,
                None => DEFAULT_UDP_EXPIRY_MILLIS,
            },
    {
        let time_to_live = match time_to_live_millis {
            Some(millis) => millis,
            None => DEFAULT_UDP_EXPIRY_MILLIS,
        };
        let assoc_map = match capacity {
            Some(limit) => lru_with_expiry_and_capacity(time_to_live, limit),
            None => lru_with_expiry(time_to_live),
        };
        UdpTunnel { assoc_map, time_to_live_millis: time_to_live }
    }

    /// The time after which an idle association expires, in milliseconds.
    /// It is also the time between two cleanups.
    #[verifier::when_used_as_spec(spec_time_to_live_millis)]
    pub fn time_to_live_millis(&self) -> (millis: u64)
        ensures
            millis == self.spec_time_to_live_millis(),
    {
        self.time_to_live_millis
    }

    /// Relays a datagram that arrived from the client `peer_addr`.
    ///
    /// The payload is offered to the client's association.  A client
    /// without an association gets one first, whose worker `spawn_worker`
    /// starts; it stays installed for the client's next datagrams even if
    /// its queue does not take this one.  Associations that have expired by
    /// now are gone afterwards.
    pub fn send_packet<F: FnOnce(Receiver<Vec<u8>>) -> JoinHandle<()>>(
        &mut self,
        peer_addr: SocketAddress,
        data: &[u8],
        spawn_worker: F,
    ) -> (result: Result<(), RelayError>)
        requires
            old(self).wf(),
            forall|receiver: Receiver<Vec<u8>>| spawn_worker.requires((receiver,)),
        ensures
            final(self).wf(),
            final(self).capacity() == old(self).capacity(),
            final(self).spec_time_to_live_millis() == old(self).spec_time_to_live_millis(),
            exists|k: int|
                0 <= k <= old(self).entries().len() && relayed(
                    #[trigger] old(self).entries().skip(k),
                    old(self).capacity(),
                    peer_addr.spec_key(),
                    final(self).entries(),
                ),
            final(self).entries().len() > 0,
            final(self).entries().last().0 == peer_addr.spec_key(),
            result.is_err() ==> result == Err::<(), RelayError>(RelayError::ChannelFull),
    {
        let key = peer_addr.key();
        let ghost before = self.entries();
        match lru_get(&mut self.assoc_map, &key) {
            Some(assoc) => {
                let result = assoc.try_send(slice_to_vec(data));
                proof {
                    let after = self.entries();
                    let k = before.len() - after.len();
                    lemma_touch_keeps_table(before.skip(k), key, after);
                    lemma_newest_part_keeps_table(before, k);
                }
                return result;
            },
            None => {},
        }
        let ghost mid = self.entries();
        let ghost k1 = before.len() - mid.len();
        proof {
            lemma_newest_part_keeps_table(before, k1);
        }
        let assoc = UdpAssociation::new(spawn_worker);
        let result = assoc.try_send(slice_to_vec(data));
        let displaced = lru_insert(&mut self.assoc_map, key, assoc);
        proof {
            let after = self.entries();
            let capacity = self.capacity();
            let k2 = choose|k: int|
                0 <= k <= mid.len() && inserted(
                    #[trigger] mid.skip(k),
                    capacity,
                    key,
                    assoc,
                    after,
                    displaced,
                );
            let live = mid.skip(k2);
            assert(live =~= before.skip(k1 + k2));
            lemma_newest_part_keeps_table(mid, k2);
            assert(displaced.is_none());
            lemma_install_keeps_table(live, capacity, key, assoc);
            assert(after.drop_last() =~= room_made(live, capacity));
        }
        result
    }

    /// Keeps the association of the client `peer_addr` alive: if the client
    /// has one, it becomes the most recently used and its idle time starts
    /// anew.  Tells whether the client has one.  Associations that have
    /// expired by now are gone afterwards.
    pub fn keep_alive(&mut self, peer_addr: SocketAddress) -> (alive: bool)
        requires
            old(self).wf(),
        ensures
            final(self).wf(),
            final(self).capacity() == old(self).capacity(),
            final(self).spec_time_to_live_millis() == old(self).spec_time_to_live_millis(),
            final(self).entries().len() <= old(self).entries().len(),
            refreshed(
                old(self).entries().skip(old(self).entries().len() - final(self).entries().len()),
                peer_addr.spec_key(),
                final(self).entries(),
            ),
            alive == holds_key(final(self).entries(), peer_addr.spec_key()),
            alive ==> final(self).entries().last().0 == peer_addr.spec_key(),
    {
        let key = peer_addr.key();
        let ghost before = self.entries();
        let found = lru_get(&mut self.assoc_map, &key).is_some();
        proof {
            let after = self.entries();
            let k = before.len() - after.len();
            lemma_newest_part_keeps_table(before, k);
            if found {
                lemma_touch_keeps_table(before.skip(k), key, after);
            }
        }
        found
    }

    /// Lets go of the associations that have expired by now, which are
    /// some of the least recently used ones.  The rest stay as they are.
    pub fn cleanup(&mut self)
        requires
            old(self).wf(),
        ensures
            final(self).wf(),
            final(self).capacity() == old(self).capacity(),
            final(self).spec_time_to_live_millis() == old(self).spec_time_to_live_millis(),
            is_newest_part(final(self).entries(), old(self).entries()),
    {
        let ghost before = self.entries();
        lru_purge(&mut self.assoc_map);
        proof {
            lemma_newest_part_keeps_table(before, before.len() - self.entries().len());
        }
    }

    /// The clients whose associations have not expired by now, most
    /// recently used first.
    pub fn peers(&self) -> (peers: Vec<SocketAddress>)
        requires
            self.wf(),
        ensures
            peers@.len() <= self.entries().len(),
            peers@.map_values(|peer: SocketAddress| peer.spec_key()) == keys_newest_first(
                self.entries().skip(self.entries().len() - peers@.len()),
            ),
    {
        let keys = lru_keys(&self.assoc_map);
        let peers = addresses_of(&keys);
        proof {
            let live = self.entries().skip(self.entries().len() - keys@.len());
            lemma_newest_part_keeps_table(self.entries(), self.entries().len() - keys@.len());
            assert forall|i: int| 0 <= i < keys@.len() implies SocketAddress::spec_from_key(
                #[trigger] keys@[i],
            ).is_some() by {
                assert(keys@[i] == live[live.len() - 1 - i].0);
            }
            lemma_addresses_of_address_keys(keys@);
            assert(peers@.map_values(|peer: SocketAddress| peer.spec_key()) =~= keys@);
        }
        peers
    }
}

/// However many datagrams arrive, no association queues more payloads than
/// the common bound.
pub proof fn lemma_every_queue_is_bounded(tunnel: UdpTunnel, i: int)
    requires
        tunnel.wf(),
        0 <= i < tunnel.entries().len(),
    ensures
        tunnel.entries()[i].1.spec_queue_bound() == ASSOCIATION_QUEUE_BOUND,
{
}

/// A client whose datagram was relayed, or whose association was kept
/// alive, is the most recently used one, and the other clients keep the
/// order they had among themselves.
pub proof fn lemma_touched_client_is_most_recent(live: Seq<Entry>, i: int)
    requires
        0 <= i < live.len(),
    ensures
        moved_to_back(live, i).len() == live.len(),
        moved_to_back(live, i).last() == live[i],
        moved_to_back(live, i).drop_last() == live.remove(i),
{
    assert(moved_to_back(live, i).drop_last() =~= live.remove(i));
}

/// What is left of a sound table once some of the least recently used
/// entries are gone is a sound table.
pub proof fn lemma_newest_part_keeps_table(entries: Seq<Entry>, k: int)
    requires
        0 <= k <= entries.len(),
        distinct_keys(entries),
        sound_entries(entries),
    ensures
        distinct_keys(entries.skip(k)),
        sound_entries(entries.skip(k)),
        forall|key: AddrKey| holds_key(entries.skip(k), key) ==> holds_key(entries, key),
{
    let rest = entries.skip(k);
    assert forall|i: int, j: int| 0 <= i < j < rest.len() implies (#[trigger] rest[i]).0 != (
    #[trigger] rest[j]).0 by {
        assert(rest[i] == entries[k + i]);
        assert(rest[j] == entries[k + j]);
    }
    assert forall|i: int| 0 <= i < rest.len() implies SocketAddress::spec_from_key(
        (#[trigger] rest[i]).0,
    ).is_some() && rest[i].1.wf() by {
        assert(rest[i] == entries[k + i]);
    }
    assert forall|key: AddrKey| holds_key(rest, key) implies holds_key(entries, key) by {
        let i = choose|i: int| 0 <= i < rest.len() && (#[trigger] rest[i]).0 == key;
        assert(entries[k + i].0 == key);
    }
}

/// Making an entry the most recently used keeps a sound table sound, puts
/// that entry last and leaves the others in their order.
pub proof fn lemma_touch_keeps_table(live: Seq<Entry>, key: AddrKey, after: Seq<Entry>)
    requires
        distinct_keys(live),
        sound_entries(live),
        exists|i: int|
            0 <= i < live.len() && (#[trigger] live[i]).0 == key && after == moved_to_back(live, i),
    ensures
        distinct_keys(after),
        sound_entries(after),
        after.len() == live.len(),
        after.len() > 0,
        after.last().0 == key,
        holds_key(live, key),
        holds_key(after, key),
{
    let i = choose|i: int|
        0 <= i < live.len() && (#[trigger] live[i]).0 == key && after == moved_to_back(live, i);
    let others = live.remove(i);
    assert forall|a: int| 0 <= a < others.len() implies #[trigger] others[a] == live[if a < i {
        a
    } else {
        a + 1
    }] by {}
    assert forall|a: int, b: int| 0 <= a < b < after.len() implies (#[trigger] after[a]).0 != (
    #[trigger] after[b]).0 by {
        let source_a = if a < i {
            a
        } else {
            a + 1
        };
        assert(after[a] == live[source_a]);
        if b < others.len() {
            let source_b = if b < i {
                b
            } else {
                b + 1
            };
            assert(after[b] == live[source_b]);
        } else {
            assert(after[b] == live[i]);
            if source_a < i {
                assert(live[source_a].0 != live[i].0);
            } else {
                assert(live[i].0 != live[source_a].0);
            }
        }
    }
    assert forall|a: int| 0 <= a < after.len() implies SocketAddress::spec_from_key(
        (#[trigger] after[a]).0,
    ).is_some() && after[a].1.wf() by {
        if a < others.len() {
            let source_a = if a < i {
                a
            } else {
                a + 1
            };
            assert(after[a] == live[source_a]);
        } else {
            assert(after[a] == live[i]);
        }
    }
    assert(after[after.len() - 1] == live[i]);
}

/// Installing an association for a client that has none keeps a sound
/// table sound and within its capacity.
pub proof fn lemma_install_keeps_table(
    live: Seq<Entry>,
    capacity: nat,
    key: AddrKey,
    assoc: UdpAssociation,
)
    requires
        distinct_keys(live),
        sound_entries(live),
        !holds_key(live, key),
        SocketAddress::spec_from_key(key).is_some(),
        assoc.wf(),
        capacity >= 1,
    ensures
        distinct_keys(room_made(live, capacity).push((key, assoc))),
        sound_entries(room_made(live, capacity).push((key, assoc))),
        room_made(live, capacity).push((key, assoc)).len() <= capacity,
{
    let kept = room_made(live, capacity);
    let k = live.len() - kept.len();
    assert(kept =~= live.skip(k));
    lemma_newest_part_keeps_table(live, k);
    let after = kept.push((key, assoc));
    assert forall|a: int, b: int| 0 <= a < b < after.len() implies (#[trigger] after[a]).0 != (
    #[trigger] after[b]).0 by {
        if b < kept.len() {
            assert(after[a] == kept[a]);
            assert(after[b] == kept[b]);
        } else {
            assert(after[a] == kept[a]);
            assert(holds_key(kept, kept[a].0));
        }
    }
    assert forall|a: int| 0 <= a < after.len() implies SocketAddress::spec_from_key(
        (#[trigger] after[a]).0,
    ).is_some() && after[a].1.wf() by {
        if a < kept.len() {
            assert(after[a] == kept[a]);
        }
    }
}

} // verus!
