//! Precomputed static-static Diffie-Hellman results, one per peer.
use vstd::prelude::*;

use crate::keys::{same_key, Key, PublicKey};

verus! {

struct SsEntry {
    peer: Key,
    ss: Key,
}

/// Maps the public key of a peer to the shared secret of our static key and
/// the peer's static key. Ephemeral keys are never registered here.
pub struct SsCache {
    entries: Vec<SsEntry>,
}

spec fn holds_at(entries: Seq<SsEntry>, peer: Key, i: int) -> bool {
    0 <= i < entries.len() && entries[i].peer == peer
}

spec fn distinct(entries: Seq<SsEntry>) -> bool {
    forall|i: int, j: int|
        0 <= i < entries.len() && 0 <= j < entries.len() && i != j ==> entries[i].peer
            != entries[j].peer
}

spec fn contents(entries: Seq<SsEntry>) -> Map<Key, Key> {
    Map::new(
        |peer: Key| exists|i: int| holds_at(entries, peer, i),
        |peer: Key| entries[choose|i: int| holds_at(entries, peer, i)].ss,
    )
}

proof fn lemma_contents_at(entries: Seq<SsEntry>, i: int)
    requires
        distinct(entries),
        0 <= i < entries.len(),
    ensures
        contents(entries).contains_key(entries[i].peer),
        contents(entries)[entries[i].peer] == entries[i].ss,
{
    assert(holds_at(entries, entries[i].peer, i));
}

impl View for SsCache {
    type V = Map<Key, Key>;

    closed spec fn view(&self) -> Map<Key, Key> {
        contents(self.entries@)
    }
}

impl SsCache {
    /// No peer is registered twice.
    #[verifier::type_invariant]
    spec fn well_formed(self) -> bool {
        distinct(self.entries@)
    }

    /// A cache without entries.
    pub fn new() -> (cache: SsCache)
        ensures
            cache@ == Map::<Key, Key>::empty(),
    {
        let cache = SsCache { entries: Vec::new() };
        assert(cache@ =~= Map::<Key, Key>::empty());
        cache
    }

    fn position(entries: &Vec<SsEntry>, peer: &Key) -> (found: Option<usize>)
        ensures
            match found {
                Some(i) => holds_at(entries@, *peer, i as int),
                None => forall|i: int| !holds_at(entries@, *peer, i),
            },
    {
        for i in 0..entries.len()
            invariant
                forall|j: int| 0 <= j < i ==> entries@[j].peer != *peer,
        {
            if same_key(&entries[i].peer, peer) {
                return Some(i);
            }
        }
        None
    }

    /// The secret registered for a peer.
    pub fn get(&self, peer: &PublicKey) -> (ss: Option<Key>)
        ensures
            ss is Some <==> self@.contains_key(peer.0),
            ss matches Some(value) ==> value == self@[peer.0],
    {
        proof {
            use_type_invariant(self);
        }
        match Self::position(&self.entries, &peer.0) {
            Some(i) => {
                proof {
                    lemma_contents_at(self.entries@, i as int);
                }
                Some(self.entries[i].ss)
            },
            None => None,
        }
    }
}

/// Registers a precomputed static-static result for a peer, in place of an
/// earlier one.
pub fn cache_peer_ss(cache: &mut SsCache, peer_pk: &PublicKey, ss: Key)
    ensures
        final(cache)@ == old(cache)@.insert(peer_pk.0, ss),
{
    proof {
        use_type_invariant(&*cache);
    }
    let mut entries: Vec<SsEntry> = Vec::new();
    core::mem::swap(&mut entries, &mut cache.entries);
    let ghost before = entries@;
    let entry = SsEntry { peer: peer_pk.0, ss };
    match SsCache::position(&entries, &peer_pk.0) {
        Some(i) => {
            entries[i] = entry;
        },
        None => {
            entries.push(entry);
        },
    }
    proof {
        lemma_insert(before, entries@, peer_pk.0, ss);
    }
    cache.entries = entries;
}

/// Forgets the static-static result of a peer.
pub fn clear_peer_ss(cache: &mut SsCache, peer_pk: &PublicKey)
    ensures
        final(cache)@ == old(cache)@.remove(peer_pk.0),
{
    proof {
        use_type_invariant(&*cache);
    }
    let mut entries: Vec<SsEntry> = Vec::new();
    core::mem::swap(&mut entries, &mut cache.entries);
    let ghost before = entries@;
    match SsCache::position(&entries, &peer_pk.0) {
        Some(i) => {
            entries.remove(i);
            proof {
                lemma_remove(before, i as int);
            }
        },
        None => {
            assert(contents(before).remove(peer_pk.0) =~= contents(before));
        },
    }
    cache.entries = entries;
}

proof fn lemma_insert(before: Seq<SsEntry>, after: Seq<SsEntry>, peer: Key, ss: Key)
    requires
        distinct(before),
        ({
            let entry = SsEntry { peer, ss };
            ||| exists|i: int| holds_at(before, peer, i) && after == before.update(i, entry)
            ||| (forall|i: int| !holds_at(before, peer, i)) && after == before.push(entry)
        }),
    ensures
        distinct(after),
        contents(after) == contents(before).insert(peer, ss),
{
    if exists|i: int| holds_at(before, peer, i) {
        let at = choose|i: int|
            holds_at(before, peer, i) && after == before.update(i, SsEntry { peer, ss });
        assert(distinct(after)) by {
            assert forall|i: int, j: int|
                0 <= i < after.len() && 0 <= j < after.len() && i != j implies after[i].peer
                != after[j].peer by {
                assert(after[i].peer == before[i].peer);
                assert(after[j].peer == before[j].peer);
            }
        }
        assert forall|k: Key| contents(after).contains_key(k) == contents(before).insert(
            peer,
            ss,
        ).contains_key(k) by {
            if exists|i: int| holds_at(after, k, i) {
                let i = choose|i: int| holds_at(after, k, i);
                assert(holds_at(before, k, i));
            }
            if exists|i: int| holds_at(before, k, i) {
                let i = choose|i: int| holds_at(before, k, i);
                assert(holds_at(after, k, i));
            }
            assert(holds_at(after, peer, at));
        }
    } else {
        assert(distinct(after)) by {
            assert forall|i: int, j: int|
                0 <= i < after.len() && 0 <= j < after.len() && i != j implies after[i].peer
                != after[j].peer by {
                assert(i < before.len() ==> !holds_at(before, peer, i));
                assert(j < before.len() ==> !holds_at(before, peer, j));
            }
        }
        assert forall|k: Key| contents(after).contains_key(k) == contents(before).insert(
            peer,
            ss,
        ).contains_key(k) by {
            if exists|i: int| holds_at(after, k, i) {
                let i = choose|i: int| holds_at(after, k, i);
                assert(i < before.len() ==> holds_at(before, k, i));
            }
            if exists|i: int| holds_at(before, k, i) {
                let i = choose|i: int| holds_at(before, k, i);
                assert(holds_at(after, k, i));
            }
            assert(holds_at(after, peer, before.len() as int));
        }
    }
    assert forall|k: Key| contents(after).contains_key(k) implies contents(after)[k] == contents(
        before,
    ).insert(peer, ss)[k] by {
        let i = choose|i: int| holds_at(after, k, i);
        lemma_contents_at(after, i);
        if k != peer {
            lemma_contents_at(before, i);
        }
    }
    assert(contents(after) =~= contents(before).insert(peer, ss));
}

proof fn lemma_remove(before: Seq<SsEntry>, at: int)
    requires
        distinct(before),
        0 <= at < before.len(),
    ensures
        distinct(before.remove(at)),
        contents(before.remove(at)) == contents(before).remove(before[at].peer),
{
    let after = before.remove(at);
    assert forall|k: Key| contents(after).contains_key(k) == contents(before).remove(
        before[at].peer,
    ).contains_key(k) by {
        if exists|i: int| holds_at(after, k, i) {
            let i = choose|i: int| holds_at(after, k, i);
            assert(holds_at(before, k, if i < at { i } else { i + 1 }));
        }
        if k != before[at].peer && exists|i: int| holds_at(before, k, i) {
            let i = choose|i: int| holds_at(before, k, i);
            assert(holds_at(after, k, if i < at { i } else { i - 1 }));
        }
    }
    assert forall|k: Key| contents(after).contains_key(k) implies contents(after)[k] == contents(
        before,
    ).remove(before[at].peer)[k] by {
        let i = choose|i: int| holds_at(after, k, i);
        lemma_contents_at(after, i);
        lemma_contents_at(before, if i < at { i } else { i + 1 });
    }
    assert(contents(after) =~= contents(before).remove(before[at].peer));
}

} // verus!
