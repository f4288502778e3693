//! Filling the cache of static-static results before the tunnel starts.
use vstd::prelude::*;

use crate::cache::{cache_peer_ss, SsCache};
use crate::crypto::CryptoError;
use crate::keys::{Key, PublicKey};

verus! {

/// The cache after the first `upto` peers were visited. `answers[i]` is the
/// secret that the card computes when it is asked for peer `i`; a peer that is
/// in the cache when its turn comes is not asked for.
pub open spec fn precomputed(
    cache: Map<Key, Key>,
    peers: Seq<PublicKey>,
    answers: Seq<Option<Key>>,
    upto: nat,
) -> Map<Key, Key>
    decreases upto,
{
    if upto == 0 {
        cache
    } else {
        let before = precomputed(cache, peers, answers, (upto - 1) as nat);
        let peer = peers[upto - 1].0;
        match answers[upto - 1] {
            Some(ss) if !before.contains_key(peer) => before.insert(peer, ss),
            _ => before,
        }
    }
}

/// The first peer from `from` on that is not in the cache: the next one to ask
/// the card about.
pub fn next_uncached(cache: &SsCache, peers: &[PublicKey], from: usize) -> (index: Option<usize>)
    requires
        from <= peers@.len(),
    ensures
        match index {
            Some(i) => {
                &&& from <= i < peers@.len()
                &&& !cache@.contains_key(peers@[i as int].0)
                &&& forall|j: int| from <= j < i ==> cache@.contains_key(#[trigger] peers@[j].0)
            },
            None => forall|j: int|
                from <= j < peers@.len() ==> cache@.contains_key(#[trigger] peers@[j].0),
        },
{
    for i in from..peers.len()
        invariant
            from <= i <= peers@.len(),
            forall|j: int| from <= j < i ==> cache@.contains_key(#[trigger] peers@[j].0),
    {
        if cache.get(&peers[i]).is_none() {
            return Some(i);
        }
    }
    None
}

/// Registers the secret that was agreed on with a peer; without one, the cache
/// stays as it is.
pub fn record_ss(cache: &mut SsCache, peer: &PublicKey, agreed: Result<Key, CryptoError>)
    ensures
        final(cache)@ == (match agreed {
            Ok(ss) => old(cache)@.insert(peer.0, ss),
            Err(_) => old(cache)@,
        }),
{
    match agreed {
        Ok(ss) => cache_peer_ss(cache, peer, ss),
        Err(_) => {},
    }
}

/// Skipping peers that are in the cache, as [`next_uncached`] does, does not
/// change the result; asking about the peer found and recording the answer is
/// the next step towards it.
pub proof fn law_precompute_steps(
    cache: Map<Key, Key>,
    peers: Seq<PublicKey>,
    answers: Seq<Option<Key>>,
    from: nat,
    to: nat,
)
    requires
        from <= to <= peers.len(),
        answers.len() == peers.len(),
        forall|j: int|
            from <= j < to ==> precomputed(cache, peers, answers, from).contains_key(
                #[trigger] peers[j].0,
            ),
    ensures
        precomputed(cache, peers, answers, to) == precomputed(cache, peers, answers, from),
        to < peers.len() && !precomputed(cache, peers, answers, from).contains_key(
            peers[to as int].0,
        ) ==> precomputed(cache, peers, answers, to + 1) == (match answers[to as int] {
            Some(ss) => precomputed(cache, peers, answers, from).insert(peers[to as int].0, ss),
            None => precomputed(cache, peers, answers, from),
        }),
    decreases to - from,
{
    if from < to {
        law_precompute_steps(cache, peers, answers, from, (to - 1) as nat);
        assert(precomputed(cache, peers, answers, from).contains_key(peers[to - 1].0));
    }
    reveal_with_fuel(precomputed, 2);
    assert((to + 1 - 1) as nat == to);
}

/// After the precomputation a peer is in the cache exactly if it was before or
/// the card answered for it, entries that were there are untouched, and of
/// several answers for one peer the first counts.
pub proof fn law_precomputed_cache(
    cache: Map<Key, Key>,
    peers: Seq<PublicKey>,
    answers: Seq<Option<Key>>,
    upto: nat,
    key: Key,
)
    requires
        upto <= peers.len(),
        answers.len() == peers.len(),
    ensures
        precomputed(cache, peers, answers, upto).contains_key(key) <==> (cache.contains_key(key)
            || exists|i: int| 0 <= i < upto && #[trigger] peers[i].0 == key && answers[i] is Some),
        cache.contains_key(key) ==> precomputed(cache, peers, answers, upto)[key] == cache[key],
        !cache.contains_key(key) ==> forall|i: int|
            0 <= i < upto && #[trigger] peers[i].0 == key && answers[i] is Some && (forall|j: int|
                0 <= j < i && #[trigger] peers[j].0 == key ==> answers[j] is None)
                ==> precomputed(cache, peers, answers, upto)[key] == answers[i]->0,
    decreases upto,
{
    if upto > 0 {
        law_precomputed_cache(cache, peers, answers, (upto - 1) as nat, key);
        assert(peers[upto - 1].0 == key || peers[upto - 1].0 != key);
    }
}

/// The card is asked at most once per peer key that it answers for: when the
/// turn of the same key comes again, it is in the cache.
pub proof fn law_card_asked_once_per_key(
    cache: Map<Key, Key>,
    peers: Seq<PublicKey>,
    answers: Seq<Option<Key>>,
    first: nat,
    again: nat,
)
    requires
        first < again < peers.len(),
        answers.len() == peers.len(),
        peers[first as int].0 == peers[again as int].0,
        answers[first as int] is Some,
    ensures
        precomputed(cache, peers, answers, again).contains_key(peers[again as int].0),
{
    law_precomputed_cache(cache, peers, answers, again, peers[again as int].0);
}

} // verus!
