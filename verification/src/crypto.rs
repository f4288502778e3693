//! Routing of Diffie-Hellman operations between the card, the cache of
//! static-static results, and software.
use vstd::prelude::*;

use crate::cache::SsCache;
use crate::card::decipher::{decipher_outcome, decipher_run, law_decipher_outcome};
use crate::card::decipher::law_operation_keeps_its_peer;
use crate::card::decipher::{Attempt, CardDecipher, DecipherModel, DecipherPhase};
use crate::card::init::{CardInit, InitPhase};
use crate::card::CardHandle;
use crate::error::SmartcardError;
use crate::keys::{law_placeholder_has_no_byte_set, same_key, sentinel, smartcard_sentinel};
use crate::keys::{Key, PublicKey, StaticPrivateKey};

verus! {

/// A failed cryptographic operation.
#[derive(Clone, Copy, Debug, PartialEq, Eq)]
pub enum CryptoError {
    /// No shared secret could be agreed on.
    KeyExchangeError,
}

/// Where a Diffie-Hellman operation is carried out.
#[derive(Clone, Copy, Debug, PartialEq, Eq)]
pub enum DhRoute {
    /// Nowhere: the result is known.
    Cached(Key),
    /// On the card.
    Card,
    /// In software.
    Software,
}

/// How a Diffie-Hellman operation goes on.
pub enum DhStep {
    /// It is over.
    Finished(Result<Key, CryptoError>),
    /// The card carries it out.
    OnCard(CardDecipher),
    /// It is carried out in software.
    Software,
}

/// Where the public key of a private key comes from.
#[derive(Clone, Copy, Debug, PartialEq, Eq)]
pub enum PubkeyRoute {
    /// From the card, which was asked when it was opened.
    Card(PublicKey),
    /// From the private key, in software.
    Software,
}

/// Whether a private key stands for the key on the card.
pub open spec fn is_card_key(secret: StaticPrivateKey) -> bool {
    secret.0@ == sentinel()
}

/// The route of a Diffie-Hellman operation: software for a private key of our
/// own; for the key on the card, a cached result if there is one, else the card.
pub open spec fn dh_route(
    cache: Map<Key, Key>,
    secret: StaticPrivateKey,
    public: PublicKey,
) -> DhRoute {
    if !is_card_key(secret) {
        DhRoute::Software
    } else if cache.contains_key(public.0) {
        DhRoute::Cached(cache[public.0])
    } else {
        DhRoute::Card
    }
}

/// Where the public key of a private key comes from: for the key on the card,
/// from the card in use.
pub open spec fn pubkey_route(card: Option<CardHandle>, secret: StaticPrivateKey) -> PubkeyRoute {
    if is_card_key(secret) {
        PubkeyRoute::Card(card->0.cached_public_key)
    } else {
        PubkeyRoute::Software
    }
}

/// How a Diffie-Hellman operation goes on, given its route.
pub open spec fn dh_step(route: DhRoute, card: Option<CardHandle>, public: PublicKey) -> DhStep {
    match route {
        DhRoute::Cached(ss) => DhStep::Finished(Ok(ss)),
        DhRoute::Card => DhStep::OnCard(
            CardDecipher {
                ident: card->0.ident,
                pin: card->0.pin,
                peer: public.0,
                phase: DecipherPhase::Transaction(Attempt::First),
            },
        ),
        DhRoute::Software => DhStep::Software,
    }
}

/// The card that is referred to.
pub open spec fn referred(card: Option<&CardHandle>) -> Option<CardHandle> {
    match card {
        Some(handle) => Some(*handle),
        None => None,
    }
}

/// What the result of the card means: whatever went wrong there, no secret was
/// agreed on.
pub open spec fn agreed(result: Result<Key, SmartcardError>) -> Result<Key, CryptoError> {
    match result {
        Ok(ss) => Ok(ss),
        Err(_) => Err(CryptoError::KeyExchangeError),
    }
}

/// Cryptography with the static private key on a card: static-key operations
/// are routed to the card, everything else is done in software.
pub struct SmartcardCrypto;

impl SmartcardCrypto {
    fn stands_for_card(secret: &StaticPrivateKey) -> (card: bool)
        ensures
            card == is_card_key(*secret),
    {
        same_key(&secret.0, &smartcard_sentinel().0)
    }

    /// Decides where to compute the shared secret of a private and a public
    /// key. The cache is consulted before the card.
    pub fn route(cache: &SsCache, secret: &StaticPrivateKey, public: &PublicKey) -> (route: DhRoute)
        ensures
            route == dh_route(cache@, *secret, *public),
            !(forall|i: int| 0 <= i < 32 ==> secret.0@[i] == 0) ==> route is Software,
            (forall|i: int| 0 <= i < 32 ==> secret.0@[i] == 0) ==> if cache@.contains_key(public.0) {
                route == DhRoute::Cached(cache@[public.0])
            } else {
                route is Card
            },
    {
        proof {
            law_placeholder_has_no_byte_set(*secret);
        }
        if Self::stands_for_card(secret) {
            match cache.get(public) {
                Some(ss) => DhRoute::Cached(ss),
                None => DhRoute::Card,
            }
        } else {
            DhRoute::Software
        }
    }

    /// Starts to compute the shared secret of a private and a public key. Where
    /// the card has to do it, the card has to be open. The cache is not changed.
    pub fn x25519(
        cache: &SsCache,
        card: Option<&CardHandle>,
        secret: &StaticPrivateKey,
        public: &PublicKey,
    ) -> (step: DhStep)
        requires
            dh_route(cache@, *secret, *public) is Card ==> card is Some,
        ensures
            step == dh_step(dh_route(cache@, *secret, *public), referred(card), *public),
            !(forall|i: int| 0 <= i < 32 ==> secret.0@[i] == 0) ==> step is Software,
            (forall|i: int| 0 <= i < 32 ==> secret.0@[i] == 0) ==> if cache@.contains_key(public.0) {
                step == DhStep::Finished(Ok(cache@[public.0]))
            } else {
                &&& step matches DhStep::OnCard(operation)
                &&& operation.ident == card->0.ident
                &&& operation.pin == card->0.pin
                &&& operation.peer == public.0
                &&& operation.phase == DecipherPhase::Transaction(Attempt::First)
            },
    {
        proof {
            law_placeholder_has_no_byte_set(*secret);
        }
        match Self::route(cache, secret, public) {
            DhRoute::Cached(ss) => DhStep::Finished(Ok(ss)),
            DhRoute::Card => match card {
                Some(handle) => DhStep::OnCard(handle.decipher(&public.0)),
                None => vstd::pervasive::unreached(),
            },
            DhRoute::Software => DhStep::Software,
        }
    }

    /// The result of a Diffie-Hellman operation that the card carried out.
    pub fn x25519_from_card(result: Result<Key, SmartcardError>) -> (agreement: Result<
        Key,
        CryptoError,
    >)
        ensures
            agreement == agreed(result),
            agreement == (match result {
                Ok(ss) => Ok::<Key, CryptoError>(ss),
                Err(_) => Err(CryptoError::KeyExchangeError),
            }),
    {
        match result {
            Ok(ss) => Ok(ss),
            Err(_) => Err(CryptoError::KeyExchangeError),
        }
    }

    /// Decides where the public key of a private key comes from. For the key
    /// on the card, the card has to be open.
    pub fn x25519_pubkey(card: Option<&CardHandle>, secret: &StaticPrivateKey) -> (route:
        PubkeyRoute)
        requires
            is_card_key(*secret) ==> card is Some,
        ensures
            route == pubkey_route(referred(card), *secret),
            !(forall|i: int| 0 <= i < 32 ==> secret.0@[i] == 0) ==> route is Software,
            (forall|i: int| 0 <= i < 32 ==> secret.0@[i] == 0) ==> route == PubkeyRoute::Card(
                card->0.cached_public_key,
            ),
    {
        proof {
            law_placeholder_has_no_byte_set(*secret);
        }
        if Self::stands_for_card(secret) {
            match card {
                Some(handle) => PubkeyRoute::Card(handle.cached_public_key),
                None => vstd::pervasive::unreached(),
            }
        } else {
            PubkeyRoute::Software
        }
    }
}

/// Once a static-static result is registered for a peer, an operation with the
/// key on the card and that peer's key returns it without a round-trip to the
/// card; the routes for all other keys stay as they were.
pub proof fn law_registered_result_is_used(
    cache: Map<Key, Key>,
    secret: StaticPrivateKey,
    peer: PublicKey,
    ss: Key,
    other: PublicKey,
)
    requires
        is_card_key(secret),
    ensures
        dh_route(cache.insert(peer.0, ss), secret, peer) == DhRoute::Cached(ss),
        other.0 != peer.0 ==> dh_route(cache.insert(peer.0, ss), secret, other) == dh_route(
            cache,
            secret,
            other,
        ),
{
}

/// Once the result of a peer is removed, operations with that peer's key go to
/// the card again; the routes for all other keys stay as they were.
pub proof fn law_cleared_result_is_not_used(
    cache: Map<Key, Key>,
    secret: StaticPrivateKey,
    peer: PublicKey,
    other: PublicKey,
)
    requires
        is_card_key(secret),
    ensures
        dh_route(cache.remove(peer.0), secret, peer) == DhRoute::Card,
        other.0 != peer.0 ==> dh_route(cache.remove(peer.0), secret, other) == dh_route(
            cache,
            secret,
            other,
        ),
{
}

/// A key that was never registered, such as an ephemeral one, is always sent
/// to the card.
pub proof fn law_unregistered_key_goes_to_card(
    cache: Map<Key, Key>,
    secret: StaticPrivateKey,
    public: PublicKey,
)
    requires
        is_card_key(secret),
    ensures
        dh_route(cache, secret, public) is Card <==> !cache.contains_key(public.0),
{
}

/// An operation with a private key of our own involves neither card nor cache.
pub proof fn law_own_key_stays_in_software(
    cache: Map<Key, Key>,
    secret: StaticPrivateKey,
    public: PublicKey,
)
    requires
        !is_card_key(secret),
    ensures
        dh_route(cache, secret, public) is Software,
{
}

/// Once a card is opened, it serves the key on the card: the public key is the
/// one that was read from it, and operations with unregistered keys are started
/// on this card, with the PIN that it was opened with.
pub proof fn law_opened_card_serves(
    search: CardInit,
    cache: Map<Key, Key>,
    secret: StaticPrivateKey,
    public: PublicKey,
)
    requires
        search.phase is Opened,
        is_card_key(secret),
    ensures
        search.phase matches InitPhase::Opened(card, key) && {
            let in_use = Some(search.handle(card, key));
            &&& pubkey_route(in_use, secret) == PubkeyRoute::Card(PublicKey(key))
            &&& !cache.contains_key(public.0) ==> {
                &&& dh_step(dh_route(cache, secret, public), in_use, public) matches DhStep::OnCard(
                    operation,
                )
                &&& operation.ident == card
                &&& operation.pin == search.pin
                &&& operation.peer == public.0
            }
        },
{
}

/// With the key on the card and a peer that is not in the cache, whatever is
/// answered, the operation that is started on the card ends with the secret
/// that the card agrees on with that peer, and with `KeyExchangeError` if it
/// agrees on none.
pub proof fn law_card_decides_for_unregistered_keys(
    handle: CardHandle,
    public: PublicKey,
    world: DecipherModel,
)
    requires
        world.well_formed(),
    ensures
        ({
            let operation = CardDecipher {
                ident: handle.ident,
                pin: handle.pin,
                peer: public.0,
                phase: DecipherPhase::Transaction(Attempt::First),
            };
            let end = decipher_run(operation, world, 0);
            &&& end.phase is Finished
            &&& end.peer == public.0
            &&& agreed(end.phase->Finished_0) == (match decipher_outcome(handle.ident, world) {
                Ok(ss) => Ok::<Key, CryptoError>(ss),
                Err(_) => Err(CryptoError::KeyExchangeError),
            })
        }),
{
    let operation = CardDecipher {
        ident: handle.ident,
        pin: handle.pin,
        peer: public.0,
        phase: DecipherPhase::Transaction(Attempt::First),
    };
    law_decipher_outcome(operation, world);
    law_operation_keeps_its_peer(operation, world, 0);
}

/// With the key on the card, an operation with a registered peer is over at
/// once, with exactly the secret that was registered last, and it does not
/// matter which card is open, or whether one is.
pub proof fn law_registered_secret_is_the_result(
    cache: Map<Key, Key>,
    card: Option<CardHandle>,
    secret: StaticPrivateKey,
    peer: PublicKey,
    ss: Key,
)
    requires
        forall|i: int| 0 <= i < 32 ==> secret.0@[i] == 0,
    ensures
        ({
            let registered = cache.insert(peer.0, ss);
            dh_step(dh_route(registered, secret, peer), card, peer) == DhStep::Finished(Ok(ss))
        }),
        cache.contains_key(peer.0) ==> dh_step(dh_route(cache, secret, peer), card, peer)
            == DhStep::Finished(Ok(cache[peer.0])),
{
    law_placeholder_has_no_byte_set(secret);
}

/// With a private key that has a byte set, an operation is left to software,
/// whatever is registered and whether a card is open or not; so is the public
/// key.
pub proof fn law_own_key_never_meets_the_card(
    cache: Map<Key, Key>,
    card: Option<CardHandle>,
    secret: StaticPrivateKey,
    peer: PublicKey,
    i: int,
)
    requires
        0 <= i < 32,
        secret.0@[i] != 0,
    ensures
        dh_step(dh_route(cache, secret, peer), card, peer) is Software,
        pubkey_route(card, secret) is Software,
{
    law_placeholder_has_no_byte_set(secret);
}

/// With the key on the card and a peer that is not registered, the operation
/// starts on the card that is open, with its PIN and with this peer's key; and
/// the public key is the one that was read from that card.
pub proof fn law_open_card_is_asked(
    cache: Map<Key, Key>,
    handle: CardHandle,
    secret: StaticPrivateKey,
    peer: PublicKey,
)
    requires
        forall|i: int| 0 <= i < 32 ==> secret.0@[i] == 0,
        !cache.contains_key(peer.0),
    ensures
        dh_step(dh_route(cache, secret, peer), Some(handle), peer) matches DhStep::OnCard(operation)
            && operation == (CardDecipher {
            ident: handle.ident,
            pin: handle.pin,
            peer: peer.0,
            phase: DecipherPhase::Transaction(Attempt::First),
        }),
        pubkey_route(Some(handle), secret) == PubkeyRoute::Card(handle.cached_public_key),
{
    law_placeholder_has_no_byte_set(secret);
}

/// A secret that the card computed is the result, unchanged; every error of
/// the card is the same failed key exchange.
pub proof fn law_card_result_is_taken_over(ss: Key, error: SmartcardError)
    ensures
        agreed(Ok(ss)) == Ok::<Key, CryptoError>(ss),
        agreed(Err(error)) == Err::<Key, CryptoError>(CryptoError::KeyExchangeError),
{
}

} // verus!
