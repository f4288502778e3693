use smartguard::card::CardQuery;
use smartguard::precompute::{next_uncached, record_ss};
use smartguard::{accept_shared_secret, cache_peer_ss, clear_peer_ss, is_zero_secret};
use smartguard::{smartcard_sentinel, CardHandle, CryptoError, DhRoute, DhStep, PubkeyRoute};
use smartguard::{PublicKey, SmartcardCrypto, SmartcardError, SsCache, StaticPrivateKey};

fn handle() -> CardHandle {
    CardHandle {
        cached_public_key: PublicKey([5; 32]),
        ident: "0006:00000001".to_string(),
        pin: "1234".to_string(),
    }
}

#[test]
fn sentinel_is_zero() {
    assert_eq!(smartcard_sentinel().0, [0; 32]);
}

#[test]
fn zero_secret_is_rejected() {
    assert_eq!(accept_shared_secret(&[0u8; 32]), Err(SmartcardError::ZeroSharedSecret));
    assert_eq!(accept_shared_secret(&[]), Err(SmartcardError::ZeroSharedSecret));
    assert_eq!(accept_shared_secret(&[0u8; 5]), Err(SmartcardError::ZeroSharedSecret));
}

#[test]
fn other_secret_is_accepted() {
    let mut secret = [0u8; 32];
    secret[31] = 0x80;
    assert_eq!(accept_shared_secret(&secret), Ok(secret));
    assert!(!is_zero_secret(&secret));
    assert!(!is_zero_secret(&[1]));
    assert!(is_zero_secret(&[]));
}

#[test]
fn registered_result_is_used() {
    let mut cache = SsCache::new();
    let sk = smartcard_sentinel();
    let (a, b) = (PublicKey([1; 32]), PublicKey([2; 32]));
    assert_eq!(SmartcardCrypto::route(&cache, &sk, &a), DhRoute::Card);
    cache_peer_ss(&mut cache, &a, [7; 32]);
    assert_eq!(SmartcardCrypto::route(&cache, &sk, &a), DhRoute::Cached([7; 32]));
    assert_eq!(SmartcardCrypto::route(&cache, &sk, &b), DhRoute::Card);
    cache_peer_ss(&mut cache, &b, [9; 32]);
    cache_peer_ss(&mut cache, &a, [8; 32]);
    assert_eq!(cache.get(&a), Some([8; 32]));
    assert_eq!(cache.get(&b), Some([9; 32]));
    clear_peer_ss(&mut cache, &a);
    assert_eq!(SmartcardCrypto::route(&cache, &sk, &a), DhRoute::Card);
    assert_eq!(SmartcardCrypto::route(&cache, &sk, &b), DhRoute::Cached([9; 32]));
    clear_peer_ss(&mut cache, &a);
    assert_eq!(cache.get(&b), Some([9; 32]));
}

#[test]
fn own_key_stays_in_software() {
    let mut cache = SsCache::new();
    let peer = PublicKey([1; 32]);
    cache_peer_ss(&mut cache, &peer, [7; 32]);
    let mut bytes = [0u8; 32];
    bytes[0] = 1;
    let sk = StaticPrivateKey(bytes);
    assert_eq!(SmartcardCrypto::route(&cache, &sk, &peer), DhRoute::Software);
    assert!(matches!(SmartcardCrypto::x25519(&cache, None, &sk, &peer), DhStep::Software));
    assert_eq!(SmartcardCrypto::x25519_pubkey(None, &sk), PubkeyRoute::Software);
}

#[test]
fn card_key_goes_to_cache_or_card() {
    let mut cache = SsCache::new();
    let sk = smartcard_sentinel();
    let peer = PublicKey([1; 32]);
    match SmartcardCrypto::x25519(&cache, Some(&handle()), &sk, &peer) {
        DhStep::OnCard(operation) => {
            assert_eq!(operation.peer, [1; 32]);
            assert_eq!(operation.query(), Some(CardQuery::Transaction));
        }
        _ => panic!("the card was not asked"),
    }
    cache_peer_ss(&mut cache, &peer, [7; 32]);
    match SmartcardCrypto::x25519(&cache, None, &sk, &peer) {
        DhStep::Finished(result) => assert_eq!(result, Ok([7; 32])),
        _ => panic!("the cache was not used"),
    }
}

#[test]
fn public_key_of_the_card_is_the_cached_one() {
    assert_eq!(
        SmartcardCrypto::x25519_pubkey(Some(&handle()), &smartcard_sentinel()),
        PubkeyRoute::Card(PublicKey([5; 32]))
    );
}

#[test]
fn card_errors_are_key_exchange_errors() {
    assert_eq!(SmartcardCrypto::x25519_from_card(Ok([3; 32])), Ok([3; 32]));
    assert_eq!(
        SmartcardCrypto::x25519_from_card(Err(SmartcardError::NoDecryptionKey)),
        Err(CryptoError::KeyExchangeError)
    );
}

#[test]
fn precomputation_asks_once_per_key() {
    let a = PublicKey([1; 32]);
    let b = PublicKey([2; 32]);
    let c = PublicKey([3; 32]);
    let peers = [a, b, a, c, b];
    let mut cache = SsCache::new();
    cache_peer_ss(&mut cache, &c, [33; 32]);
    let mut asked = Vec::new();
    let mut from = 0;
    while let Some(i) = next_uncached(&cache, &peers, from) {
        asked.push(i);
        let answer = if peers[i] == b && i == 1 {
            Err(CryptoError::KeyExchangeError)
        } else {
            Ok([10 + i as u8; 32])
        };
        record_ss(&mut cache, &peers[i], answer);
        from = i + 1;
    }
    assert_eq!(asked, vec![0, 1, 4]);
    assert_eq!(cache.get(&a), Some([10; 32]));
    assert_eq!(cache.get(&b), Some([14; 32]));
    assert_eq!(cache.get(&c), Some([33; 32]));
}

#[test]
fn error_messages() {
    let text = |s: &str| s.to_string();
    assert_eq!(SmartcardError::CardNotFound(text("x")).message(), "card not found: x");
    assert_eq!(
        SmartcardError::NoDecryptionKey.message(),
        "card does not have an X25519 decryption key"
    );
    assert_eq!(SmartcardError::PinFailed(text("x")).message(), "PIN verification failed: x");
    assert_eq!(SmartcardError::DhFailed(text("x")).message(), "DH operation failed: x");
    assert_eq!(SmartcardError::CardError(text("x")).message(), "card communication error: x");
    assert_eq!(
        SmartcardError::ZeroSharedSecret.message(),
        "shared secret is zero (invalid peer public key)"
    );
}
