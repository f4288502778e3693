use smartguard::card::decipher::{CardDecipher, DecipherPhase};
use smartguard::card::init::InitPhase;
use smartguard::card::reconnect::{CardReconnect, ReconnectPhase};
use smartguard::card::{decryption_key, CardQuery, CardReply, KeyMaterial, ReaderModel};
use smartguard::{smartcard_sentinel, DhStep, SmartcardCrypto, SsCache};
use smartguard::{init_smartcard, list_cards, CardHandle, CardInfo, PublicKey, SmartcardError};

fn text(s: &str) -> String {
    s.to_string()
}

/// The curve of X25519.
const CV25519: [u8; 10] = [0x2b, 0x06, 0x01, 0x04, 0x01, 0x97, 0x55, 0x01, 0x05, 0x01];

/// The curve of Ed25519.
const ED25519: [u8; 9] = [0x2b, 0x06, 0x01, 0x04, 0x01, 0xda, 0x47, 0x0f, 0x01];

fn x25519(data: Vec<u8>) -> KeyMaterial {
    KeyMaterial::Ecc { oid: CV25519.to_vec(), data }
}

fn on_curve(oid: &[u8]) -> KeyMaterial {
    KeyMaterial::Ecc { oid: oid.to_vec(), data: vec![9; 32] }
}

fn good_reader(ident: &str, key: u8) -> ReaderModel {
    ReaderModel {
        opened: Ok(()),
        connected: Ok(()),
        transaction: Ok(()),
        ident: Ok(text(ident)),
        key: Ok(x25519(vec![key; 32])),
        pin: Ok(()),
    }
}

fn unit(result: &Result<(), String>) -> CardReply {
    match result {
        Ok(()) => CardReply::Done,
        Err(reason) => CardReply::Failed(reason.clone()),
    }
}

/// Readers that answer questions, and remember them.
struct World {
    enumerated: Result<(), String>,
    readers: Vec<ReaderModel>,
    next: usize,
    asked: Vec<String>,
}

fn world(readers: Vec<ReaderModel>) -> World {
    World { enumerated: Ok(()), readers, next: 0, asked: Vec::new() }
}

impl World {
    fn answer(&mut self, query: &CardQuery) -> CardReply {
        self.asked.push(format!("{:?}", query));
        let reply = match query {
            CardQuery::Enumerate => {
                self.next = 0;
                unit(&self.enumerated)
            }
            CardQuery::NextReader => {
                if self.next < self.readers.len() {
                    self.next += 1;
                    unit(&self.readers[self.next - 1].opened)
                } else {
                    CardReply::NoMoreReaders
                }
            }
            CardQuery::Connect => unit(&self.readers[self.next - 1].connected),
            CardQuery::Transaction => unit(&self.readers[self.next - 1].transaction),
            CardQuery::Ident => match &self.readers[self.next - 1].ident {
                Ok(ident) => CardReply::Ident(ident.clone()),
                Err(reason) => CardReply::Failed(reason.clone()),
            },
            CardQuery::PublicKey => match &self.readers[self.next - 1].key {
                Ok(KeyMaterial::Ecc { oid, data }) => {
                    CardReply::Key(KeyMaterial::Ecc { oid: oid.clone(), data: data.clone() })
                }
                Ok(KeyMaterial::Other) => CardReply::Key(KeyMaterial::Other),
                Err(reason) => CardReply::Failed(reason.clone()),
            },
            CardQuery::VerifyPin(_) => unit(&self.readers[self.next - 1].pin),
            CardQuery::Decipher(_) => panic!("a scan asks for no secret"),
        };
        assert!(query.accepts(&reply));
        reply
    }
}

fn list(world: &mut World) -> Result<Vec<CardInfo>, SmartcardError> {
    let mut listing = list_cards();
    while let Some(query) = listing.query() {
        let reply = world.answer(&query);
        listing = listing.step(reply);
    }
    listing.finish()
}

fn open(world: &mut World, ident: &str, pin: &str) -> Result<(String, [u8; 32], String), SmartcardError> {
    let mut search = init_smartcard(ident, pin);
    while let Some(query) = search.query() {
        let reply = world.answer(&query);
        search = search.step(reply);
    }
    search.finish().map(|handle| (handle.ident, handle.cached_public_key.0, handle.pin))
}

fn find_again(world: &mut World, ident: &str) -> ReconnectPhase {
    let mut search = CardReconnect::new(text(ident));
    while let Some(query) = search.query() {
        let reply = world.answer(&query);
        search = search.step(reply);
    }
    search.phase
}

fn pin_questions(world: &World) -> usize {
    world.asked.iter().filter(|query| query.starts_with("VerifyPin")).count()
}

#[test]
fn list_keeps_readable_cards_in_order() {
    let mut unreadable = good_reader("u", 9);
    unreadable.opened = Err(text("gone"));
    let mut unconnected = good_reader("v", 9);
    unconnected.connected = Err(text("no applet"));
    let mut busy = good_reader("w", 9);
    busy.transaction = Err(text("busy"));
    let mut nameless = good_reader("x", 9);
    nameless.ident = Err(text("no ident"));
    let mut keyless = good_reader("y", 9);
    keyless.key = Err(text("no key"));
    let mut rsa = good_reader("z", 9);
    rsa.key = Ok(KeyMaterial::Other);
    let mut short = good_reader("s", 9);
    short.key = Ok(x25519(vec![1; 31]));
    let mut long = good_reader("l", 9);
    long.key = Ok(x25519(vec![1; 33]));
    let mut w = world(vec![
        unreadable,
        good_reader("0006:00000001", 1),
        unconnected,
        busy,
        nameless,
        keyless,
        rsa,
        short,
        long,
        good_reader("0006:00000002", 2),
    ]);
    let cards = list(&mut w).unwrap();
    assert_eq!(
        cards,
        vec![
            CardInfo { ident: text("0006:00000001"), public_key: [1; 32] },
            CardInfo { ident: text("0006:00000002"), public_key: [2; 32] },
        ]
    );
    assert_eq!(pin_questions(&w), 0);
}

#[test]
fn key_on_another_curve_is_not_listed() {
    let mut ed = good_reader("a", 1);
    ed.key = Ok(on_curve(&ED25519));
    let mut w = world(vec![ed, good_reader("b", 2)]);
    let cards = list(&mut w).unwrap();
    assert_eq!(cards, vec![CardInfo { ident: text("b"), public_key: [2; 32] }]);
}

#[test]
fn key_on_another_curve_is_not_opened() {
    let mut ed = good_reader("a", 1);
    ed.key = Ok(on_curve(&ED25519));
    let mut w = world(vec![ed, good_reader("b", 2)]);
    assert_eq!(open(&mut w, "auto", "1"), Ok((text("b"), [2; 32], text("1"))));
    assert_eq!(pin_questions(&w), 1);
    assert_eq!(open(&mut w, "a", "1"), Err(SmartcardError::NoDecryptionKey));
    assert_eq!(pin_questions(&w), 1);
}

#[test]
fn listed_cards_can_be_opened() {
    let mut rsa = good_reader("r", 1);
    rsa.key = Ok(KeyMaterial::Other);
    let mut w = world(vec![rsa, good_reader("a", 1), good_reader("b", 2), good_reader("c", 3)]);
    let cards = list(&mut w).unwrap();
    assert_eq!(cards.len(), 3);
    for card in &cards {
        assert_eq!(
            open(&mut w, &card.ident, "1"),
            Ok((card.ident.clone(), card.public_key, text("1")))
        );
    }
    assert_eq!(
        open(&mut w, "auto", "1"),
        Ok((cards[0].ident.clone(), cards[0].public_key, text("1")))
    );
}

#[test]
fn list_of_no_readers_is_empty() {
    assert_eq!(list(&mut world(vec![])).unwrap(), vec![]);
}

#[test]
fn list_fails_only_if_readers_cannot_be_listed() {
    let mut w = world(vec![good_reader("a", 1)]);
    w.enumerated = Err(text("pcscd is not running"));
    assert_eq!(list(&mut w), Err(SmartcardError::CardError(text("pcscd is not running"))));
    assert_eq!(w.asked, vec![text("Enumerate")]);
}

#[test]
fn named_card_is_opened() {
    let mut w = world(vec![good_reader("a", 1), good_reader("b", 2), good_reader("b", 3)]);
    assert_eq!(open(&mut w, "b", "1234"), Ok((text("b"), [2; 32], text("1234"))));
    assert_eq!(
        w.asked,
        vec![
            "Enumerate", "NextReader", "Connect", "Transaction", "Ident", "NextReader", "Connect",
            "Transaction", "Ident", "PublicKey", "VerifyPin(\"1234\")",
        ]
    );
}

#[test]
fn auto_opens_first_card_with_a_key() {
    let mut rsa = good_reader("a", 1);
    rsa.key = Ok(KeyMaterial::Other);
    let mut short = good_reader("b", 1);
    short.key = Ok(x25519(vec![7; 31]));
    let mut w = world(vec![rsa, short, good_reader("c", 3), good_reader("d", 4)]);
    assert_eq!(open(&mut w, "auto", "1"), Ok((text("c"), [3; 32], text("1"))));
    assert_eq!(pin_questions(&w), 1);
    assert_eq!(list(&mut w).unwrap()[0], CardInfo { ident: text("c"), public_key: [3; 32] });
    assert!(matches!(find_again(&mut w, "c"), ReconnectPhase::Reconnected));
}

#[test]
fn named_card_without_key_is_an_error() {
    let mut rsa = good_reader("a", 1);
    rsa.key = Ok(KeyMaterial::Other);
    let mut w = world(vec![rsa, good_reader("a", 2)]);
    assert_eq!(open(&mut w, "a", "1"), Err(SmartcardError::NoDecryptionKey));
    let mut long = good_reader("a", 1);
    long.key = Ok(x25519(vec![0; 33]));
    assert_eq!(open(&mut world(vec![long]), "a", "1"), Err(SmartcardError::NoDecryptionKey));
}

#[test]
fn refused_pin_ends_the_search() {
    let mut first = good_reader("a", 1);
    first.pin = Err(text("blocked"));
    let mut w = world(vec![first, good_reader("b", 2)]);
    assert_eq!(open(&mut w, "auto", "1"), Err(SmartcardError::PinFailed(text("blocked"))));
    assert_eq!(pin_questions(&w), 1);
}

#[test]
fn unreadable_card_ends_the_search() {
    for stage in 0..5 {
        let mut first = good_reader("a", 1);
        match stage {
            0 => first.opened = Err(text("e")),
            1 => first.connected = Err(text("e")),
            2 => first.transaction = Err(text("e")),
            3 => first.ident = Err(text("e")),
            _ => first.key = Err(text("e")),
        }
        let mut w = world(vec![first, good_reader("a", 2)]);
        assert_eq!(open(&mut w, "a", "1"), Err(SmartcardError::CardError(text("e"))));
        assert_eq!(pin_questions(&w), 0);
    }
}

#[test]
fn missing_card_is_not_found() {
    let mut w = world(vec![good_reader("a", 1)]);
    assert_eq!(open(&mut w, "b", "1"), Err(SmartcardError::CardNotFound(text("b"))));
    assert_eq!(pin_questions(&w), 0);
    assert_eq!(
        open(&mut world(vec![]), "auto", "1"),
        Err(SmartcardError::CardNotFound(text("auto")))
    );
    let mut down = world(vec![]);
    down.enumerated = Err(text("down"));
    assert_eq!(open(&mut down, "auto", "1"), Err(SmartcardError::CardError(text("down"))));
}

#[test]
fn opened_card_replaces_the_one_in_use() {
    let mut in_use: Option<CardHandle> = None;
    let mut search = init_smartcard("a", "1");
    let mut w = world(vec![good_reader("a", 1)]);
    while let Some(query) = search.query() {
        search = search.step(w.answer(&query));
    }
    assert_eq!(search.install(&mut in_use), Ok(PublicKey([1; 32])));
    let mut failed = init_smartcard("b", "2");
    while let Some(query) = failed.query() {
        failed = failed.step(w.answer(&query));
    }
    assert_eq!(failed.install(&mut in_use), Err(SmartcardError::CardNotFound(text("b"))));
    let handle = in_use.unwrap();
    assert_eq!(handle.ident, "a");
    assert_eq!(handle.pin, "1");
    assert_eq!(handle.cached_public_key, PublicKey([1; 32]));
    let cache = SsCache::new();
    let step =
        SmartcardCrypto::x25519(&cache, Some(&handle), &smartcard_sentinel(), &PublicKey([9; 32]));
    match step {
        DhStep::OnCard(operation) => {
            assert_eq!(operation.ident, "a");
            assert_eq!(operation.pin, "1");
            assert_eq!(operation.peer, [9; 32]);
        }
        _ => panic!("the card was not asked"),
    }
}

#[test]
fn search_states_are_visible() {
    let search = init_smartcard("a", "1").step(CardReply::Done).step(CardReply::Done);
    assert!(matches!(search.phase, InitPhase::Connect));
}

#[test]
fn reconnection_passes_over_unreadable_cards() {
    let mut broken = good_reader("a", 1);
    broken.connected = Err(text("e"));
    let mut w = world(vec![broken, good_reader("b", 2), good_reader("a", 3), good_reader("a", 4)]);
    assert!(matches!(find_again(&mut w, "a"), ReconnectPhase::Reconnected));
    assert_eq!(w.next, 3);
    match find_again(&mut w, "c") {
        ReconnectPhase::Failed(error) => {
            assert_eq!(error, SmartcardError::CardNotFound(text("c")))
        }
        _ => panic!("found a card that is not there"),
    }
    w.enumerated = Err(text("down"));
    match find_again(&mut w, "a") {
        ReconnectPhase::Failed(error) => assert_eq!(error, SmartcardError::CardError(text("down"))),
        _ => panic!("found a card without readers"),
    }
}

fn handle() -> CardHandle {
    CardHandle { cached_public_key: PublicKey([5; 32]), ident: text("a"), pin: text("1234") }
}

/// Drives an operation: card questions outside a reconnection are answered from
/// `attempts`, each of which gives the replies to transaction, PIN and secret.
fn compute(w: &mut World, mut attempts: Vec<Vec<CardReply>>) -> (Result<[u8; 32], SmartcardError>, Vec<String>) {
    let mut operation = handle().decipher(&[9; 32]);
    let mut asked = Vec::new();
    while let Some(query) = operation.query() {
        asked.push(format!("{:?}", query));
        let searching = matches!(operation.phase, DecipherPhase::Reconnecting(_));
        let reply = if searching {
            w.answer(&query)
        } else {
            if attempts[0].is_empty() {
                attempts.remove(0);
            }
            attempts[0].remove(0)
        };
        assert!(query.accepts(&reply));
        operation = operation.step(reply);
    }
    (operation.finish(), asked)
}

#[test]
fn first_attempt_suffices() {
    let mut w = world(vec![]);
    let (result, asked) = compute(
        &mut w,
        vec![vec![CardReply::Done, CardReply::Done, CardReply::Secret(vec![7; 32])]],
    );
    assert_eq!(result, Ok([7; 32]));
    let peer = format!("Decipher({:?})", [9u8; 32]);
    assert_eq!(asked, vec![text("Transaction"), text("VerifyPin(\"1234\")"), peer]);
}

#[test]
fn stale_connection_is_renewed_once() {
    let mut w = world(vec![good_reader("b", 1), good_reader("a", 5)]);
    let (result, asked) = compute(
        &mut w,
        vec![
            vec![CardReply::Failed(text("stale"))],
            vec![CardReply::Done, CardReply::Done, CardReply::Secret(vec![8; 32])],
        ],
    );
    assert_eq!(result, Ok([8; 32]));
    assert_eq!(asked.iter().filter(|query| query.starts_with("Decipher")).count(), 1);
    assert_eq!(asked.iter().filter(|query| *query == "Enumerate").count(), 1);
}

#[test]
fn second_failure_is_final() {
    let cases = vec![
        (vec![CardReply::Failed(text("t"))], SmartcardError::CardError(text("t"))),
        (vec![CardReply::Done, CardReply::Failed(text("p"))], SmartcardError::PinFailed(text("p"))),
        (
            vec![CardReply::Done, CardReply::Done, CardReply::Failed(text("d"))],
            SmartcardError::DhFailed(text("d")),
        ),
        (
            vec![CardReply::Done, CardReply::Done, CardReply::Secret(vec![0; 32])],
            SmartcardError::ZeroSharedSecret,
        ),
    ];
    for (second, expected) in cases {
        let first = vec![CardReply::Done, CardReply::Done, CardReply::Secret(vec![])];
        let mut w = world(vec![good_reader("a", 5)]);
        let (result, _) = compute(&mut w, vec![first, second]);
        assert_eq!(result, Err(expected));
    }
}

#[test]
fn card_that_is_gone_ends_the_operation() {
    let mut w = world(vec![good_reader("b", 1)]);
    let (result, _) = compute(&mut w, vec![vec![CardReply::Done, CardReply::Failed(text("p"))]]);
    assert_eq!(result, Err(SmartcardError::CardNotFound(text("a"))));
}

#[test]
fn questions_and_answers_fit() {
    let secret = CardReply::Secret(vec![1; 31]);
    assert!(!CardQuery::Decipher([0; 32]).accepts(&secret));
    assert!(CardQuery::Decipher([0; 32]).accepts(&CardReply::Secret(vec![0; 31])));
    assert!(CardQuery::Decipher([0; 32]).accepts(&CardReply::Secret(vec![1; 32])));
    assert!(!CardQuery::Ident.accepts(&CardReply::Done));
    assert!(!CardQuery::Connect.accepts(&CardReply::NoMoreReaders));
    assert!(CardQuery::PublicKey.accepts(&CardReply::Failed(text("e"))));
}

#[test]
fn key_material_of_32_bytes_is_a_key() {
    let bytes: Vec<u8> = (0..32).collect();
    let mut key = [0u8; 32];
    key.copy_from_slice(&bytes);
    assert_eq!(decryption_key(&x25519(bytes)), Some(key));
    assert_eq!(decryption_key(&x25519(vec![1; 31])), None);
    assert_eq!(decryption_key(&KeyMaterial::Other), None);
    assert_eq!(decryption_key(&on_curve(&CV25519)), Some([9; 32]));
    assert_eq!(decryption_key(&on_curve(&ED25519)), None);
    assert_eq!(decryption_key(&on_curve(&CV25519[..9])), None);
    assert_eq!(decryption_key(&on_curve(&[])), None);
    let mut other = CV25519;
    other[9] = 2;
    assert_eq!(decryption_key(&on_curve(&other)), None);
    let mut longer = CV25519.to_vec();
    longer.push(0);
    assert_eq!(decryption_key(&on_curve(&longer)), None);
}

#[test]
fn operation_starts_with_the_handle() {
    let operation: CardDecipher = handle().decipher(&[9; 32]);
    assert_eq!(operation.ident, "a");
    assert_eq!(operation.pin, "1234");
    assert_eq!(operation.peer, [9; 32]);
}
