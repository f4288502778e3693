//! Listing the connected cards that have an X25519 decryption key.
use vstd::prelude::*;

use crate::card::{decryption_key, law_every_key_on_the_curve_counts, x25519_key};
use crate::card::{CardInfo, CardQuery, CardReply, KeyMaterial};
use crate::card::{ReaderModel, ReadersModel};
use crate::error::SmartcardError;

verus! {

/// How far a listing has come.
pub enum ListPhase {
    /// The readers are to be listed.
    Enumerate,
    /// The next reader is to be opened.
    NextReader,
    /// The card in the reader is to be connected.
    Connect,
    /// A transaction is to be started.
    Transaction,
    /// The application identifier is to be read.
    Ident,
    /// The key of the card with this identifier is to be read.
    PublicKey(String),
    /// All readers were visited.
    Complete,
    /// The readers could not be listed.
    Failed(SmartcardError),
}

/// A listing in progress, with the cards found so far.
pub struct CardListing {
    /// The cards found so far, in the order of their readers.
    pub found: Vec<CardInfo>,
    /// How far the listing has come.
    pub phase: ListPhase,
}

/// Starts a listing of the connected cards. No PIN is ever asked for.
pub fn list_cards() -> (listing: CardListing)
    ensures
        listing.found@ == Seq::<CardInfo>::empty(),
        listing.phase is Enumerate,
{
    CardListing { found: Vec::new(), phase: ListPhase::Enumerate }
}

impl ListPhase {
    /// The question to put next; none once the listing is over.
    pub open spec fn next_query(self) -> Option<CardQuery> {
        match self {
            ListPhase::Enumerate => Some(CardQuery::Enumerate),
            ListPhase::NextReader => Some(CardQuery::NextReader),
            ListPhase::Connect => Some(CardQuery::Connect),
            ListPhase::Transaction => Some(CardQuery::Transaction),
            ListPhase::Ident => Some(CardQuery::Ident),
            ListPhase::PublicKey(_) => Some(CardQuery::PublicKey),
            ListPhase::Complete => None,
            ListPhase::Failed(_) => None,
        }
    }

    /// The phase after a reply. Once the readers are listed, a failure only
    /// passes over the reader.
    pub open spec fn next(self, reply: CardReply) -> ListPhase {
        match reply {
            CardReply::Failed(reason) => if self is Enumerate {
                ListPhase::Failed(SmartcardError::CardError(reason))
            } else {
                ListPhase::NextReader
            },
            CardReply::NoMoreReaders => ListPhase::Complete,
            CardReply::Ident(card) => ListPhase::PublicKey(card),
            CardReply::Key(_) => ListPhase::NextReader,
            _ => match self {
                ListPhase::Enumerate => ListPhase::NextReader,
                ListPhase::NextReader => ListPhase::Connect,
                ListPhase::Connect => ListPhase::Transaction,
                ListPhase::Transaction => ListPhase::Ident,
                other => other,
            },
        }
    }

    /// The cards that a reply adds to the list: the one whose X25519
    /// key it is.
    pub open spec fn adds(self, reply: CardReply) -> Seq<CardInfo> {
        match (self, reply) {
            (ListPhase::PublicKey(card), CardReply::Key(material)) => match x25519_key(material) {
                Some(key) => seq![(CardInfo { ident: card, public_key: key })],
                None => Seq::empty(),
            },
            _ => Seq::empty(),
        }
    }
}

impl CardListing {
    /// The question to put next; none once the listing is over.
    pub fn query(&self) -> (query: Option<CardQuery>)
        ensures
            query == self.phase.next_query(),
    {
        match &self.phase {
            ListPhase::Enumerate => Some(CardQuery::Enumerate),
            ListPhase::NextReader => Some(CardQuery::NextReader),
            ListPhase::Connect => Some(CardQuery::Connect),
            ListPhase::Transaction => Some(CardQuery::Transaction),
            ListPhase::Ident => Some(CardQuery::Ident),
            ListPhase::PublicKey(_) => Some(CardQuery::PublicKey),
            ListPhase::Complete => None,
            ListPhase::Failed(_) => None,
        }
    }

    /// Takes the reply to the current question into account.
    pub fn step(self, reply: CardReply) -> (after: CardListing)
        requires
            self.phase.next_query() is Some,
            self.phase.next_query()->0.answered_by(reply),
        ensures
            after.phase == self.phase.next(reply),
            after.found@ == self.found@ + self.phase.adds(reply),
    {
        let CardListing { mut found, phase } = self;
        let ghost before = found@;
        let phase = match reply {
            CardReply::Failed(reason) => match phase {
                ListPhase::Enumerate => ListPhase::Failed(SmartcardError::CardError(reason)),
                _ => ListPhase::NextReader,
            },
            CardReply::NoMoreReaders => ListPhase::Complete,
            CardReply::Ident(card) => ListPhase::PublicKey(card),
            CardReply::Key(material) => match phase {
                ListPhase::PublicKey(card) => {
                    if let Some(key) = decryption_key(&material) {
                        found.push(CardInfo { ident: card, public_key: key });
                    }
                    ListPhase::NextReader
                },
                _ => ListPhase::NextReader,
            },
            _ => match phase {
                ListPhase::Enumerate => ListPhase::NextReader,
                ListPhase::NextReader => ListPhase::Connect,
                ListPhase::Connect => ListPhase::Transaction,
                ListPhase::Transaction => ListPhase::Ident,
                other => other,
            },
        };
        assert(found@ =~= before + self.phase.adds(reply));
        CardListing { found, phase }
    }

    /// The outcome of a listing that is over.
    pub fn finish(self) -> (result: Result<Vec<CardInfo>, SmartcardError>)
        requires
            self.phase.next_query() is None,
        ensures
            result == (match self.phase {
                ListPhase::Failed(error) => Err::<Vec<CardInfo>, SmartcardError>(error),
                _ => Ok(self.found),
            }),
    {
        match self.phase {
            ListPhase::Failed(error) => Err(error),
            _ => Ok(self.found),
        }
    }
}

/// The entry of a reader in the list: its card, if it can be read throughout
/// and has an X25519 decryption key.
pub open spec fn listed(reader: ReaderModel) -> Option<CardInfo> {
    if reader.opened is Ok && reader.connected is Ok && reader.transaction is Ok
        && reader.ident is Ok && reader.key is Ok {
        match x25519_key(reader.key->Ok_0) {
            Some(key) => Some(CardInfo { ident: reader.ident->Ok_0, public_key: key }),
            None => None,
        }
    } else {
        None
    }
}

/// The list of the cards in a sequence of readers, in the order of the readers.
pub open spec fn cards_in(readers: Seq<ReaderModel>) -> Seq<CardInfo> {
    readers.map_values(|reader: ReaderModel| listed(reader)).filter(
        |entry: Option<CardInfo>| entry is Some,
    ).map_values(|entry: Option<CardInfo>| entry->0)
}

/// How many questions may follow before the next reader is opened.
pub open spec fn rank(phase: ListPhase) -> nat {
    match phase {
        ListPhase::Enumerate => 6,
        ListPhase::Connect => 5,
        ListPhase::Transaction => 4,
        ListPhase::Ident => 3,
        ListPhase::PublicKey(_) => 2,
        ListPhase::NextReader => 1,
        ListPhase::Complete => 0,
        ListPhase::Failed(_) => 0,
    }
}

/// A listing driven to its end from the cards `found` and the phase `phase`:
/// each question is answered by the readers, of which the first `next` were
/// handed out before.
pub open spec fn list_run(
    found: Seq<CardInfo>,
    phase: ListPhase,
    world: ReadersModel,
    next: nat,
) -> (Seq<CardInfo>, ListPhase)
    decreases world.readers.len() - next, rank(phase),
    when next <= world.readers.len()
{
    match phase.next_query() {
        None => (found, phase),
        Some(query) => {
            let reply = world.reply(next, query);
            list_run(
                found + phase.adds(reply),
                phase.next(reply),
                world,
                world.advance(next, query),
            )
        },
    }
}

/// One more reader adds its card to the end of the list, or nothing.
pub proof fn law_cards_of_one_more_reader(readers: Seq<ReaderModel>, next: int)
    requires
        0 <= next < readers.len(),
    ensures
        cards_in(readers.take(next + 1)) == cards_in(readers.take(next)) + (match listed(
            readers[next],
        ) {
            Some(card) => seq![card],
            None => Seq::empty(),
        }),
{
    let entry = |reader: ReaderModel| listed(reader);
    let some = |entry: Option<CardInfo>| entry is Some;
    let before = readers.take(next).map_values(entry);
    let after = readers.take(next + 1).map_values(entry);
    assert(after.drop_last() =~= before);
    reveal_with_fuel(Seq::filter, 2);
    assert(cards_in(readers.take(next + 1)) =~= cards_in(readers.take(next)) + (match listed(
        readers[next],
    ) {
        Some(card) => seq![card],
        None => Seq::empty(),
    }));
}

proof fn lemma_list_readers(found: Seq<CardInfo>, world: ReadersModel, next: nat)
    requires
        next <= world.readers.len(),
        found == cards_in(world.readers.take(next as int)),
    ensures
        list_run(found, ListPhase::NextReader, world, next) == (
            cards_in(world.readers),
            ListPhase::Complete,
        ),
    decreases world.readers.len() - next,
{
    reveal_with_fuel(list_run, 7);
    if next < world.readers.len() {
        law_cards_of_one_more_reader(world.readers, next as int);
        let after = cards_in(world.readers.take(next as int + 1));
        lemma_list_readers(after, world, next + 1);
        let reader = world.readers[next as int];
        assert(found + Seq::<CardInfo>::empty() =~= found);
        if listed(reader) is None {
            assert(after =~= found);
        }
    } else {
        assert(world.readers.take(next as int) =~= world.readers);
        assert(found + Seq::<CardInfo>::empty() =~= found);
    }
}

/// Driven against any set of readers, a listing ends with the cards of exactly
/// those readers that can be read throughout and have an X25519 decryption
/// key, in the order of the readers; it fails only if the readers cannot be
/// listed.
pub proof fn law_list_outcome(world: ReadersModel)
    ensures
        list_run(Seq::empty(), ListPhase::Enumerate, world, 0) == (match world.enumerated {
            Ok(_) => (cards_in(world.readers), ListPhase::Complete),
            Err(reason) => (Seq::empty(), ListPhase::Failed(SmartcardError::CardError(reason))),
        }),
{
    reveal_with_fuel(list_run, 3);
    let none = Seq::<CardInfo>::empty();
    assert(none + Seq::<CardInfo>::empty() =~= none);
    if world.enumerated is Ok {
        assert(world.readers.take(0) =~= Seq::empty());
        assert(cards_in(world.readers.take(0)) =~= none) by {
            reveal_with_fuel(Seq::filter, 1);
        }
        lemma_list_readers(none, world, 0);
    }
}

/// A listing never presents a PIN, nor asks for a Diffie-Hellman operation.
pub proof fn law_listing_asks_for_no_pin(phase: ListPhase)
    ensures
        phase.next_query() matches Some(query) ==> !(query is VerifyPin) && !(query is Decipher),
{
}

/// A listing asks for one thing at a time, and for nothing once it is over.
pub proof fn law_listing_questions(phase: ListPhase)
    ensures
        phase.next_query() is None <==> phase is Complete || phase is Failed,
        phase.next_query() == Some(CardQuery::Enumerate) <==> phase is Enumerate,
        phase.next_query() == Some(CardQuery::NextReader) <==> phase is NextReader,
        phase.next_query() == Some(CardQuery::Connect) <==> phase is Connect,
        phase.next_query() == Some(CardQuery::Transaction) <==> phase is Transaction,
        phase.next_query() == Some(CardQuery::Ident) <==> phase is Ident,
        phase.next_query() == Some(CardQuery::PublicKey) <==> phase is PublicKey,
{
}

/// A listing ends only where the readers end, or fail to be listed: any other
/// failure passes on to the next reader, and so does every key that was read.
pub proof fn law_listing_visits_every_reader(
    phase: ListPhase,
    reason: String,
    card: String,
    material: KeyMaterial,
)
    requires
        phase.next_query() is Some,
    ensures
        phase is Enumerate ==> phase.next(CardReply::Failed(reason)) == ListPhase::Failed(
            SmartcardError::CardError(reason),
        ),
        !(phase is Enumerate) ==> phase.next(CardReply::Failed(reason)) is NextReader,
        phase.next(CardReply::NoMoreReaders) is Complete,
        phase.next(CardReply::Key(material)) is NextReader,
        phase.next(CardReply::Ident(card)) == ListPhase::PublicKey(card),
        phase is Enumerate ==> phase.next(CardReply::Done) is NextReader,
        phase is NextReader ==> phase.next(CardReply::Done) is Connect,
        phase is Connect ==> phase.next(CardReply::Done) is Transaction,
        phase is Transaction ==> phase.next(CardReply::Done) is Ident,
{
}

/// Exactly an X25519 key adds to the list, whatever its bytes are, and it adds
/// one entry: the identifier that was read before, and exactly these bytes.
pub proof fn law_x25519_keys_are_listed(phase: ListPhase, card: String, reply: CardReply)
    requires
        phase.next_query() is Some,
        phase.next_query()->0.answered_by(reply),
        phase is PublicKey ==> phase->PublicKey_0 == card,
    ensures
        ({
            let added = phase.adds(reply);
            let usable = reply matches CardReply::Key(KeyMaterial::Ecc { oid, data }) && oid@
                == seq![0x2bu8, 0x06, 0x01, 0x04, 0x01, 0x97, 0x55, 0x01, 0x05, 0x01]
                && data@.len() == 32;
            &&& usable ==> added.len() == 1 && added[0].ident == card && added[0].public_key@
                == reply->Key_0->data@
            &&& !usable ==> added.len() == 0
        }),
{
    if let CardReply::Key(KeyMaterial::Ecc { oid, data }) = reply {
        law_every_key_on_the_curve_counts(oid, data);
    }
}

/// A reader has its entry in the list exactly if its card can be read
/// throughout and has an X25519 key, whatever its identifier and key are.
pub proof fn law_readable_card_is_listed(reader: ReaderModel)
    ensures
        listed(reader) is Some <==> {
            &&& reader.opened is Ok
            &&& reader.connected is Ok
            &&& reader.transaction is Ok
            &&& reader.ident is Ok
            &&& reader.key matches Ok(KeyMaterial::Ecc { oid, data })
            &&& oid@ == seq![0x2bu8, 0x06, 0x01, 0x04, 0x01, 0x97, 0x55, 0x01, 0x05, 0x01]
            &&& data@.len() == 32
        },
        listed(reader) matches Some(card) ==> card.ident == reader.ident->Ok_0
            && card.public_key@ == reader.key->Ok_0->data@,
{
    if let Ok(KeyMaterial::Ecc { oid, data }) = reader.key {
        law_every_key_on_the_curve_counts(oid, data);
    }
}

} // verus!
