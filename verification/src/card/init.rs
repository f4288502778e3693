//! Opening the card that holds the static private key.
use vstd::prelude::*;

use crate::card::{decryption_key, law_every_key_on_the_curve_counts, x25519_key};
use crate::card::{CardHandle, CardQuery, CardReply, KeyMaterial};
use crate::card::{ReaderModel, ReadersModel};
use crate::error::SmartcardError;
use crate::keys::{Key, PublicKey};
use crate::text::same_text;

verus! {

/// Whether an identifier asks for whichever card has a usable key.
pub open spec fn is_auto(ident: String) -> bool {
    ident@ == "auto"@
}

/// Whether a card with identifier `card` is a candidate for `ident`.
pub open spec fn selects(ident: String, card: String) -> bool {
    is_auto(ident) || card@ == ident@
}

/// How far the opening of a card has come.
pub enum InitPhase {
    /// The readers are to be listed.
    Enumerate,
    /// The next reader is to be opened.
    NextReader,
    /// The card in the reader is to be connected.
    Connect,
    /// A transaction is to be started.
    Transaction,
    /// The application identifier is to be read.
    Ident,
    /// The card with this identifier is a candidate; its key is to be read.
    PublicKey(String),
    /// The card with this identifier and key is chosen; the PIN is to be verified.
    VerifyPin(String, Key),
    /// The card with this identifier and key is open.
    Opened(String, Key),
    /// No card could be opened.
    Failed(SmartcardError),
}

/// The search for the card with identifier `ident`, or for the first card with
/// an X25519 decryption key if `ident` is `"auto"`.
pub struct CardInit {
    /// The identifier asked for.
    pub ident: String,
    /// The PIN to present to the chosen card.
    pub pin: String,
    /// How far the search has come.
    pub phase: InitPhase,
}

/// Starts the search for a card.
pub fn init_smartcard(ident: &str, pin: &str) -> (search: CardInit)
    ensures
        search.ident@ == ident@,
        search.pin@ == pin@,
        search.phase is Enumerate,
        search.well_formed(),
{
    CardInit { ident: ident.to_owned(), pin: pin.to_owned(), phase: InitPhase::Enumerate }
}

impl CardInit {
    /// Only a card that the identifier selects is asked for its key, is shown
    /// the PIN, and is opened.
    pub open spec fn well_formed(self) -> bool {
        match self.phase {
            InitPhase::PublicKey(card) => selects(self.ident, card),
            InitPhase::VerifyPin(card, _) => selects(self.ident, card),
            InitPhase::Opened(card, _) => selects(self.ident, card),
            _ => true,
        }
    }

    /// The question to put next; none once the search is over.
    pub open spec fn next_query(self) -> Option<CardQuery> {
        match self.phase {
            InitPhase::Enumerate => Some(CardQuery::Enumerate),
            InitPhase::NextReader => Some(CardQuery::NextReader),
            InitPhase::Connect => Some(CardQuery::Connect),
            InitPhase::Transaction => Some(CardQuery::Transaction),
            InitPhase::Ident => Some(CardQuery::Ident),
            InitPhase::PublicKey(_) => Some(CardQuery::PublicKey),
            InitPhase::VerifyPin(_, _) => Some(CardQuery::VerifyPin(self.pin)),
            InitPhase::Opened(_, _) => None,
            InitPhase::Failed(_) => None,
        }
    }

    /// The phase after a reply. Any failure ends the search; a card that is
    /// not selected, or that `"auto"` finds without a key, is passed over.
    pub open spec fn next_phase(self, reply: CardReply) -> InitPhase {
        match reply {
            CardReply::Failed(reason) => if self.phase is VerifyPin {
                InitPhase::Failed(SmartcardError::PinFailed(reason))
            } else {
                InitPhase::Failed(SmartcardError::CardError(reason))
            },
            CardReply::NoMoreReaders => InitPhase::Failed(
                SmartcardError::CardNotFound(self.ident),
            ),
            CardReply::Ident(card) => if selects(self.ident, card) {
                InitPhase::PublicKey(card)
            } else {
                InitPhase::NextReader
            },
            CardReply::Key(material) => match x25519_key(material) {
                Some(key) => InitPhase::VerifyPin(self.phase->PublicKey_0, key),
                None => if is_auto(self.ident) {
                    InitPhase::NextReader
                } else {
                    InitPhase::Failed(SmartcardError::NoDecryptionKey)
                },
            },
            _ => match self.phase {
                InitPhase::Enumerate => InitPhase::NextReader,
                InitPhase::NextReader => InitPhase::Connect,
                InitPhase::Connect => InitPhase::Transaction,
                InitPhase::Transaction => InitPhase::Ident,
                InitPhase::VerifyPin(card, key) => InitPhase::Opened(card, key),
                other => other,
            },
        }
    }

    /// The search after a reply.
    pub open spec fn next(self, reply: CardReply) -> CardInit {
        CardInit { ident: self.ident, pin: self.pin, phase: self.next_phase(reply) }
    }

    /// The question to put next; none once the search is over.
    pub fn query(&self) -> (query: Option<CardQuery>)
        ensures
            query == self.next_query(),
    {
        match &self.phase {
            InitPhase::Enumerate => Some(CardQuery::Enumerate),
            InitPhase::NextReader => Some(CardQuery::NextReader),
            InitPhase::Connect => Some(CardQuery::Connect),
            InitPhase::Transaction => Some(CardQuery::Transaction),
            InitPhase::Ident => Some(CardQuery::Ident),
            InitPhase::PublicKey(_) => Some(CardQuery::PublicKey),
            InitPhase::VerifyPin(_, _) => Some(CardQuery::VerifyPin(self.pin.clone())),
            InitPhase::Opened(_, _) => None,
            InitPhase::Failed(_) => None,
        }
    }

    /// Takes the reply to the current question into account.
    pub fn step(self, reply: CardReply) -> (after: CardInit)
        requires
            self.next_query() is Some,
            self.next_query()->0.answered_by(reply),
        ensures
            after == self.next(reply),
            self.well_formed() ==> after.well_formed(),
    {
        let CardInit { ident, pin, phase } = self;
        let auto = same_text(ident.as_str(), "auto");
        let phase = match reply {
            CardReply::Failed(reason) => match phase {
                InitPhase::VerifyPin(_, _) => InitPhase::Failed(SmartcardError::PinFailed(reason)),
                _ => InitPhase::Failed(SmartcardError::CardError(reason)),
            },
            CardReply::NoMoreReaders => InitPhase::Failed(
                SmartcardError::CardNotFound(ident.clone()),
            ),
            CardReply::Ident(card) => if auto || card == ident {
                InitPhase::PublicKey(card)
            } else {
                InitPhase::NextReader
            },
            CardReply::Key(material) => match phase {
                InitPhase::PublicKey(card) => match decryption_key(&material) {
                    Some(key) => InitPhase::VerifyPin(card, key),
                    None => if auto {
                        InitPhase::NextReader
                    } else {
                        InitPhase::Failed(SmartcardError::NoDecryptionKey)
                    },
                },
                other => other,
            },
            _ => match phase {
                InitPhase::Enumerate => InitPhase::NextReader,
                InitPhase::NextReader => InitPhase::Connect,
                InitPhase::Connect => InitPhase::Transaction,
                InitPhase::Transaction => InitPhase::Ident,
                InitPhase::VerifyPin(card, key) => InitPhase::Opened(card, key),
                other => other,
            },
        };
        CardInit { ident, pin, phase }
    }

    /// The handle to the card that a search has opened.
    pub open spec fn handle(self, card: String, key: Key) -> CardHandle {
        CardHandle { cached_public_key: PublicKey(key), ident: card, pin: self.pin }
    }

    /// The outcome of a search that is over: a handle to the open card, or the
    /// reason why there is none.
    pub fn finish(self) -> (result: Result<CardHandle, SmartcardError>)
        requires
            self.next_query() is None,
        ensures
            match self.phase {
                InitPhase::Opened(card, key) => result == Ok::<CardHandle, SmartcardError>(
                    self.handle(card, key),
                ),
                InitPhase::Failed(error) => result == Err::<CardHandle, SmartcardError>(error),
                _ => true,
            },
            self.phase matches InitPhase::Opened(card, key) ==> (result matches Ok(handle)
                && handle.cached_public_key.0 == key && handle.ident == card && handle.pin
                == self.pin),
    {
        match self.phase {
            InitPhase::Opened(card, key) => Ok(
                CardHandle { cached_public_key: PublicKey(key), ident: card, pin: self.pin },
            ),
            InitPhase::Failed(error) => Err(error),
            _ => vstd::pervasive::unreached(),
        }
    }

    /// Ends a search that is over: the open card takes the place of whatever
    /// card was in use, and its public key is returned. If no card was opened,
    /// the one in use stays.
    pub fn install(self, in_use: &mut Option<CardHandle>) -> (result: Result<
        PublicKey,
        SmartcardError,
    >)
        requires
            self.next_query() is None,
        ensures
            match self.phase {
                InitPhase::Opened(card, key) => {
                    &&& result == Ok::<PublicKey, SmartcardError>(PublicKey(key))
                    &&& *final(in_use) == Some(self.handle(card, key))
                },
                InitPhase::Failed(error) => {
                    &&& result == Err::<PublicKey, SmartcardError>(error)
                    &&& *final(in_use) == *old(in_use)
                },
                _ => true,
            },
            self.phase matches InitPhase::Opened(card, key) ==> (*final(in_use) matches Some(handle)
                && handle.cached_public_key.0 == key && handle.ident == card && handle.pin
                == self.pin),
    {
        match self.finish() {
            Ok(handle) => {
                let key = handle.cached_public_key;
                *in_use = Some(handle);
                Ok(key)
            },
            Err(error) => Err(error),
        }
    }
}

/// What one reader contributes to a search: nothing if its card is passed
/// over, else the end of the search.
pub open spec fn init_verdict(ident: String, reader: ReaderModel) -> Option<
    Result<(String, Key), SmartcardError>,
> {
    if reader.opened is Err {
        Some(Err(SmartcardError::CardError(reader.opened->Err_0)))
    } else if reader.connected is Err {
        Some(Err(SmartcardError::CardError(reader.connected->Err_0)))
    } else if reader.transaction is Err {
        Some(Err(SmartcardError::CardError(reader.transaction->Err_0)))
    } else if reader.ident is Err {
        Some(Err(SmartcardError::CardError(reader.ident->Err_0)))
    } else if !selects(ident, reader.ident->Ok_0) {
        None
    } else if reader.key is Err {
        Some(Err(SmartcardError::CardError(reader.key->Err_0)))
    } else {
        match x25519_key(reader.key->Ok_0) {
            None => if is_auto(ident) {
                None
            } else {
                Some(Err(SmartcardError::NoDecryptionKey))
            },
            Some(key) => match reader.pin {
                Err(reason) => Some(Err(SmartcardError::PinFailed(reason))),
                Ok(_) => Some(Ok((reader.ident->Ok_0, key))),
            },
        }
    }
}

/// The end of a search through the readers from `from` on: the verdict of the
/// first reader that is not passed over.
pub open spec fn init_outcome(ident: String, readers: Seq<ReaderModel>, from: nat) -> Result<
    (String, Key),
    SmartcardError,
>
    decreases readers.len() - from,
{
    if from >= readers.len() {
        Err(SmartcardError::CardNotFound(ident))
    } else {
        match init_verdict(ident, readers[from as int]) {
            Some(result) => result,
            None => init_outcome(ident, readers, from + 1),
        }
    }
}

/// The phase in which a search ends.
pub open spec fn init_end(result: Result<(String, Key), SmartcardError>) -> InitPhase {
    match result {
        Ok((card, key)) => InitPhase::Opened(card, key),
        Err(error) => InitPhase::Failed(error),
    }
}

/// How many questions may follow before the next reader is opened.
pub open spec fn rank(phase: InitPhase) -> nat {
    match phase {
        InitPhase::Enumerate => 7,
        InitPhase::Connect => 6,
        InitPhase::Transaction => 5,
        InitPhase::Ident => 4,
        InitPhase::PublicKey(_) => 3,
        InitPhase::VerifyPin(_, _) => 2,
        InitPhase::NextReader => 1,
        InitPhase::Opened(_, _) => 0,
        InitPhase::Failed(_) => 0,
    }
}

/// The search driven to its end: each question is answered by the readers, of
/// which the first `next` were handed out before.
pub open spec fn init_run(search: CardInit, world: ReadersModel, next: nat) -> CardInit
    decreases world.readers.len() - next, rank(search.phase),
    when next <= world.readers.len()
{
    match search.next_query() {
        None => search,
        Some(query) => init_run(
            search.next(world.reply(next, query)),
            world,
            world.advance(next, query),
        ),
    }
}

proof fn lemma_init_readers(search: CardInit, world: ReadersModel, next: nat)
    requires
        search.phase is NextReader,
        next <= world.readers.len(),
    ensures
        init_run(search, world, next) == (CardInit {
            ident: search.ident,
            pin: search.pin,
            phase: init_end(init_outcome(search.ident, world.readers, next)),
        }),
    decreases world.readers.len() - next,
{
    reveal_with_fuel(init_run, 8);
    if next < world.readers.len() {
        if init_verdict(search.ident, world.readers[next as int]) is None {
            lemma_init_readers(search, world, next + 1);
        }
    }
}

/// Driven against any set of readers, the search ends with the verdict of the
/// first reader whose card is not passed over, with `CardNotFound` if there is
/// no such reader, and with `CardError` if the readers cannot be listed. From
/// beginning to end it is about the same identifier and PIN.
pub proof fn law_init_outcome(search: CardInit, world: ReadersModel)
    requires
        search.phase is Enumerate,
    ensures
        init_run(search, world, 0) == (CardInit {
            ident: search.ident,
            pin: search.pin,
            phase: match world.enumerated {
                Ok(_) => init_end(init_outcome(search.ident, world.readers, 0)),
                Err(reason) => InitPhase::Failed(SmartcardError::CardError(reason)),
            },
        }),
{
    reveal_with_fuel(init_run, 3);
    if world.enumerated is Ok {
        lemma_init_readers(search.next(CardReply::Done), world, 0);
    }
}

/// Whether the card in a reader can be read and is the one `ident` asks for,
/// carries `key` as its X25519 decryption key, and accepts the PIN.
pub open spec fn opens(ident: String, reader: ReaderModel, card: String, key: Key) -> bool {
    &&& reader.opened is Ok
    &&& reader.connected is Ok
    &&& reader.transaction is Ok
    &&& reader.ident == Ok::<String, String>(card)
    &&& selects(ident, card)
    &&& reader.key matches Ok(material)
    &&& x25519_key(material) == Some(key)
    &&& reader.pin is Ok
}

/// Whether a search goes on after a reader: the card could be read, but it
/// either has another identifier, or was found by `"auto"` without an X25519
/// decryption key.
pub open spec fn passed_over(ident: String, reader: ReaderModel) -> bool {
    &&& reader.opened is Ok
    &&& reader.connected is Ok
    &&& reader.transaction is Ok
    &&& reader.ident matches Ok(card)
    &&& {
        ||| !is_auto(ident) && card@ != ident@
        ||| is_auto(ident) && (reader.key matches Ok(material) && x25519_key(material) is None)
    }
}

/// A search opens a card exactly when some reader holds it and all readers
/// before that one are passed over: the first usable card wins.
pub proof fn law_first_usable_card_wins(
    ident: String,
    readers: Seq<ReaderModel>,
    card: String,
    key: Key,
)
    ensures
        init_outcome(ident, readers, 0) == Ok::<(String, Key), SmartcardError>((card, key)) <==> (
        exists|i: int|
            #![trigger readers[i]]
            0 <= i < readers.len() && opens(ident, readers[i], card, key) && forall|j: int|
                0 <= j < i ==> passed_over(ident, #[trigger] readers[j])),
{
    lemma_first_usable(ident, readers, 0, card, key);
}

proof fn lemma_first_usable(
    ident: String,
    readers: Seq<ReaderModel>,
    from: nat,
    card: String,
    key: Key,
)
    requires
        from <= readers.len(),
    ensures
        init_outcome(ident, readers, from) == Ok::<(String, Key), SmartcardError>((card, key))
            <==> (exists|i: int|
            #![trigger readers[i]]
            from <= i < readers.len() && opens(ident, readers[i], card, key) && forall|j: int|
                from <= j < i ==> passed_over(ident, #[trigger] readers[j])),
    decreases readers.len() - from,
{
    if from < readers.len() {
        let first = readers[from as int];
        assert(init_verdict(ident, first) is None <==> passed_over(ident, first));
        assert(init_verdict(ident, first) == Some(
            Ok::<(String, Key), SmartcardError>((card, key)),
        ) <==> opens(ident, first, card, key));
        if init_verdict(ident, first) is None {
            lemma_first_usable(ident, readers, from + 1, card, key);
            if exists|i: int|
                #![trigger readers[i]]
                from + 1 <= i < readers.len() && opens(ident, readers[i], card, key) && forall|
                    j: int,
                |
                    from + 1 <= j < i ==> passed_over(ident, #[trigger] readers[j]) {
                let i = choose|i: int|
                    #![trigger readers[i]]
                    from + 1 <= i < readers.len() && opens(ident, readers[i], card, key) && forall|
                        j: int,
                    |
                        from + 1 <= j < i ==> passed_over(ident, #[trigger] readers[j]);
                assert(forall|j: int|
                    from <= j < i ==> passed_over(ident, #[trigger] readers[j]));
            }
        }
    }
}

/// A search ends with `CardNotFound` exactly when every
/// reader is passed over, and the error carries the identifier asked for.
pub proof fn law_card_not_found(ident: String, readers: Seq<ReaderModel>, name: String)
    ensures
        init_outcome(ident, readers, 0) == Err::<(String, Key), SmartcardError>(
            SmartcardError::CardNotFound(name),
        ) <==> (name == ident && forall|j: int|
            0 <= j < readers.len() ==> passed_over(ident, #[trigger] readers[j])),
{
    lemma_not_found(ident, readers, 0, name);
}

proof fn lemma_not_found(ident: String, readers: Seq<ReaderModel>, from: nat, name: String)
    requires
        from <= readers.len(),
    ensures
        init_outcome(ident, readers, from) == Err::<(String, Key), SmartcardError>(
            SmartcardError::CardNotFound(name),
        ) <==> (name == ident && forall|j: int|
            from <= j < readers.len() ==> passed_over(ident, #[trigger] readers[j])),
    decreases readers.len() - from,
{
    if from < readers.len() {
        let first = readers[from as int];
        assert(init_verdict(ident, first) is None <==> passed_over(ident, first));
        if init_verdict(ident, first) is None {
            lemma_not_found(ident, readers, from + 1, name);
        }
    }
}

/// The PIN is presented at most once in a search, and only to a card that the
/// identifier selects: whatever the card says to it, the search is over.
pub proof fn law_pin_presented_once(search: CardInit, reply: CardReply)
    requires
        search.well_formed(),
        search.next_query() matches Some(query) && query is VerifyPin && query.answered_by(reply),
    ensures
        search.next_query() == Some(CardQuery::VerifyPin(search.pin)),
        search.phase matches InitPhase::VerifyPin(card, _) && selects(search.ident, card),
        search.next(reply).next_query() is None,
{
}

/// A search asks for one thing at a time, and for nothing once it is over. The
/// PIN that it presents is its own.
pub proof fn law_search_questions(search: CardInit)
    ensures
        search.next_query() is None <==> search.phase is Opened || search.phase is Failed,
        search.next_query() == Some(CardQuery::Enumerate) <==> search.phase is Enumerate,
        search.next_query() == Some(CardQuery::NextReader) <==> search.phase is NextReader,
        search.next_query() == Some(CardQuery::Connect) <==> search.phase is Connect,
        search.next_query() == Some(CardQuery::Transaction) <==> search.phase is Transaction,
        search.next_query() == Some(CardQuery::Ident) <==> search.phase is Ident,
        search.next_query() == Some(CardQuery::PublicKey) <==> search.phase is PublicKey,
        search.next_query() == Some(CardQuery::VerifyPin(search.pin)) <==> search.phase is VerifyPin,
{
}

/// A failure ends a search, as a refused PIN if it answers the PIN and as a
/// card error if it answers anything else, with the reason that was given; the
/// end of the readers ends it with the identifier that was asked for.
pub proof fn law_search_failures(search: CardInit, reason: String)
    requires
        search.next_query() is Some,
    ensures
        search.next(CardReply::Failed(reason)).phase == InitPhase::Failed(
            if search.phase is VerifyPin {
                SmartcardError::PinFailed(reason)
            } else {
                SmartcardError::CardError(reason)
            },
        ),
        search.next(CardReply::NoMoreReaders).phase == InitPhase::Failed(
            SmartcardError::CardNotFound(search.ident),
        ),
{
}

/// A success leads from each question to the next, down to the open card: the
/// one whose identifier and key were read before the PIN was accepted. What
/// was asked for, and the PIN, stay as they are.
pub proof fn law_search_goes_on(search: CardInit, reply: CardReply)
    ensures
        search.next(reply).ident == search.ident,
        search.next(reply).pin == search.pin,
        search.phase is Enumerate ==> search.next(CardReply::Done).phase is NextReader,
        search.phase is NextReader ==> search.next(CardReply::Done).phase is Connect,
        search.phase is Connect ==> search.next(CardReply::Done).phase is Transaction,
        search.phase is Transaction ==> search.next(CardReply::Done).phase is Ident,
        search.phase matches InitPhase::VerifyPin(card, key) ==> search.next(CardReply::Done).phase
            == InitPhase::Opened(card, key),
{
}

/// A card is a candidate exactly if its identifier is the one asked for, or if
/// `"auto"` is asked for; any other card is passed over.
pub proof fn law_search_by_identifier(search: CardInit, card: String)
    requires
        search.phase is Ident,
    ensures
        search.ident@ == "auto"@ || search.ident@ == card@ ==> search.next(
            CardReply::Ident(card),
        ).phase == InitPhase::PublicKey(card),
        search.ident@ != "auto"@ && search.ident@ != card@ ==> search.next(
            CardReply::Ident(card),
        ).phase is NextReader,
{
}

/// A candidate is shown the PIN exactly if it has an X25519 key, whatever the
/// bytes of the key are, and with exactly these bytes as its key. Without one
/// it is passed over if `"auto"` is asked for, and is an error if not.
pub proof fn law_search_by_key(search: CardInit, card: String, material: KeyMaterial)
    requires
        search.phase == InitPhase::PublicKey(card),
    ensures
        ({
            let after = search.next(CardReply::Key(material)).phase;
            let usable = material matches KeyMaterial::Ecc { oid, data } && oid@ == seq![
                0x2bu8,
                0x06,
                0x01,
                0x04,
                0x01,
                0x97,
                0x55,
                0x01,
                0x05,
                0x01,
            ] && data@.len() == 32;
            &&& usable ==> (after matches InitPhase::VerifyPin(chosen, key) && chosen == card
                && key@ == material->data@)
            &&& !usable && search.ident@ == "auto"@ ==> after is NextReader
            &&& !usable && search.ident@ != "auto"@ ==> after == InitPhase::Failed(
                SmartcardError::NoDecryptionKey,
            )
        }),
{
    if let KeyMaterial::Ecc { oid, data } = material {
        law_every_key_on_the_curve_counts(oid, data);
    }
}

/// A card that can be read, that is asked for by its identifier, whose slot
/// holds an X25519 key and that accepts the PIN is opened with that key, if it
/// stands in the first reader: whatever its identifier and key are, and
/// whatever stands in the readers behind it.
pub proof fn law_usable_card_is_opened(
    search: CardInit,
    world: ReadersModel,
    card: String,
    oid: Vec<u8>,
    data: Vec<u8>,
)
    requires
        search.phase is Enumerate,
        world.enumerated is Ok,
        world.readers.len() > 0,
        world.readers[0].opened is Ok,
        world.readers[0].connected is Ok,
        world.readers[0].transaction is Ok,
        world.readers[0].ident == Ok::<String, String>(card),
        world.readers[0].key == Ok::<KeyMaterial, String>(KeyMaterial::Ecc { oid, data }),
        world.readers[0].pin is Ok,
        search.ident@ == "auto"@ || search.ident@ == card@,
        oid@ == seq![0x2bu8, 0x06, 0x01, 0x04, 0x01, 0x97, 0x55, 0x01, 0x05, 0x01],
        data@.len() == 32,
    ensures
        init_run(search, world, 0).phase matches InitPhase::Opened(opened, key) && opened == card
            && key@ == data@,
{
    law_init_outcome(search, world);
    law_every_key_on_the_curve_counts(oid, data);
    reveal_with_fuel(init_outcome, 2);
}

} // verus!
