//! X25519 on the card, with one reconnection if the first attempt fails.
use vstd::prelude::*;

use crate::card::reconnect::{reconnect_outcome, reconnect_run};
use crate::card::reconnect::{law_reconnect_outcome, CardReconnect, ReconnectPhase};
use crate::card::{unit_reply, CardHandle, CardQuery, CardReply, ReadersModel};
use crate::error::SmartcardError;
use crate::keys::Key;
use crate::secret::{accept_shared_secret, accepted, law_only_zero_is_refused, usable};

verus! {

/// Which of the two possible attempts is under way.
#[derive(Clone, Copy, Debug, PartialEq, Eq)]
pub enum Attempt {
    /// The attempt on the connection at hand.
    First,
    /// The attempt after a reconnection.
    Second,
}

/// How far an operation has come.
pub enum DecipherPhase {
    /// A transaction is to be started.
    Transaction(Attempt),
    /// The PIN is to be verified, as in every transaction.
    VerifyPin(Attempt),
    /// The peer's public key is to be sent to the decryption slot.
    Decipher(Attempt),
    /// The first attempt failed; the card is being looked for.
    Reconnecting(CardReconnect),
    /// The operation is over.
    Finished(Result<Key, SmartcardError>),
}

/// A Diffie-Hellman operation on the card with identifier `ident`.
pub struct CardDecipher {
    /// The identifier of the card.
    pub ident: String,
    /// The PIN to present in each transaction.
    pub pin: String,
    /// The public key of the peer.
    pub peer: Key,
    /// How far the operation has come.
    pub phase: DecipherPhase,
}

impl CardHandle {
    /// Starts a Diffie-Hellman operation on the card with a peer's public key.
    pub fn decipher(&self, peer_public_key: &[u8; 32]) -> (operation: CardDecipher)
        ensures
            operation == (CardDecipher {
                ident: self.ident,
                pin: self.pin,
                peer: *peer_public_key,
                phase: DecipherPhase::Transaction(Attempt::First),
            }),
    {
        CardDecipher {
            ident: self.ident.clone(),
            pin: self.pin.clone(),
            peer: *peer_public_key,
            phase: DecipherPhase::Transaction(Attempt::First),
        }
    }
}

impl CardDecipher {
    /// The question to put next; none once the operation is over.
    pub open spec fn next_query(self) -> Option<CardQuery> {
        match self.phase {
            DecipherPhase::Transaction(_) => Some(CardQuery::Transaction),
            DecipherPhase::VerifyPin(_) => Some(CardQuery::VerifyPin(self.pin)),
            DecipherPhase::Decipher(_) => Some(CardQuery::Decipher(self.peer)),
            DecipherPhase::Reconnecting(search) => search.next_query(),
            DecipherPhase::Finished(_) => None,
        }
    }

    /// A search that is over is never kept.
    pub open spec fn well_formed(self) -> bool {
        self.phase matches DecipherPhase::Reconnecting(search) ==> {
            &&& search.ident == self.ident
            &&& search.next_query() is Some
        }
    }

    /// The phase after an attempt failed: the first failure leads to a
    /// reconnection, the second is final.
    pub open spec fn after_failure(self, attempt: Attempt, error: SmartcardError) -> DecipherPhase {
        match attempt {
            Attempt::First => DecipherPhase::Reconnecting(
                CardReconnect { ident: self.ident, phase: ReconnectPhase::Enumerate },
            ),
            Attempt::Second => DecipherPhase::Finished(Err(error)),
        }
    }

    /// The phase after a reply.
    pub open spec fn next_phase(self, reply: CardReply) -> DecipherPhase {
        match self.phase {
            DecipherPhase::Transaction(attempt) => match reply {
                CardReply::Failed(reason) => self.after_failure(
                    attempt,
                    SmartcardError::CardError(reason),
                ),
                _ => DecipherPhase::VerifyPin(attempt),
            },
            DecipherPhase::VerifyPin(attempt) => match reply {
                CardReply::Failed(reason) => self.after_failure(
                    attempt,
                    SmartcardError::PinFailed(reason),
                ),
                _ => DecipherPhase::Decipher(attempt),
            },
            DecipherPhase::Decipher(attempt) => match reply {
                CardReply::Failed(reason) => self.after_failure(
                    attempt,
                    SmartcardError::DhFailed(reason),
                ),
                CardReply::Secret(bytes) => match accepted(bytes@) {
                    Ok(key) => DecipherPhase::Finished(Ok(key)),
                    Err(error) => self.after_failure(attempt, error),
                },
                _ => self.phase,
            },
            DecipherPhase::Reconnecting(search) => {
                let after = search.next(reply);
                match after.phase {
                    ReconnectPhase::Reconnected => DecipherPhase::Transaction(Attempt::Second),
                    ReconnectPhase::Failed(error) => DecipherPhase::Finished(Err(error)),
                    _ => DecipherPhase::Reconnecting(after),
                }
            },
            DecipherPhase::Finished(result) => DecipherPhase::Finished(result),
        }
    }

    /// The operation after a reply.
    pub open spec fn next(self, reply: CardReply) -> CardDecipher {
        CardDecipher {
            ident: self.ident,
            pin: self.pin,
            peer: self.peer,
            phase: self.next_phase(reply),
        }
    }

    /// The question to put next; none once the operation is over.
    pub fn query(&self) -> (query: Option<CardQuery>)
        ensures
            query == self.next_query(),
    {
        match &self.phase {
            DecipherPhase::Transaction(_) => Some(CardQuery::Transaction),
            DecipherPhase::VerifyPin(_) => Some(CardQuery::VerifyPin(self.pin.clone())),
            DecipherPhase::Decipher(_) => Some(CardQuery::Decipher(self.peer)),
            DecipherPhase::Reconnecting(search) => search.query(),
            DecipherPhase::Finished(_) => None,
        }
    }

    fn fail(ident: &String, attempt: Attempt, error: SmartcardError) -> (phase: DecipherPhase)
        ensures
            forall|operation: CardDecipher|
                operation.ident == *ident ==> phase == #[trigger] operation.after_failure(
                    attempt,
                    error,
                ),
    {
        match attempt {
            Attempt::First => DecipherPhase::Reconnecting(CardReconnect::new(ident.clone())),
            Attempt::Second => DecipherPhase::Finished(Err(error)),
        }
    }

    /// Takes the reply to the current question into account.
    pub fn step(self, reply: CardReply) -> (after: CardDecipher)
        requires
            self.next_query() is Some,
            self.next_query()->0.answered_by(reply),
        ensures
            after == self.next(reply),
            self.well_formed() ==> after.well_formed(),
    {
        let CardDecipher { ident, pin, peer, phase } = self;
        let phase = match phase {
            DecipherPhase::Transaction(attempt) => match reply {
                CardReply::Failed(reason) => Self::fail(
                    &ident,
                    attempt,
                    SmartcardError::CardError(reason),
                ),
                _ => DecipherPhase::VerifyPin(attempt),
            },
            DecipherPhase::VerifyPin(attempt) => match reply {
                CardReply::Failed(reason) => Self::fail(
                    &ident,
                    attempt,
                    SmartcardError::PinFailed(reason),
                ),
                _ => DecipherPhase::Decipher(attempt),
            },
            DecipherPhase::Decipher(attempt) => match reply {
                CardReply::Failed(reason) => Self::fail(
                    &ident,
                    attempt,
                    SmartcardError::DhFailed(reason),
                ),
                CardReply::Secret(bytes) => match accept_shared_secret(bytes.as_slice()) {
                    Ok(key) => DecipherPhase::Finished(Ok(key)),
                    Err(error) => Self::fail(&ident, attempt, error),
                },
                _ => DecipherPhase::Decipher(attempt),
            },
            DecipherPhase::Reconnecting(search) => {
                let after = search.step(reply);
                match after.phase {
                    ReconnectPhase::Reconnected => DecipherPhase::Transaction(Attempt::Second),
                    ReconnectPhase::Failed(error) => DecipherPhase::Finished(Err(error)),
                    other => DecipherPhase::Reconnecting(
                        CardReconnect { ident: after.ident, phase: other },
                    ),
                }
            },
            DecipherPhase::Finished(result) => DecipherPhase::Finished(result),
        };
        CardDecipher { ident, pin, peer, phase }
    }

    /// The outcome of an operation that is over.
    pub fn finish(self) -> (result: Result<Key, SmartcardError>)
        requires
            self.phase is Finished,
        ensures
            result == self.phase->Finished_0,
    {
        match self.phase {
            DecipherPhase::Finished(result) => result,
            _ => vstd::pervasive::unreached(),
        }
    }
}

/// What a card would answer in one attempt.
pub struct AttemptModel {
    /// Starting a transaction.
    pub transaction: Result<(), String>,
    /// The verdict on the PIN.
    pub pin: Result<(), String>,
    /// The bytes that the card computes.
    pub secret: Result<Vec<u8>, String>,
}

/// What would be answered in the course of an operation.
pub struct DecipherModel {
    /// The card on the connection at hand.
    pub first: AttemptModel,
    /// The readers, while the card is looked for.
    pub readers: ReadersModel,
    /// The card after the reconnection.
    pub second: AttemptModel,
}

/// The outcome of one attempt.
pub open spec fn attempt_outcome(attempt: AttemptModel) -> Result<Key, SmartcardError> {
    if attempt.transaction is Err {
        Err(SmartcardError::CardError(attempt.transaction->Err_0))
    } else if attempt.pin is Err {
        Err(SmartcardError::PinFailed(attempt.pin->Err_0))
    } else {
        match attempt.secret {
            Err(reason) => Err(SmartcardError::DhFailed(reason)),
            Ok(bytes) => accepted(bytes@),
        }
    }
}

/// The outcome of an operation: that of the first attempt if it succeeds, else
/// that of the reconnection if it fails, else that of the second attempt.
pub open spec fn decipher_outcome(ident: String, world: DecipherModel) -> Result<
    Key,
    SmartcardError,
> {
    match attempt_outcome(world.first) {
        Ok(key) => Ok(key),
        Err(_) => match reconnect_outcome(ident, world.readers) {
            Err(error) => Err(error),
            Ok(_) => attempt_outcome(world.second),
        },
    }
}

impl AttemptModel {
    /// The card returns no bytes but such as can be taken for an answer.
    pub open spec fn well_formed(self) -> bool {
        self.secret matches Ok(bytes) ==> usable(bytes@)
    }
}

impl DecipherModel {
    /// The card returns no bytes but such as can be taken for an answer.
    pub open spec fn well_formed(self) -> bool {
        self.first.well_formed() && self.second.well_formed()
    }

    /// What the card answers in an attempt.
    pub open spec fn attempt(self, attempt: Attempt) -> AttemptModel {
        match attempt {
            Attempt::First => self.first,
            Attempt::Second => self.second,
        }
    }

    /// The answer to the question that an operation puts next.
    pub open spec fn reply(self, operation: CardDecipher, next: nat) -> CardReply {
        match operation.phase {
            DecipherPhase::Transaction(attempt) => unit_reply(self.attempt(attempt).transaction),
            DecipherPhase::VerifyPin(attempt) => unit_reply(self.attempt(attempt).pin),
            DecipherPhase::Decipher(attempt) => match self.attempt(attempt).secret {
                Ok(bytes) => CardReply::Secret(bytes),
                Err(reason) => CardReply::Failed(reason),
            },
            DecipherPhase::Reconnecting(search) => self.readers.reply(
                next,
                search.next_query()->0,
            ),
            DecipherPhase::Finished(_) => arbitrary(),
        }
    }

    /// How many readers have been handed out after that question.
    pub open spec fn advance(self, operation: CardDecipher, next: nat) -> nat {
        match operation.phase {
            DecipherPhase::Reconnecting(search) => self.readers.advance(
                next,
                search.next_query()->0,
            ),
            _ => next,
        }
    }
}

/// How many stages of an operation are left.
pub open spec fn stage(phase: DecipherPhase) -> nat {
    match phase {
        DecipherPhase::Transaction(Attempt::First) => 7,
        DecipherPhase::VerifyPin(Attempt::First) => 6,
        DecipherPhase::Decipher(Attempt::First) => 5,
        DecipherPhase::Reconnecting(_) => 4,
        DecipherPhase::Transaction(Attempt::Second) => 3,
        DecipherPhase::VerifyPin(Attempt::Second) => 2,
        DecipherPhase::Decipher(Attempt::Second) => 1,
        DecipherPhase::Finished(_) => 0,
    }
}

/// How many questions of a reconnection may follow before the next reader is
/// opened.
pub open spec fn search_rank(phase: DecipherPhase) -> nat {
    match phase {
        DecipherPhase::Reconnecting(search) => crate::card::reconnect::rank(search.phase),
        _ => 0,
    }
}

/// An operation driven to its end, with the first `next` readers handed out
/// before.
pub open spec fn decipher_run(operation: CardDecipher, world: DecipherModel, next: nat) -> CardDecipher
    decreases
        stage(operation.phase),
        world.readers.readers.len() - next,
        search_rank(operation.phase),
    when next <= world.readers.readers.len()
{
    match operation.next_query() {
        None => operation,
        Some(_) => decipher_run(
            operation.next(world.reply(operation, next)),
            world,
            world.advance(operation, next),
        ),
    }
}

proof fn lemma_second_attempt(operation: CardDecipher, world: DecipherModel, next: nat)
    requires
        operation.phase == DecipherPhase::Transaction(Attempt::Second),
        next <= world.readers.readers.len(),
    ensures
        decipher_run(operation, world, next).phase == DecipherPhase::Finished(
            attempt_outcome(world.second),
        ),
{
    reveal_with_fuel(decipher_run, 5);
}

proof fn lemma_reconnection(
    operation: CardDecipher,
    search: CardReconnect,
    world: DecipherModel,
    next: nat,
)
    requires
        operation.phase == DecipherPhase::Reconnecting(search),
        search.next_query() is Some,
        next <= world.readers.readers.len(),
    ensures
        match reconnect_run(search, world.readers, next).0.phase {
            ReconnectPhase::Reconnected => decipher_run(operation, world, next).phase
                == DecipherPhase::Finished(attempt_outcome(world.second)),
            ReconnectPhase::Failed(error) => decipher_run(operation, world, next).phase
                == DecipherPhase::Finished(Err(error)),
            _ => true,
        },
    decreases
        world.readers.readers.len() - next,
        crate::card::reconnect::rank(search.phase),
{
    reveal_with_fuel(decipher_run, 2);
    reveal_with_fuel(reconnect_run, 2);
    let query = search.next_query()->0;
    let reply = world.readers.reply(next, query);
    let then = world.readers.advance(next, query);
    let after = search.next(reply);
    let operation2 = operation.next(reply);
    match after.phase {
        ReconnectPhase::Reconnected => {
            lemma_second_attempt(operation2, world, then);
        },
        ReconnectPhase::Failed(_) => {},
        _ => {
            lemma_reconnection(operation2, after, world, then);
        },
    }
}

/// Whatever is answered, an operation ends with the shared secret of the first
/// attempt if it succeeds; if not, the card is looked for by its identifier,
/// and if it is found the operation ends as the second attempt does, else with
/// the error of the search.
pub proof fn law_decipher_outcome(operation: CardDecipher, world: DecipherModel)
    requires
        operation.phase == DecipherPhase::Transaction(Attempt::First),
        world.well_formed(),
    ensures
        decipher_run(operation, world, 0).phase == DecipherPhase::Finished(
            decipher_outcome(operation.ident, world),
        ),
{
    reveal_with_fuel(decipher_run, 5);
    if attempt_outcome(world.first) is Err {
        let search = CardReconnect { ident: operation.ident, phase: ReconnectPhase::Enumerate };
        let retry = CardDecipher { phase: DecipherPhase::Reconnecting(search), ..operation };
        law_reconnect_outcome(search, world.readers);
        lemma_reconnection(retry, search, world, 0);
    }
}

/// Card and readers answer every question that an operation puts.
pub proof fn law_card_answers(operation: CardDecipher, world: DecipherModel, next: nat)
    requires
        operation.next_query() is Some,
        world.well_formed(),
    ensures
        operation.next_query()->0.answered_by(world.reply(operation, next)),
{
}

/// An operation is about the same card, PIN and peer from beginning to end.
pub proof fn law_operation_keeps_its_peer(operation: CardDecipher, world: DecipherModel, next: nat)
    requires
        next <= world.readers.readers.len(),
    ensures
        decipher_run(operation, world, next).ident == operation.ident,
        decipher_run(operation, world, next).pin == operation.pin,
        decipher_run(operation, world, next).peer == operation.peer,
    decreases
        stage(operation.phase),
        world.readers.readers.len() - next,
        search_rank(operation.phase),
{
    if operation.next_query() is Some {
        law_operation_keeps_its_peer(
            operation.next(world.reply(operation, next)),
            world,
            world.advance(operation, next),
        );
    }
}

/// In every transaction the PIN is verified before the peer's key is sent, and
/// the key sent and the PIN presented are those the operation was started with.
pub proof fn law_pin_verified_in_each_transaction(operation: CardDecipher, reply: CardReply)
    requires
        operation.next_query() matches Some(query) && query.answered_by(reply),
        operation.next(reply).phase is Decipher,
    ensures
        operation.phase == DecipherPhase::VerifyPin(operation.next(reply).phase->Decipher_0),
        operation.next_query() == Some(CardQuery::VerifyPin(operation.pin)),
        reply is Done,
        operation.next(reply).next_query() == Some(CardQuery::Decipher(operation.peer)),
{
}

/// A failure of the second attempt is final: there is no third.
pub proof fn law_one_retry(operation: CardDecipher, reply: CardReply)
    requires
        operation.next_query() matches Some(query) && query.answered_by(reply),
        stage(operation.phase) <= 3,
    ensures
        stage(operation.next(reply).phase) < stage(operation.phase),
        !(operation.next(reply).phase is Reconnecting),
{
}

/// An operation asks the card for a transaction, presents its own PIN, and
/// sends its own peer's key; while the card is looked for, the search asks; and
/// nothing is asked once it is over.
pub proof fn law_operation_questions(operation: CardDecipher)
    ensures
        operation.phase is Transaction ==> operation.next_query() == Some(CardQuery::Transaction),
        operation.phase is VerifyPin ==> operation.next_query() == Some(
            CardQuery::VerifyPin(operation.pin),
        ),
        operation.phase is Decipher ==> operation.next_query() == Some(
            CardQuery::Decipher(operation.peer),
        ),
        operation.phase matches DecipherPhase::Reconnecting(search) ==> operation.next_query()
            == search.next_query(),
        operation.phase is Finished ==> operation.next_query() is None,
{
}

/// In either attempt, a success leads from the transaction to the PIN, and from
/// the PIN to the peer's key; and the bytes that the card then returns, if any
/// of them is set, are the shared secret, exactly as they are. What the
/// operation is about stays as it is.
pub proof fn law_card_secret_is_the_result(
    operation: CardDecipher,
    attempt: Attempt,
    bytes: Vec<u8>,
    reply: CardReply,
)
    requires
        bytes@.len() == 32,
    ensures
        operation.next(reply).ident == operation.ident,
        operation.next(reply).pin == operation.pin,
        operation.next(reply).peer == operation.peer,
        operation.phase == DecipherPhase::Transaction(attempt) ==> operation.next(
            CardReply::Done,
        ).phase == DecipherPhase::VerifyPin(attempt),
        operation.phase == DecipherPhase::VerifyPin(attempt) ==> operation.next(
            CardReply::Done,
        ).phase == DecipherPhase::Decipher(attempt),
        operation.phase is Decipher && (exists|i: int| 0 <= i < 32 && bytes@[i] != 0) ==> (
        operation.next(CardReply::Secret(bytes)).phase matches DecipherPhase::Finished(result)
            && result matches Ok(key) && key@ == bytes@),
{
    law_only_zero_is_refused(bytes@);
}

/// Whatever fails in the first attempt, a zero secret included, the card is
/// looked for by its identifier. Whatever fails in the second is the result,
/// named after what was asked, with the reason that was given.
pub proof fn law_failed_attempts(
    operation: CardDecipher,
    attempt: Attempt,
    reason: String,
    zero: Vec<u8>,
)
    requires
        forall|i: int| 0 <= i < zero@.len() ==> zero@[i] == 0,
    ensures
        ({
            let search = DecipherPhase::Reconnecting(
                CardReconnect { ident: operation.ident, phase: ReconnectPhase::Enumerate },
            );
            let refused = operation.next(CardReply::Failed(reason)).phase;
            let zeroed = operation.next(CardReply::Secret(zero)).phase;
            &&& operation.phase == DecipherPhase::Transaction(attempt) ==> refused == match attempt {
                Attempt::First => search,
                Attempt::Second => DecipherPhase::Finished(Err(SmartcardError::CardError(reason))),
            }
            &&& operation.phase == DecipherPhase::VerifyPin(attempt) ==> refused == match attempt {
                Attempt::First => search,
                Attempt::Second => DecipherPhase::Finished(Err(SmartcardError::PinFailed(reason))),
            }
            &&& operation.phase == DecipherPhase::Decipher(attempt) ==> refused == match attempt {
                Attempt::First => search,
                Attempt::Second => DecipherPhase::Finished(Err(SmartcardError::DhFailed(reason))),
            }
            &&& operation.phase == DecipherPhase::Decipher(attempt) ==> zeroed == match attempt {
                Attempt::First => search,
                Attempt::Second => DecipherPhase::Finished(Err(SmartcardError::ZeroSharedSecret)),
            }
        }),
{
}

/// The search for the card goes on as it would on its own. Where it finds the
/// card, the second attempt begins; where it fails, its error is the result.
pub proof fn law_search_within_an_operation(
    operation: CardDecipher,
    search: CardReconnect,
    reply: CardReply,
)
    requires
        operation.phase == DecipherPhase::Reconnecting(search),
    ensures
        ({
            let after = search.next(reply);
            let then = operation.next(reply).phase;
            &&& after.phase is Reconnected ==> then == DecipherPhase::Transaction(Attempt::Second)
            &&& after.phase matches ReconnectPhase::Failed(error) ==> then
                == DecipherPhase::Finished(Err(error))
            &&& !(after.phase is Reconnected) && !(after.phase is Failed) ==> then
                == DecipherPhase::Reconnecting(after)
        }),
{
}

} // verus!
