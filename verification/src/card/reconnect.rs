//! Finding a card again after its connection went stale.
use vstd::prelude::*;

use crate::card::{CardQuery, CardReply};
use crate::card::{ReaderModel, ReadersModel};
use crate::error::SmartcardError;

verus! {

/// How far a reconnection has come.
pub enum ReconnectPhase {
    /// The readers are to be listed.
    Enumerate,
    /// The next reader is to be opened.
    NextReader,
    /// The card in the reader is to be connected.
    Connect,
    /// A transaction is to be started.
    Transaction,
    /// The application identifier is to be read.
    Ident,
    /// The card in the current reader is the one looked for.
    Reconnected,
    /// The card was not found again.
    Failed(SmartcardError),
}

/// The search for the card with a known identifier.
pub struct CardReconnect {
    /// The identifier of the card.
    pub ident: String,
    /// How far the search has come.
    pub phase: ReconnectPhase,
}

impl CardReconnect {
    /// Starts to look for the card with this identifier.
    pub fn new(ident: String) -> (search: CardReconnect)
        ensures
            search == (CardReconnect { ident, phase: ReconnectPhase::Enumerate }),
    {
        CardReconnect { ident, phase: ReconnectPhase::Enumerate }
    }

    /// The question to put next; none once the search is over.
    pub open spec fn next_query(self) -> Option<CardQuery> {
        match self.phase {
            ReconnectPhase::Enumerate => Some(CardQuery::Enumerate),
            ReconnectPhase::NextReader => Some(CardQuery::NextReader),
            ReconnectPhase::Connect => Some(CardQuery::Connect),
            ReconnectPhase::Transaction => Some(CardQuery::Transaction),
            ReconnectPhase::Ident => Some(CardQuery::Ident),
            ReconnectPhase::Reconnected => None,
            ReconnectPhase::Failed(_) => None,
        }
    }

    /// The phase after a reply. Once the readers are listed, a failure only
    /// passes over the reader.
    pub open spec fn next_phase(self, reply: CardReply) -> ReconnectPhase {
        match reply {
            CardReply::Failed(reason) => if self.phase is Enumerate {
                ReconnectPhase::Failed(SmartcardError::CardError(reason))
            } else {
                ReconnectPhase::NextReader
            },
            CardReply::NoMoreReaders => ReconnectPhase::Failed(
                SmartcardError::CardNotFound(self.ident),
            ),
            CardReply::Ident(card) => if card@ == self.ident@ {
                ReconnectPhase::Reconnected
            } else {
                ReconnectPhase::NextReader
            },
            _ => match self.phase {
                ReconnectPhase::Enumerate => ReconnectPhase::NextReader,
                ReconnectPhase::NextReader => ReconnectPhase::Connect,
                ReconnectPhase::Connect => ReconnectPhase::Transaction,
                ReconnectPhase::Transaction => ReconnectPhase::Ident,
                other => other,
            },
        }
    }

    /// The search after a reply.
    pub open spec fn next(self, reply: CardReply) -> CardReconnect {
        CardReconnect { ident: self.ident, phase: self.next_phase(reply) }
    }

    /// The question to put next; none once the search is over.
    pub fn query(&self) -> (query: Option<CardQuery>)
        ensures
            query == self.next_query(),
    {
        match &self.phase {
            ReconnectPhase::Enumerate => Some(CardQuery::Enumerate),
            ReconnectPhase::NextReader => Some(CardQuery::NextReader),
            ReconnectPhase::Connect => Some(CardQuery::Connect),
            ReconnectPhase::Transaction => Some(CardQuery::Transaction),
            ReconnectPhase::Ident => Some(CardQuery::Ident),
            ReconnectPhase::Reconnected => None,
            ReconnectPhase::Failed(_) => None,
        }
    }

    /// Takes the reply to the current question into account.
    pub fn step(self, reply: CardReply) -> (after: CardReconnect)
        requires
            self.next_query() is Some,
            self.next_query()->0.answered_by(reply),
        ensures
            after == self.next(reply),
    {
        let CardReconnect { ident, phase } = self;
        let phase = match reply {
            CardReply::Failed(reason) => match phase {
                ReconnectPhase::Enumerate => ReconnectPhase::Failed(
                    SmartcardError::CardError(reason),
                ),
                _ => ReconnectPhase::NextReader,
            },
            CardReply::NoMoreReaders => ReconnectPhase::Failed(
                SmartcardError::CardNotFound(ident.clone()),
            ),
            CardReply::Ident(card) => if card == ident {
                ReconnectPhase::Reconnected
            } else {
                ReconnectPhase::NextReader
            },
            _ => match phase {
                ReconnectPhase::Enumerate => ReconnectPhase::NextReader,
                ReconnectPhase::NextReader => ReconnectPhase::Connect,
                ReconnectPhase::Connect => ReconnectPhase::Transaction,
                ReconnectPhase::Transaction => ReconnectPhase::Ident,
                other => other,
            },
        };
        CardReconnect { ident, phase }
    }
}

/// Whether a reader holds the card with this identifier, and it can be read.
pub open spec fn holds_card(ident: String, reader: ReaderModel) -> bool {
    &&& reader.opened is Ok
    &&& reader.connected is Ok
    &&& reader.transaction is Ok
    &&& reader.ident matches Ok(card)
    &&& card@ == ident@
}

/// The outcome of a reconnection: success exactly if some reader holds the card.
pub open spec fn reconnect_outcome(ident: String, world: ReadersModel) -> Result<
    (),
    SmartcardError,
> {
    match world.enumerated {
        Err(reason) => Err(SmartcardError::CardError(reason)),
        Ok(_) => if exists|i: int|
            0 <= i < world.readers.len() && holds_card(ident, #[trigger] world.readers[i]) {
            Ok(())
        } else {
            Err(SmartcardError::CardNotFound(ident))
        },
    }
}

/// The phase in which a reconnection ends.
pub open spec fn reconnect_end(result: Result<(), SmartcardError>) -> ReconnectPhase {
    match result {
        Ok(_) => ReconnectPhase::Reconnected,
        Err(error) => ReconnectPhase::Failed(error),
    }
}

/// How many questions may follow before the next reader is opened.
pub open spec fn rank(phase: ReconnectPhase) -> nat {
    match phase {
        ReconnectPhase::Enumerate => 5,
        ReconnectPhase::Connect => 4,
        ReconnectPhase::Transaction => 3,
        ReconnectPhase::Ident => 2,
        ReconnectPhase::NextReader => 1,
        ReconnectPhase::Reconnected => 0,
        ReconnectPhase::Failed(_) => 0,
    }
}

/// A reconnection driven to its end: each question is answered by the readers,
/// of which the first `next` were handed out before. The second component
/// counts the readers handed out in all, so that a card that was found is in
/// the last of them.
pub open spec fn reconnect_run(search: CardReconnect, world: ReadersModel, next: nat) -> (
    CardReconnect,
    nat,
)
    decreases world.readers.len() - next, rank(search.phase),
    when next <= world.readers.len()
{
    match search.next_query() {
        None => (search, next),
        Some(query) => reconnect_run(
            search.next(world.reply(next, query)),
            world,
            world.advance(next, query),
        ),
    }
}

proof fn lemma_reconnect_readers(search: CardReconnect, world: ReadersModel, next: nat)
    requires
        search.phase is NextReader,
        next <= world.readers.len(),
        forall|i: int|
            0 <= i < next ==> !holds_card(search.ident, #[trigger] world.readers[i]),
    ensures
        ({
            let (end, used) = reconnect_run(search, world, next);
            &&& end.ident == search.ident
            &&& used <= world.readers.len()
            &&& match end.phase {
                ReconnectPhase::Reconnected => {
                    &&& 0 < used
                    &&& holds_card(search.ident, world.readers[used - 1])
                    &&& forall|i: int|
                        0 <= i < used - 1 ==> !holds_card(search.ident, #[trigger] world.readers[i])
                },
                ReconnectPhase::Failed(error) => {
                    &&& error == SmartcardError::CardNotFound(search.ident)
                    &&& forall|i: int|
                        0 <= i < world.readers.len() ==> !holds_card(
                            search.ident,
                            #[trigger] world.readers[i],
                        )
                },
                _ => false,
            }
        }),
    decreases world.readers.len() - next,
{
    reveal_with_fuel(reconnect_run, 6);
    if next < world.readers.len() {
        if !holds_card(search.ident, world.readers[next as int]) {
            lemma_reconnect_readers(search, world, next + 1);
        }
    }
}

/// Driven against any set of readers, a reconnection succeeds exactly if some
/// reader holds a readable card with the identifier, and then stops at the
/// first such reader; otherwise it ends with `CardNotFound`. It ends with
/// `CardError` if the readers cannot be listed.
pub proof fn law_reconnect_outcome(search: CardReconnect, world: ReadersModel)
    requires
        search.phase is Enumerate,
    ensures
        ({
            let (end, used) = reconnect_run(search, world, 0);
            &&& end.ident == search.ident
            &&& end.phase == reconnect_end(reconnect_outcome(search.ident, world))
            &&& end.phase is Reconnected ==> {
                &&& 0 < used <= world.readers.len()
                &&& holds_card(search.ident, world.readers[used - 1])
                &&& forall|i: int|
                    0 <= i < used - 1 ==> !holds_card(search.ident, #[trigger] world.readers[i])
            }
        }),
{
    reveal_with_fuel(reconnect_run, 3);
    if world.enumerated is Ok {
        lemma_reconnect_readers(search.next(CardReply::Done), world, 0);
    }
}

/// A reconnection asks for one thing at a time, and for nothing once it is
/// over.
pub proof fn law_reconnect_questions(search: CardReconnect)
    ensures
        search.next_query() is None <==> search.phase is Reconnected || search.phase is Failed,
        search.next_query() == Some(CardQuery::Enumerate) <==> search.phase is Enumerate,
        search.next_query() == Some(CardQuery::NextReader) <==> search.phase is NextReader,
        search.next_query() == Some(CardQuery::Connect) <==> search.phase is Connect,
        search.next_query() == Some(CardQuery::Transaction) <==> search.phase is Transaction,
        search.next_query() == Some(CardQuery::Ident) <==> search.phase is Ident,
{
}

/// A reconnection takes the card whose identifier is the one looked for and
/// passes over every other, as it does over cards that cannot be read. It fails
/// only where the readers end, or fail to be listed.
pub proof fn law_reconnect_takes_the_card_looked_for(
    search: CardReconnect,
    card: String,
    reason: String,
)
    requires
        search.next_query() is Some,
    ensures
        card@ == search.ident@ ==> search.next(CardReply::Ident(card)).phase is Reconnected,
        card@ != search.ident@ ==> search.next(CardReply::Ident(card)).phase is NextReader,
        search.phase is Enumerate ==> search.next(CardReply::Failed(reason)).phase
            == ReconnectPhase::Failed(SmartcardError::CardError(reason)),
        !(search.phase is Enumerate) ==> search.next(CardReply::Failed(reason)).phase is NextReader,
        search.next(CardReply::NoMoreReaders).phase == ReconnectPhase::Failed(
            SmartcardError::CardNotFound(search.ident),
        ),
        search.phase is Enumerate ==> search.next(CardReply::Done).phase is NextReader,
        search.phase is NextReader ==> search.next(CardReply::Done).phase is Connect,
        search.phase is Connect ==> search.next(CardReply::Done).phase is Transaction,
        search.phase is Transaction ==> search.next(CardReply::Done).phase is Ident,
        search.next(CardReply::Ident(card)).ident == search.ident,
        search.next(CardReply::Done).ident == search.ident,
        search.next(CardReply::Failed(reason)).ident == search.ident,
{
}

/// If any reader holds a readable card with the identifier looked for, the card
/// is found again, whatever the other readers hold.
pub proof fn law_card_is_found_wherever_it_is(search: CardReconnect, world: ReadersModel, i: int)
    requires
        search.phase is Enumerate,
        world.enumerated is Ok,
        0 <= i < world.readers.len(),
        world.readers[i].opened is Ok,
        world.readers[i].connected is Ok,
        world.readers[i].transaction is Ok,
        world.readers[i].ident matches Ok(card) && card@ == search.ident@,
    ensures
        reconnect_run(search, world, 0).0.phase is Reconnected,
{
    law_reconnect_outcome(search, world);
    assert(holds_card(search.ident, world.readers[i]));
}

} // verus!
