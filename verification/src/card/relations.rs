//! How listing, opening and reconnecting to cards relate to each other.
use vstd::prelude::*;

use crate::card::init::{init_outcome, init_run, is_auto, opens, passed_over};
use crate::card::init::{law_first_usable_card_wins, law_init_outcome, CardInit, InitPhase};
use crate::card::listing::{cards_in, law_cards_of_one_more_reader, listed};
use crate::card::reconnect::{holds_card, reconnect_outcome};
use crate::card::{CardInfo, ReaderModel, ReadersModel};
use crate::error::SmartcardError;
use crate::keys::Key;

verus! {

proof fn lemma_cards_prefix(readers: Seq<ReaderModel>, from: int, to: int)
    requires
        0 <= from <= to <= readers.len(),
    ensures
        cards_in(readers.take(from)).len() <= cards_in(readers.take(to)).len(),
        forall|i: int|
            0 <= i < cards_in(readers.take(from)).len() ==> cards_in(readers.take(from))[i]
                == cards_in(readers.take(to))[i],
    decreases to - from,
{
    if from < to {
        lemma_cards_prefix(readers, from, to - 1);
        law_cards_of_one_more_reader(readers, to - 1);
    }
}

proof fn lemma_none_listed(readers: Seq<ReaderModel>, upto: int)
    requires
        0 <= upto <= readers.len(),
        forall|j: int| 0 <= j < upto ==> listed(#[trigger] readers[j]) is None,
    ensures
        cards_in(readers.take(upto)) == Seq::<CardInfo>::empty(),
    decreases upto,
{
    if upto > 0 {
        lemma_none_listed(readers, upto - 1);
        law_cards_of_one_more_reader(readers, upto - 1);
    } else {
        assert(readers.take(0) =~= Seq::empty());
        reveal_with_fuel(Seq::filter, 1);
        assert(cards_in(readers.take(0)) =~= Seq::empty());
    }
}

/// A card that can be opened is listed, with the same identifier and key; and
/// the card that `"auto"` opens is the first of the list.
pub proof fn law_opened_card_is_listed(
    ident: String,
    readers: Seq<ReaderModel>,
    card: String,
    key: Key,
)
    requires
        init_outcome(ident, readers, 0) == Ok::<(String, Key), SmartcardError>((card, key)),
    ensures
        cards_in(readers).contains(CardInfo { ident: card, public_key: key }),
        is_auto(ident) ==> cards_in(readers).len() > 0 && cards_in(readers)[0] == (CardInfo {
            ident: card,
            public_key: key,
        }),
{
    law_first_usable_card_wins(ident, readers, card, key);
    let i = choose|i: int|
        #![trigger readers[i]]
        0 <= i < readers.len() && opens(ident, readers[i], card, key) && forall|j: int|
            0 <= j < i ==> passed_over(ident, #[trigger] readers[j]);
    let info = CardInfo { ident: card, public_key: key };
    assert(listed(readers[i]) == Some(info));
    law_cards_of_one_more_reader(readers, i);
    lemma_cards_prefix(readers, i + 1, readers.len() as int);
    assert(readers.take(readers.len() as int) =~= readers);
    let at = cards_in(readers.take(i)).len() as int;
    assert(cards_in(readers.take(i + 1))[at] == info);
    assert(cards_in(readers)[at] == info);
    if is_auto(ident) {
        assert forall|j: int| 0 <= j < i implies listed(#[trigger] readers[j]) is None by {
            assert(passed_over(ident, readers[j]));
        }
        lemma_none_listed(readers, i);
    }
}

proof fn lemma_listed_somewhere(readers: Seq<ReaderModel>, upto: int, i: int) -> (at: int)
    requires
        0 <= upto <= readers.len(),
        0 <= i < cards_in(readers.take(upto)).len(),
    ensures
        0 <= at < upto,
        listed(readers[at]) == Some(cards_in(readers.take(upto))[i]),
        i == 0 ==> forall|j: int| 0 <= j < at ==> listed(#[trigger] readers[j]) is None,
    decreases upto,
{
    if upto == 0 {
        lemma_none_listed(readers, 0);
        0
    } else {
        law_cards_of_one_more_reader(readers, upto - 1);
        if i < cards_in(readers.take(upto - 1)).len() {
            lemma_listed_somewhere(readers, upto - 1, i)
        } else {
            if i == 0 {
                lemma_all_passed(readers, upto - 1);
            }
            upto - 1
        }
    }
}

proof fn lemma_all_passed(readers: Seq<ReaderModel>, upto: int)
    requires
        0 <= upto <= readers.len(),
        cards_in(readers.take(upto)).len() == 0,
    ensures
        forall|j: int| 0 <= j < upto ==> listed(#[trigger] readers[j]) is None,
    decreases upto,
{
    if upto > 0 {
        law_cards_of_one_more_reader(readers, upto - 1);
        lemma_all_passed(readers, upto - 1);
    }
}

/// Whether the card in a reader can be asked for its identifier and its key.
pub open spec fn readable(reader: ReaderModel) -> bool {
    &&& reader.opened is Ok
    &&& reader.connected is Ok
    &&& reader.transaction is Ok
    &&& reader.ident is Ok
    &&& reader.key is Ok
}

/// Whether the reader that holds a listed card accepts the PIN.
pub open spec fn accepts_pin(readers: Seq<ReaderModel>, card: CardInfo) -> bool {
    forall|j: int|
        0 <= j < readers.len() && listed(#[trigger] readers[j]) == Some(card)
            ==> readers[j].pin is Ok
}

/// Every card of the list can be opened by its identifier, and the key that is
/// read from it is the listed one: so long as all readers can be read, no two
/// cards have the same identifier, the identifier is not `"auto"`, and the card
/// accepts the PIN.
pub proof fn law_listed_card_can_be_opened(search: CardInit, world: ReadersModel, i: int)
    requires
        search.phase is Enumerate,
        world.enumerated is Ok,
        forall|j: int| 0 <= j < world.readers.len() ==> readable(#[trigger] world.readers[j]),
        forall|j: int, k: int|
            0 <= j < k < world.readers.len() ==> (#[trigger] world.readers[j]).ident->Ok_0@ != (
            #[trigger] world.readers[k]).ident->Ok_0@,
        0 <= i < cards_in(world.readers).len(),
        search.ident@ == cards_in(world.readers)[i].ident@,
        !is_auto(search.ident),
        accepts_pin(world.readers, cards_in(world.readers)[i]),
    ensures
        ({
            let card = cards_in(world.readers)[i];
            init_run(search, world, 0).phase == InitPhase::Opened(card.ident, card.public_key)
        }),
{
    let readers = world.readers;
    let card = cards_in(readers)[i];
    assert(readers.take(readers.len() as int) =~= readers);
    let at = lemma_listed_somewhere(readers, readers.len() as int, i);
    assert(opens(search.ident, readers[at], card.ident, card.public_key));
    assert forall|j: int| 0 <= j < at implies passed_over(search.ident, #[trigger] readers[j]) by {
        assert(readable(readers[j]));
    }
    law_first_usable_card_wins(search.ident, readers, card.ident, card.public_key);
    law_init_outcome(search, world);
}

/// `"auto"` opens the first card of the list, and the key that is read from it
/// is the listed one: so long as all readers can be read, and the card accepts
/// the PIN.
pub proof fn law_auto_opens_the_first_listed(search: CardInit, world: ReadersModel)
    requires
        search.phase is Enumerate,
        is_auto(search.ident),
        world.enumerated is Ok,
        forall|j: int| 0 <= j < world.readers.len() ==> readable(#[trigger] world.readers[j]),
        cards_in(world.readers).len() > 0,
        accepts_pin(world.readers, cards_in(world.readers)[0]),
    ensures
        ({
            let card = cards_in(world.readers)[0];
            init_run(search, world, 0).phase == InitPhase::Opened(card.ident, card.public_key)
        }),
{
    let readers = world.readers;
    let card = cards_in(readers)[0];
    assert(readers.take(readers.len() as int) =~= readers);
    let at = lemma_listed_somewhere(readers, readers.len() as int, 0);
    assert(opens(search.ident, readers[at], card.ident, card.public_key));
    assert forall|j: int| 0 <= j < at implies passed_over(search.ident, #[trigger] readers[j]) by {
        assert(readable(readers[j]));
    }
    law_first_usable_card_wins(search.ident, readers, card.ident, card.public_key);
    law_init_outcome(search, world);
}

/// A card that was opened is found again by its identifier as long as the
/// readers stay as they are.
pub proof fn law_opened_card_is_found_again(
    ident: String,
    world: ReadersModel,
    card: String,
    key: Key,
)
    requires
        world.enumerated is Ok,
        init_outcome(ident, world.readers, 0) == Ok::<(String, Key), SmartcardError>((card, key)),
    ensures
        reconnect_outcome(card, world) is Ok,
{
    law_first_usable_card_wins(ident, world.readers, card, key);
    let i = choose|i: int|
        #![trigger world.readers[i]]
        0 <= i < world.readers.len() && opens(ident, world.readers[i], card, key) && forall|j: int|
            0 <= j < i ==> passed_over(ident, #[trigger] world.readers[j]);
    assert(holds_card(card, world.readers[i]));
}

} // verus!
