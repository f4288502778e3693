//! The stages of bringing a tunnel up.
use vstd::prelude::*;

use crate::config::PrivateKeyConfig;
use crate::crypto::is_card_key;
use crate::keys::{smartcard_sentinel, StaticPrivateKey};

verus! {

/// One stage of bringing a tunnel up.
#[derive(Clone, Copy, Debug, PartialEq, Eq)]
pub enum UpStage {
    /// Load the configuration.
    LoadConfig,
    /// Plan the tunnel of the configuration.
    PlanTunnel,
    /// Say where the private key is.
    Announce,
    /// Obtain the PIN of the card.
    ObtainPin,
    /// Open the card, and read its public key.
    OpenCard,
    /// Compute our public key from the private key, in software.
    DerivePublicKey,
    /// Show our public key, and the number of peers.
    ShowPublicKey,
    /// Set up the sessions with all peers.
    BuildSessions,
    /// Fill the cache of static-static results.
    Precompute,
    /// Run the tunnel.
    RunTunnel,
}

/// The stages, in order, with the private key on a card or not.
pub open spec fn stages_with(on_card: bool) -> Seq<UpStage> {
    if on_card {
        seq![
            UpStage::LoadConfig,
            UpStage::PlanTunnel,
            UpStage::Announce,
            UpStage::ObtainPin,
            UpStage::OpenCard,
            UpStage::ShowPublicKey,
            UpStage::BuildSessions,
            UpStage::Precompute,
            UpStage::RunTunnel,
        ]
    } else {
        seq![
            UpStage::LoadConfig,
            UpStage::PlanTunnel,
            UpStage::Announce,
            UpStage::DerivePublicKey,
            UpStage::ShowPublicKey,
            UpStage::BuildSessions,
            UpStage::RunTunnel,
        ]
    }
}

/// The stages for a private key, in order.
pub open spec fn stages(key: PrivateKeyConfig) -> Seq<UpStage> {
    stages_with(!(key is Software))
}

fn stage_list(on_card: bool) -> (list: Vec<UpStage>)
    ensures
        list@ == stages_with(on_card),
{
    if on_card {
        vec![
            UpStage::LoadConfig,
            UpStage::PlanTunnel,
            UpStage::Announce,
            UpStage::ObtainPin,
            UpStage::OpenCard,
            UpStage::ShowPublicKey,
            UpStage::BuildSessions,
            UpStage::Precompute,
            UpStage::RunTunnel,
        ]
    } else {
        vec![
            UpStage::LoadConfig,
            UpStage::PlanTunnel,
            UpStage::Announce,
            UpStage::DerivePublicKey,
            UpStage::ShowPublicKey,
            UpStage::BuildSessions,
            UpStage::RunTunnel,
        ]
    }
}

/// Whether the private key is on a card.
pub fn is_on_card(key: &PrivateKeyConfig) -> (on_card: bool)
    ensures
        on_card == !(key is Software),
{
    match key {
        PrivateKeyConfig::Software(_) => false,
        _ => true,
    }
}

/// Lists the stages, in order.
pub fn up_stages(key: &PrivateKeyConfig) -> (list: Vec<UpStage>)
    ensures
        list@ == stages(*key),
        *key is Software ==> list@ == seq![
            UpStage::LoadConfig,
            UpStage::PlanTunnel,
            UpStage::Announce,
            UpStage::DerivePublicKey,
            UpStage::ShowPublicKey,
            UpStage::BuildSessions,
            UpStage::RunTunnel,
        ],
        !(*key is Software) ==> list@ == seq![
            UpStage::LoadConfig,
            UpStage::PlanTunnel,
            UpStage::Announce,
            UpStage::ObtainPin,
            UpStage::OpenCard,
            UpStage::ShowPublicKey,
            UpStage::BuildSessions,
            UpStage::Precompute,
            UpStage::RunTunnel,
        ],
{
    stage_list(is_on_card(key))
}

/// What came of a stage.
pub enum UpEvent<E> {
    /// The configuration was loaded; whether its private key is on a card.
    Loaded(bool),
    /// The stage succeeded.
    Succeeded,
    /// The stage failed, with this error.
    Failed(E),
}

/// A tunnel that is being brought up.
pub struct BringUp<E> {
    /// Whether the private key is on a card, once the configuration is loaded.
    pub on_card: bool,
    /// The number of stages that succeeded.
    pub done: usize,
    /// The error of the stage that failed.
    pub failure: Option<E>,
}

impl<E> BringUp<E> {
    /// The stage to carry out next; none after the last stage, nor after one
    /// that failed.
    pub open spec fn next_up(self) -> Option<UpStage> {
        if self.failure is Some || self.done >= stages_with(self.on_card).len() {
            None
        } else {
            Some(stages_with(self.on_card)[self.done as int])
        }
    }

    /// Whether an event can be the outcome of the next stage.
    pub open spec fn expects(self, event: UpEvent<E>) -> bool {
        match self.next_up() {
            None => false,
            Some(stage) => match event {
                UpEvent::Loaded(_) => stage is LoadConfig,
                UpEvent::Succeeded => !(stage is LoadConfig),
                UpEvent::Failed(_) => true,
            },
        }
    }

    /// The state after an event.
    pub open spec fn next(self, event: UpEvent<E>) -> BringUp<E> {
        match event {
            UpEvent::Loaded(on_card) => BringUp {
                on_card,
                done: (self.done + 1) as usize,
                failure: self.failure,
            },
            UpEvent::Succeeded => BringUp {
                on_card: self.on_card,
                done: (self.done + 1) as usize,
                failure: self.failure,
            },
            UpEvent::Failed(error) => BringUp {
                on_card: self.on_card,
                done: self.done,
                failure: Some(error),
            },
        }
    }

    /// Starts to bring a tunnel up.
    pub fn new() -> (state: BringUp<E>)
        ensures
            state.done == 0,
            state.failure is None,
            !state.on_card,
    {
        BringUp { on_card: false, done: 0, failure: None }
    }

    /// The stage to carry out next; none after the last stage, nor after one
    /// that failed.
    pub fn next_stage(&self) -> (stage: Option<UpStage>)
        ensures
            stage == self.next_up(),
    {
        let list = stage_list(self.on_card);
        if self.failure.is_some() || self.done >= list.len() {
            None
        } else {
            Some(list[self.done])
        }
    }

    /// Tests whether an event can be the outcome of the next stage.
    pub fn accepts(&self, event: &UpEvent<E>) -> (ok: bool)
        ensures
            ok == self.expects(*event),
    {
        match self.next_stage() {
            None => false,
            Some(stage) => match event {
                UpEvent::Loaded(_) => match stage {
                    UpStage::LoadConfig => true,
                    _ => false,
                },
                UpEvent::Succeeded => match stage {
                    UpStage::LoadConfig => false,
                    _ => true,
                },
                UpEvent::Failed(_) => true,
            },
        }
    }

    /// Takes the outcome of a stage into account.
    pub fn step(self, event: UpEvent<E>) -> (after: BringUp<E>)
        requires
            self.expects(event),
        ensures
            after == self.next(event),
    {
        match event {
            UpEvent::Loaded(on_card) => BringUp {
                on_card,
                done: self.done + 1,
                failure: self.failure,
            },
            UpEvent::Succeeded => BringUp {
                on_card: self.on_card,
                done: self.done + 1,
                failure: self.failure,
            },
            UpEvent::Failed(error) => BringUp {
                on_card: self.on_card,
                done: self.done,
                failure: Some(error),
            },
        }
    }

    /// The outcome once there is nothing left to do: the error of the stage
    /// that failed, or success.
    pub fn finish(self) -> (result: Result<(), E>)
        requires
            self.next_up() is None,
        ensures
            result == (match self.failure {
                Some(error) => Err::<(), E>(error),
                None => Ok(()),
            }),
    {
        match self.failure {
            Some(error) => Err(error),
            None => Ok(()),
        }
    }
}

/// What would come of the stages.
pub struct UpModel<E> {
    /// Loading the configuration: whether its private key is on a card.
    pub loaded: Result<bool, E>,
    /// The errors of those other stages that fail.
    pub failures: Map<UpStage, E>,
}

impl<E> UpModel<E> {
    /// What comes of a stage.
    pub open spec fn event(self, stage: UpStage) -> UpEvent<E> {
        match (stage, self.loaded) {
            (UpStage::LoadConfig, Ok(on_card)) => UpEvent::Loaded(on_card),
            (UpStage::LoadConfig, Err(error)) => UpEvent::Failed(error),
            _ => if self.failures.contains_key(stage) {
                UpEvent::Failed(self.failures[stage])
            } else {
                UpEvent::Succeeded
            },
        }
    }

    /// Whether a stage fails.
    pub open spec fn fails(self, stage: UpStage) -> bool {
        self.event(stage) is Failed
    }
}

/// How much is left to do, at most.
pub open spec fn remaining<E>(state: BringUp<E>) -> nat {
    if state.failure is Some || state.done > 9 {
        0
    } else {
        (10 - state.done) as nat
    }
}

/// The stages that are carried out from a state on, in order, and the state in
/// the end.
pub open spec fn up_run<E>(state: BringUp<E>, world: UpModel<E>) -> (Seq<UpStage>, BringUp<E>)
    decreases remaining(state),
{
    match state.next_up() {
        None => (Seq::empty(), state),
        Some(stage) => {
            let (later, end) = up_run(state.next(world.event(stage)), world);
            (seq![stage] + later, end)
        },
    }
}

proof fn lemma_up_to_failure<E>(state: BringUp<E>, world: UpModel<E>, at: int)
    requires
        state.failure is None,
        1 <= state.done <= at < stages_with(state.on_card).len(),
        world.fails(stages_with(state.on_card)[at]),
        forall|i: int|
            state.done <= i < at ==> !world.fails(#[trigger] stages_with(state.on_card)[i]),
    ensures
        up_run(state, world).0 == stages_with(state.on_card).subrange(state.done as int, at + 1),
        up_run(state, world).1.next_up() is None,
        world.event(stages_with(state.on_card)[at]) == UpEvent::Failed(
            up_run(state, world).1.failure->0,
        ),
        up_run(state, world).1.failure is Some,
    decreases at - state.done,
{
    let list = stages_with(state.on_card);
    let stage = list[state.done as int];
    let after = state.next(world.event(stage));
    reveal_with_fuel(up_run, 2);
    if state.done == at {
        assert(up_run(state, world).0 =~= list.subrange(at, at + 1));
    } else {
        assert(!world.fails(stage));
        lemma_up_to_failure(after, world, at);
        assert(up_run(state, world).0 =~= list.subrange(state.done as int, at + 1));
    }
}

proof fn lemma_up_to_end<E>(state: BringUp<E>, world: UpModel<E>)
    requires
        state.failure is None,
        1 <= state.done <= stages_with(state.on_card).len(),
        forall|i: int|
            state.done <= i < stages_with(state.on_card).len() ==> !world.fails(
                #[trigger] stages_with(state.on_card)[i],
            ),
    ensures
        up_run(state, world).0 == stages_with(state.on_card).skip(state.done as int),
        up_run(state, world).1.next_up() is None,
        up_run(state, world).1.failure is None,
    decreases stages_with(state.on_card).len() - state.done,
{
    let list = stages_with(state.on_card);
    reveal_with_fuel(up_run, 1);
    if state.done < list.len() {
        let stage = list[state.done as int];
        assert(!world.fails(stage));
        lemma_up_to_end(state.next(world.event(stage)), world);
        assert(up_run(state, world).0 =~= list.skip(state.done as int));
    } else {
        assert(up_run(state, world).0 =~= list.skip(state.done as int));
    }
}

/// If the configuration cannot be loaded, nothing else is done, and the error
/// is the result.
pub proof fn law_nothing_without_configuration<E>(state: BringUp<E>, world: UpModel<E>, error: E)
    requires
        state.done == 0 && state.failure is None,
        world.loaded == Err::<bool, E>(error),
    ensures
        up_run(state, world).0 == seq![UpStage::LoadConfig],
        up_run(state, world).1.next_up() is None,
        up_run(state, world).1.failure == Some(error),
{
    reveal_with_fuel(up_run, 2);
    assert(up_run(state, world).0 =~= seq![UpStage::LoadConfig]);
}

/// The first stage that fails is the last one that is carried out, and its
/// error is the result: whatever comes later in the order does not happen.
pub proof fn law_first_failure_ends<E>(
    state: BringUp<E>,
    world: UpModel<E>,
    key: PrivateKeyConfig,
    at: int,
)
    requires
        state.done == 0 && state.failure is None,
        world.loaded == Ok::<bool, E>(!(key is Software)),
        1 <= at < stages(key).len(),
        world.failures.contains_key(stages(key)[at]),
        forall|i: int|
            1 <= i < at ==> !world.failures.contains_key(#[trigger] stages(key)[i]),
    ensures
        up_run(state, world).0 == stages(key).take(at + 1),
        up_run(state, world).1.next_up() is None,
        up_run(state, world).1.failure == Some(world.failures[stages(key)[at]]),
{
    reveal_with_fuel(up_run, 1);
    let loaded = state.next(world.event(UpStage::LoadConfig));
    assert(forall|i: int| 1 <= i < stages(key).len() ==> !(#[trigger] stages(key)[i] is LoadConfig));
    lemma_up_to_failure(loaded, world, at);
    assert(up_run(state, world).0 =~= stages(key).take(at + 1));
}

/// If no stage fails, all of them are carried out in order, and the result is
/// success.
pub proof fn law_all_stages_without_failure<E>(
    state: BringUp<E>,
    world: UpModel<E>,
    key: PrivateKeyConfig,
)
    requires
        state.done == 0 && state.failure is None,
        world.loaded == Ok::<bool, E>(!(key is Software)),
        forall|i: int|
            1 <= i < stages(key).len() ==> !world.failures.contains_key(#[trigger] stages(key)[i]),
    ensures
        up_run(state, world).0 == stages(key),
        up_run(state, world).1.next_up() is None,
        up_run(state, world).1.failure is None,
{
    reveal_with_fuel(up_run, 1);
    let loaded = state.next(world.event(UpStage::LoadConfig));
    assert(forall|i: int| 1 <= i < stages(key).len() ==> !(#[trigger] stages(key)[i] is LoadConfig));
    lemma_up_to_end(loaded, world);
    assert(up_run(state, world).0 =~= stages(key));
}

/// The identifier under which the card is opened; none without a card.
pub fn card_ident(key: &PrivateKeyConfig) -> (ident: Option<String>)
    ensures
        match key {
            PrivateKeyConfig::Software(_) => ident is None,
            PrivateKeyConfig::Smartcard(name) => ident matches Some(text) && text@ == name@,
            PrivateKeyConfig::SmartcardAuto => ident matches Some(text) && text@ == "auto"@,
        },
{
    match key {
        PrivateKeyConfig::Software(_) => None,
        PrivateKeyConfig::Smartcard(name) => Some(name.clone()),
        PrivateKeyConfig::SmartcardAuto => Some("auto".to_owned()),
    }
}

/// The private key that the sessions are set up with: the configured one, or
/// the one that stands for the key on the card.
pub fn session_key(key: &PrivateKeyConfig) -> (secret: StaticPrivateKey)
    ensures
        match key {
            PrivateKeyConfig::Software(bytes) => secret == StaticPrivateKey(*bytes),
            _ => is_card_key(secret),
        },
        !(*key is Software) ==> forall|i: int| 0 <= i < 32 ==> secret.0@[i] == 0,
{
    match key {
        PrivateKeyConfig::Software(bytes) => StaticPrivateKey(*bytes),
        _ => smartcard_sentinel(),
    }
}

/// Whatever the key, the configuration is loaded first and the tunnel planned
/// next, and the tunnel runs last and once, after the sessions are set up. With
/// a card, the PIN is obtained after that plan and before the card is opened,
/// the card is opened before the sessions are set up, and the cache is filled
/// before the tunnel runs; without one, none of this happens.
pub proof fn law_stage_order(key: PrivateKeyConfig)
    ensures
        stages(key)[0] is LoadConfig,
        stages(key)[1] is PlanTunnel,
        stages(key).last() is RunTunnel,
        forall|i: int| 0 <= i < stages(key).len() - 1 ==> !(#[trigger] stages(key)[i] is RunTunnel),
        stages(key).contains(UpStage::BuildSessions),
        key is Software ==> {
            &&& !stages(key).contains(UpStage::ObtainPin)
            &&& !stages(key).contains(UpStage::OpenCard)
            &&& !stages(key).contains(UpStage::Precompute)
        },
        !(key is Software) ==> {
            &&& 1 < stages(key).index_of(UpStage::ObtainPin)
            &&& stages(key).index_of(UpStage::ObtainPin) < stages(key).index_of(UpStage::OpenCard)
            &&& stages(key).index_of(UpStage::OpenCard) < stages(key).index_of(
                UpStage::BuildSessions,
            )
            &&& stages(key).index_of(UpStage::BuildSessions) < stages(key).index_of(
                UpStage::Precompute,
            )
            &&& stages(key).index_of(UpStage::Precompute) < stages(key).len() - 1
        },
{
    let list = stages(key);
    if key is Software {
        assert(list[5] is BuildSessions);
    } else {
        assert(list[3] is ObtainPin);
        assert(list[4] is OpenCard);
        assert(list[6] is BuildSessions);
        assert(list[7] is Precompute);
        assert(list.contains(UpStage::ObtainPin));
        assert(list.contains(UpStage::OpenCard));
        assert(list.contains(UpStage::BuildSessions));
        assert(list.contains(UpStage::Precompute));
    }
}

/// A stage that succeeds is counted and leads to the one behind it; one that
/// fails leaves its error and nothing to do. Whether the key is on a card is
/// learned from the configuration, and never changes after that.
pub proof fn law_each_stage_counts<E>(state: BringUp<E>, on_card: bool, error: E)
    requires
        state.done < 9,
    ensures
        ({
            let loaded = state.next(UpEvent::Loaded(on_card));
            &&& loaded.done == state.done + 1
            &&& loaded.on_card == on_card
            &&& loaded.failure == state.failure
        }),
        ({
            let after = state.next(UpEvent::Succeeded);
            &&& after.done == state.done + 1
            &&& after.on_card == state.on_card
            &&& after.failure == state.failure
        }),
        ({
            let failed = state.next(UpEvent::Failed(error));
            &&& failed.failure == Some(error)
            &&& failed.done == state.done
            &&& failed.next_up() is None
        }),
{
}

/// As long as nothing failed, there is something to do exactly until all
/// stages are done; the first is to load the configuration, and it is the only
/// one from which the place of the key is learned.
pub proof fn law_something_to_do_until_the_end<E>(
    state: BringUp<E>,
    on_card: bool,
    error: E,
)
    ensures
        state.failure is None ==> (state.next_up() is Some <==> state.done < if state.on_card {
            9int
        } else {
            7
        }),
        state.failure is Some ==> state.next_up() is None,
        state.failure is None && state.done == 0 ==> state.next_up() == Some(UpStage::LoadConfig),
        state.expects(UpEvent::Failed(error)) <==> state.next_up() is Some,
        state.expects(UpEvent::Loaded(on_card)) <==> state.failure is None && state.done == 0,
        state.expects(UpEvent::Succeeded) <==> state.next_up() is Some && state.done > 0,
{
}

/// Without a failure, the stage that is carried out next is the one that stands
/// behind those that are done, in the one order or the other.
pub proof fn law_stages_one_by_one<E>(state: BringUp<E>)
    requires
        state.failure is None,
    ensures
        !state.on_card && state.done < 7 ==> state.next_up() == Some(
            seq![
            UpStage::LoadConfig,
            UpStage::PlanTunnel,
            UpStage::Announce,
            UpStage::DerivePublicKey,
            UpStage::ShowPublicKey,
            UpStage::BuildSessions,
            UpStage::RunTunnel,
        ][state.done as int],
        ),
        state.on_card && state.done < 9 ==> state.next_up() == Some(
            seq![
            UpStage::LoadConfig,
            UpStage::PlanTunnel,
            UpStage::Announce,
            UpStage::ObtainPin,
            UpStage::OpenCard,
            UpStage::ShowPublicKey,
            UpStage::BuildSessions,
            UpStage::Precompute,
            UpStage::RunTunnel,
        ][state.done as int],
        ),
{
}

} // verus!
