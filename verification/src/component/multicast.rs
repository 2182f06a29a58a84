use vstd::prelude::*;
use vstd::pervasive::arbitrary;
use vstd::pervasive::unreached;

use crate::component::CleanupStep;
use crate::config::MulticastClientConfig;

verus! {

/// What a multicast client component is created with besides its
/// configuration: the arguments for its session, and a context.
pub struct MulticastClientParam<Ctx, Args> {
    session_args: Args,
    ctx: Ctx,
}

impl<Ctx, Args> MulticastClientParam<Ctx, Args> {
    /// The arguments handed to the session when it is created.
    pub closed spec fn spec_session_args(&self) -> Args {
        self.session_args
    }

    /// The context handed to the multicast bus when it is created.
    pub closed spec fn spec_ctx(&self) -> Ctx {
        self.ctx
    }

    /// Builds the parameters from the session's arguments and the context.
    pub fn new(session_args: Args, ctx: Ctx) -> (res: Self)
        ensures
            res.spec_session_args() == session_args,
            res.spec_ctx() == ctx,
    {
        MulticastClientParam { session_args: session_args, ctx: ctx }
    }
}

/// Why a multicast client component failed to start.
#[derive(Debug)]
pub enum MulticastClientComponentRunError<Session, Multicast, Start> {
    /// The session could not be created.
    Session { err: Session },
    /// The multicast bus could not be created.
    Multicast { err: Multicast },
    /// The session could not be started.
    Start { err: Start },
    /// The multicast bus could not be started.
    IO { err: std::io::Error },
    /// The stream parties skipped an index.
    SkippedIdx,
}

impl<Session, Multicast, Start> MulticastClientComponentRunError<Session, Multicast, Start> {
    /// The message of an error whose text does not come from an inner
    /// error: `Some` exactly for `SkippedIdx`.  Every other variant is
    /// displayed as its inner error.
    pub fn fixed_message(&self) -> (res: Option<&'static str>)
        ensures
            self is SkippedIdx <==> res is Some,
            res matches Some(m) ==> m@ == "stream parties skipped an index"@,
    {
        match self {
            MulticastClientComponentRunError::SkippedIdx => Some("stream parties skipped an index"),
            _ => None,
        }
    }
}

/// A multicast client component, created and ready to start: the
/// multicast bus configuration, the party identifying this node, and
/// what its session is created from.
pub struct MulticastClientComponent<SessionConfig, PartyID, Bus, Args, Ctx> {
    config: Bus,
    self_party: PartyID,
    session_args: Args,
    session_config: SessionConfig,
    ctx: Ctx,
}

impl<SessionConfig, PartyID, Bus, Args, Ctx> MulticastClientComponent<SessionConfig, PartyID, Bus, Args, Ctx> {
    /// The multicast bus configuration.
    pub closed spec fn spec_config(&self) -> Bus {
        self.config
    }

    /// The party identifying this node.
    pub closed spec fn spec_self_party(&self) -> PartyID {
        self.self_party
    }

    /// The arguments the session is created with.
    pub closed spec fn spec_session_args(&self) -> Args {
        self.session_args
    }

    /// The configuration the session is created with.
    pub closed spec fn spec_session_config(&self) -> SessionConfig {
        self.session_config
    }

    /// The context handed to the multicast bus.
    pub closed spec fn spec_ctx(&self) -> Ctx {
        self.ctx
    }

    /// Builds the component from its configuration and parameters; every
    /// part lands where the configuration and parameters put it.
    pub fn create(
        config: MulticastClientConfig<SessionConfig, PartyID, Bus>,
        param: MulticastClientParam<Ctx, Args>,
    ) -> (res: Self)
        ensures
            res.spec_self_party() == config.spec_self_party(),
            res.spec_config() == config.spec_multicast(),
            res.spec_session_config() == config.spec_session(),
            res.spec_session_args() == param.spec_session_args(),
            res.spec_ctx() == param.spec_ctx(),
    {
        let (self_party, config, session_config) = config.take();
        let MulticastClientParam { ctx, session_args } = param;
        MulticastClientComponent {
            config: config,
            self_party: self_party,
            session_args: session_args,
            session_config: session_config,
            ctx: ctx,
        }
    }
}

/// The types that pass through the start-up of a multicast client
/// component: what it starts from, what each step creates, and what each
/// step can fail with.
pub trait MulticastStartTypes {
    type SessionConfig;
    type SessionArgs;
    type BusConfig;
    type Party;
    type Ctx;
    type Session;
    type Recv;
    type Msgs;
    type Bus;
    type Parties;
    type SessionCleanup;
    type BusCleanup;
    type SessionCreateError;
    type BusCreateError;
    type SessionStartError;
}

/// A step of starting a multicast client component, in the order in
/// which they are taken.
#[derive(Clone, Copy, Debug, PartialEq, Eq, Structural)]
pub enum MulticastStartStep {
    /// Create the session from its configuration and arguments.
    CreateSession,
    /// Create the multicast bus, handing it the session's receiver and
    /// messages.
    CreateBus,
    /// Ask the multicast bus for the stream parties.
    ListParties,
    /// Start the session with the stream parties.
    StartSession,
    /// Start the multicast bus.
    StartBus,
}

/// Where the start-up of a multicast client component stands, with what
/// it holds for the steps still to come.
pub enum MulticastStartState<T: MulticastStartTypes> {
    /// The session is being created; the bus is to be created from these.
    CreatingSession { bus_config: T::BusConfig, self_party: Option<T::Party>, ctx: T::Ctx },
    /// The bus is being created; the session waits to be started.
    CreatingBus { session: T::Session },
    /// The bus lists its parties; the session waits to be started.
    ListingParties { session: T::Session },
    /// The session is being started; the bus waits to be started.
    StartingSession { bus: T::Bus },
    /// The bus is being started; the session's clean-up is kept.
    StartingBus { session_cleanup: T::SessionCleanup },
    /// Every step succeeded: the component runs.
    Started,
    /// A step failed: the component did not start.
    Failed,
}

/// The outcome of a start-up step, with what the step created.
pub enum MulticastStartEvent<T: MulticastStartTypes> {
    SessionCreated(T::Session, T::Recv, T::Msgs),
    SessionCreateFailed(T::SessionCreateError),
    BusCreated(T::Bus),
    BusCreateFailed(T::BusCreateError),
    /// The bus, given back, and the parties it listed.
    PartiesListed(T::Bus, T::Parties),
    SessionStarted(T::SessionCleanup),
    SessionStartFailed(T::SessionStartError),
    BusStarted(T::BusCleanup),
    BusStartFailed(std::io::Error),
}

/// What to do next: take a step with the given values, or finish with the
/// start-up's result (the session's and the bus's clean-ups on success).
pub enum MulticastStartAction<T: MulticastStartTypes> {
    CreateSession { session_config: T::SessionConfig, args: T::SessionArgs },
    CreateBus {
        bus_config: T::BusConfig,
        self_party: Option<T::Party>,
        ctx: T::Ctx,
        recv: T::Recv,
        msgs: T::Msgs,
    },
    ListParties { bus: T::Bus },
    StartSession { session: T::Session, parties: T::Parties },
    StartBus { bus: T::Bus },
    Finish(
        Result<
            (T::SessionCleanup, T::BusCleanup),
            MulticastClientComponentRunError<
                T::SessionCreateError,
                T::BusCreateError,
                T::SessionStartError,
            >,
        >,
    ),
}

/// The steps of starting a multicast client component, in order.
pub open spec fn multicast_start_order() -> Seq<MulticastStartStep> {
    seq![
        MulticastStartStep::CreateSession,
        MulticastStartStep::CreateBus,
        MulticastStartStep::ListParties,
        MulticastStartStep::StartSession,
        MulticastStartStep::StartBus,
    ]
}

impl MulticastStartStep {
    /// The step taken after this one, if any.
    pub open spec fn successor(self) -> Option<MulticastStartStep> {
        match self {
            MulticastStartStep::CreateSession => Some(MulticastStartStep::CreateBus),
            MulticastStartStep::CreateBus => Some(MulticastStartStep::ListParties),
            MulticastStartStep::ListParties => Some(MulticastStartStep::StartSession),
            MulticastStartStep::StartSession => Some(MulticastStartStep::StartBus),
            MulticastStartStep::StartBus => None,
        }
    }
}

impl<T: MulticastStartTypes> MulticastStartState<T> {
    /// The step whose outcome the start-up awaits; `None` once finished.
    pub open spec fn awaiting(self) -> Option<MulticastStartStep> {
        match self {
            MulticastStartState::CreatingSession { .. } => Some(MulticastStartStep::CreateSession),
            MulticastStartState::CreatingBus { .. } => Some(MulticastStartStep::CreateBus),
            MulticastStartState::ListingParties { .. } => Some(MulticastStartStep::ListParties),
            MulticastStartState::StartingSession { .. } => Some(MulticastStartStep::StartSession),
            MulticastStartState::StartingBus { .. } => Some(MulticastStartStep::StartBus),
            MulticastStartState::Started => None,
            MulticastStartState::Failed => None,
        }
    }

    /// Whether the start-up, standing here, takes the given outcome: only
    /// the outcome of the step it awaits.
    pub open spec fn spec_accepts(self, event: MulticastStartEvent<T>) -> bool {
        self.awaiting() == Some(event.step())
    }

    /// Whether the start-up takes the given outcome now.
    pub fn accepts(&self, event: &MulticastStartEvent<T>) -> (res: bool)
        ensures
            res == self.spec_accepts(*event),
    {
        let step = match event {
            MulticastStartEvent::SessionCreated(..) => MulticastStartStep::CreateSession,
            MulticastStartEvent::SessionCreateFailed(_) => MulticastStartStep::CreateSession,
            MulticastStartEvent::BusCreated(_) => MulticastStartStep::CreateBus,
            MulticastStartEvent::BusCreateFailed(_) => MulticastStartStep::CreateBus,
            MulticastStartEvent::PartiesListed(..) => MulticastStartStep::ListParties,
            MulticastStartEvent::SessionStarted(_) => MulticastStartStep::StartSession,
            MulticastStartEvent::SessionStartFailed(_) => MulticastStartStep::StartSession,
            MulticastStartEvent::BusStarted(_) => MulticastStartStep::StartBus,
            MulticastStartEvent::BusStartFailed(_) => MulticastStartStep::StartBus,
        };
        match self {
            MulticastStartState::CreatingSession { .. } => step == MulticastStartStep::CreateSession,
            MulticastStartState::CreatingBus { .. } => step == MulticastStartStep::CreateBus,
            MulticastStartState::ListingParties { .. } => step == MulticastStartStep::ListParties,
            MulticastStartState::StartingSession { .. } => step == MulticastStartStep::StartSession,
            MulticastStartState::StartingBus { .. } => step == MulticastStartStep::StartBus,
            MulticastStartState::Started => false,
            MulticastStartState::Failed => false,
        }
    }
}

impl<T: MulticastStartTypes> MulticastStartEvent<T> {
    /// The step whose outcome this event reports.
    pub open spec fn step(self) -> MulticastStartStep {
        match self {
            MulticastStartEvent::SessionCreated(..) => MulticastStartStep::CreateSession,
            MulticastStartEvent::SessionCreateFailed(_) => MulticastStartStep::CreateSession,
            MulticastStartEvent::BusCreated(_) => MulticastStartStep::CreateBus,
            MulticastStartEvent::BusCreateFailed(_) => MulticastStartStep::CreateBus,
            MulticastStartEvent::PartiesListed(..) => MulticastStartStep::ListParties,
            MulticastStartEvent::SessionStarted(_) => MulticastStartStep::StartSession,
            MulticastStartEvent::SessionStartFailed(_) => MulticastStartStep::StartSession,
            MulticastStartEvent::BusStarted(_) => MulticastStartStep::StartBus,
            MulticastStartEvent::BusStartFailed(_) => MulticastStartStep::StartBus,
        }
    }

    /// The start-up error that a failed step is reported as; `None` when
    /// the step succeeded.
    pub open spec fn failure(self) -> Option<
        MulticastClientComponentRunError<T::SessionCreateError, T::BusCreateError, T::SessionStartError>,
    > {
        match self {
            MulticastStartEvent::SessionCreateFailed(err) => Some(
                MulticastClientComponentRunError::Session { err },
            ),
            MulticastStartEvent::BusCreateFailed(err) => Some(
                MulticastClientComponentRunError::Multicast { err },
            ),
            MulticastStartEvent::SessionStartFailed(err) => Some(
                MulticastClientComponentRunError::Start { err },
            ),
            MulticastStartEvent::BusStartFailed(err) => Some(
                MulticastClientComponentRunError::IO { err },
            ),
            _ => None,
        }
    }
}

impl<T: MulticastStartTypes> MulticastStartAction<T> {
    /// The step this action asks for; `None` when it finishes the start-up.
    pub open spec fn performs(self) -> Option<MulticastStartStep> {
        match self {
            MulticastStartAction::CreateSession { .. } => Some(MulticastStartStep::CreateSession),
            MulticastStartAction::CreateBus { .. } => Some(MulticastStartStep::CreateBus),
            MulticastStartAction::ListParties { .. } => Some(MulticastStartStep::ListParties),
            MulticastStartAction::StartSession { .. } => Some(MulticastStartStep::StartSession),
            MulticastStartAction::StartBus { .. } => Some(MulticastStartStep::StartBus),
            MulticastStartAction::Finish(_) => None,
        }
    }
}

/// Where the start-up of the given component begins: the session is
/// created from the component's session configuration and arguments,
/// while the bus configuration, this node's party (always given) and the
/// context are kept for creating the bus.
pub open spec fn multicast_start_initial<T: MulticastStartTypes>(
    component: MulticastClientComponent<T::SessionConfig, T::Party, T::BusConfig, T::SessionArgs, T::Ctx>,
) -> (MulticastStartState<T>, MulticastStartAction<T>) {
    (
        MulticastStartState::CreatingSession {
            bus_config: component.spec_config(),
            self_party: Some(component.spec_self_party()),
            ctx: component.spec_ctx(),
        },
        MulticastStartAction::CreateSession {
            session_config: component.spec_session_config(),
            args: component.spec_session_args(),
        },
    )
}

/// The decision taken on the outcome of the awaited step.  A failure ends
/// the start-up with the error it maps to.  A success passes on what the
/// step created: the session's receiver and messages go to the bus's
/// creation, the created bus is asked for its parties, the session is
/// started with exactly those parties, the bus given back is started, and
/// the two clean-ups make the start-up's result.
pub open spec fn multicast_start_next_spec<T: MulticastStartTypes>(
    state: MulticastStartState<T>,
    event: MulticastStartEvent<T>,
) -> (MulticastStartState<T>, MulticastStartAction<T>) {
    match event.failure() {
        Some(err) => (MulticastStartState::Failed, MulticastStartAction::Finish(Err(err))),
        None => match (state, event) {
            (
                MulticastStartState::CreatingSession { bus_config, self_party, ctx },
                MulticastStartEvent::SessionCreated(session, recv, msgs),
            ) => (
                MulticastStartState::CreatingBus { session },
                MulticastStartAction::CreateBus { bus_config, self_party, ctx, recv, msgs },
            ),
            (
                MulticastStartState::CreatingBus { session },
                MulticastStartEvent::BusCreated(bus),
            ) => (MulticastStartState::ListingParties { session }, MulticastStartAction::ListParties { bus }),
            (
                MulticastStartState::ListingParties { session },
                MulticastStartEvent::PartiesListed(bus, parties),
            ) => (
                MulticastStartState::StartingSession { bus },
                MulticastStartAction::StartSession { session, parties },
            ),
            (
                MulticastStartState::StartingSession { bus },
                MulticastStartEvent::SessionStarted(session_cleanup),
            ) => (MulticastStartState::StartingBus { session_cleanup }, MulticastStartAction::StartBus { bus }),
            (
                MulticastStartState::StartingBus { session_cleanup },
                MulticastStartEvent::BusStarted(bus_cleanup),
            ) => (MulticastStartState::Started, MulticastStartAction::Finish(Ok((session_cleanup, bus_cleanup)))),
            _ => arbitrary(),
        },
    }
}

/// The state and action reached from the beginning of the component's
/// start-up after the given outcomes, each taken in turn.
pub open spec fn multicast_start_run<T: MulticastStartTypes>(
    component: MulticastClientComponent<T::SessionConfig, T::Party, T::BusConfig, T::SessionArgs, T::Ctx>,
    events: Seq<MulticastStartEvent<T>>,
) -> (MulticastStartState<T>, MulticastStartAction<T>)
    decreases events.len(),
{
    if events.len() == 0 {
        multicast_start_initial::<T>(component)
    } else {
        multicast_start_next_spec(multicast_start_run(component, events.drop_last()).0, events.last())
    }
}

/// Whether every one of the outcomes is the outcome of the step that the
/// start-up awaits when it comes.
pub open spec fn multicast_start_accepted<T: MulticastStartTypes>(
    component: MulticastClientComponent<T::SessionConfig, T::Party, T::BusConfig, T::SessionArgs, T::Ctx>,
    events: Seq<MulticastStartEvent<T>>,
) -> bool {
    forall|i: int|
        0 <= i < events.len() ==> (#[trigger] multicast_start_run(component, events.take(i))).0.spec_accepts(
            events[i],
        )
}

/// On an outcome that the start-up takes: a failure ends it with the error
/// the failure maps to; a success leads to awaiting, and asking for, the
/// following step, or, after the last step, ends it successfully.
proof fn lemma_multicast_start_next_shape<T: MulticastStartTypes>(
    state: MulticastStartState<T>,
    event: MulticastStartEvent<T>,
)
    requires
        state.spec_accepts(event),
    ensures
        event.failure() matches Some(err) ==> multicast_start_next_spec(state, event) == (
            MulticastStartState::<T>::Failed,
            MulticastStartAction::<T>::Finish(Err(err)),
        ),
        event.failure() is None && event.step().successor() is Some ==> multicast_start_next_spec(
            state,
            event,
        ).0.awaiting() == event.step().successor() && multicast_start_next_spec(state, event).1.performs()
            == event.step().successor(),
        event.failure() is None && event.step().successor() is None ==> multicast_start_next_spec(
            state,
            event,
        ).0 is Started && multicast_start_next_spec(state, event).1 matches MulticastStartAction::Finish(
            Ok(_),
        ),
{
}

/// Starting a multicast client component takes its steps in the fixed
/// order (create the session, create the bus, list the parties, start the
/// session, start the bus), stops at the first step that fails, and ends
/// with that step's error; it succeeds exactly when every step succeeded.
pub proof fn lemma_multicast_start_run<T: MulticastStartTypes>(
    component: MulticastClientComponent<T::SessionConfig, T::Party, T::BusConfig, T::SessionArgs, T::Ctx>,
    events: Seq<MulticastStartEvent<T>>,
)
    requires
        multicast_start_accepted(component, events),
    ensures
        events.len() <= multicast_start_order().len(),
        forall|i: int| 0 <= i < events.len() ==> #[trigger] events[i].step() == multicast_start_order()[i],
        forall|i: int| 0 <= i < events.len() - 1 ==> (#[trigger] events[i]).failure() is None,
        events.len() == 0 ==> multicast_start_run(component, events) == multicast_start_initial::<T>(component),
        events.len() > 0 && events.last().failure() is Some ==> multicast_start_run(component, events) == (
            MulticastStartState::<T>::Failed,
            MulticastStartAction::<T>::Finish(Err(events.last().failure().unwrap())),
        ),
        events.len() == multicast_start_order().len() && events.last().failure() is None ==> {
            &&& multicast_start_run(component, events).0 is Started
            &&& multicast_start_run(component, events).1 matches MulticastStartAction::Finish(Ok(_))
        },
        0 < events.len() < multicast_start_order().len() && events.last().failure() is None ==> {
            &&& multicast_start_run(component, events).0.awaiting() == Some(
                multicast_start_order()[events.len() as int],
            )
            &&& multicast_start_run(component, events).1.performs() == Some(
                multicast_start_order()[events.len() as int],
            )
        },
    decreases events.len(),
{
    if events.len() > 0 {
        let prefix = events.drop_last();
        assert forall|i: int| 0 <= i < prefix.len() implies (#[trigger] multicast_start_run(
            component,
            prefix.take(i),
        )).0.spec_accepts(prefix[i]) by {
            assert(prefix.take(i) =~= events.take(i));
            assert(multicast_start_run(component, events.take(i)).0.spec_accepts(events[i]));
        }
        lemma_multicast_start_run(component, prefix);
        let n = prefix.len() as int;
        assert(events.take(n) =~= prefix);
        assert(multicast_start_run(component, events.take(n)).0.spec_accepts(events[n]));
        lemma_multicast_start_next_shape(multicast_start_run(component, prefix).0, events[n]);
        assert forall|i: int| 0 <= i < events.len() implies #[trigger] events[i].step()
            == multicast_start_order()[i] by {
            if i < n {
                assert(prefix[i] == events[i]);
            }
        }
        assert forall|i: int| 0 <= i < events.len() - 1 implies (#[trigger] events[i]).failure() is None by {
            assert(prefix[i] == events[i]);
        }
    }
}

/// When every step succeeds, each step is handed exactly what the earlier
/// steps created: the bus is created from the component's bus
/// configuration, party and context with the session's own receiver and
/// messages; the created bus is asked for its parties; the session is
/// started with exactly the parties listed; the bus given back is started;
/// and the start-up ends with the session's and the bus's clean-ups.
pub proof fn lemma_multicast_start_passes_values<T: MulticastStartTypes>(
    component: MulticastClientComponent<T::SessionConfig, T::Party, T::BusConfig, T::SessionArgs, T::Ctx>,
    session: T::Session,
    recv: T::Recv,
    msgs: T::Msgs,
    bus: T::Bus,
    listed_bus: T::Bus,
    parties: T::Parties,
    session_cleanup: T::SessionCleanup,
    bus_cleanup: T::BusCleanup,
)
    ensures
        ({
            let e0 = MulticastStartEvent::<T>::SessionCreated(session, recv, msgs);
            let e1 = MulticastStartEvent::<T>::BusCreated(bus);
            let e2 = MulticastStartEvent::<T>::PartiesListed(listed_bus, parties);
            let e3 = MulticastStartEvent::<T>::SessionStarted(session_cleanup);
            let e4 = MulticastStartEvent::<T>::BusStarted(bus_cleanup);
            &&& multicast_start_accepted(component, seq![e0, e1, e2, e3, e4])
            &&& multicast_start_run::<T>(component, Seq::empty()).1 == MulticastStartAction::<T>::CreateSession {
                session_config: component.spec_session_config(),
                args: component.spec_session_args(),
            }
            &&& multicast_start_run(component, seq![e0]).1 == MulticastStartAction::<T>::CreateBus {
                bus_config: component.spec_config(),
                self_party: Some(component.spec_self_party()),
                ctx: component.spec_ctx(),
                recv,
                msgs,
            }
            &&& multicast_start_run(component, seq![e0, e1]).1 == MulticastStartAction::<T>::ListParties {
                bus,
            }
            &&& multicast_start_run(component, seq![e0, e1, e2]).1
                == MulticastStartAction::<T>::StartSession { session, parties }
            &&& multicast_start_run(component, seq![e0, e1, e2, e3]).1
                == MulticastStartAction::<T>::StartBus { bus: listed_bus }
            &&& multicast_start_run(component, seq![e0, e1, e2, e3, e4]) == (
                MulticastStartState::<T>::Started,
                MulticastStartAction::<T>::Finish(Ok((session_cleanup, bus_cleanup))),
            )
        }),
{
    let e0 = MulticastStartEvent::<T>::SessionCreated(session, recv, msgs);
    let e1 = MulticastStartEvent::<T>::BusCreated(bus);
    let e2 = MulticastStartEvent::<T>::PartiesListed(listed_bus, parties);
    let e3 = MulticastStartEvent::<T>::SessionStarted(session_cleanup);
    let e4 = MulticastStartEvent::<T>::BusStarted(bus_cleanup);
    let s1 = seq![e0];
    let s2 = seq![e0, e1];
    let s3 = seq![e0, e1, e2];
    let s4 = seq![e0, e1, e2, e3];
    let s5 = seq![e0, e1, e2, e3, e4];
    assert(s1.drop_last() =~= Seq::<MulticastStartEvent<T>>::empty());
    assert(s2.drop_last() =~= s1);
    assert(s3.drop_last() =~= s2);
    assert(s4.drop_last() =~= s3);
    assert(s5.drop_last() =~= s4);
    assert(s5.take(0) =~= Seq::<MulticastStartEvent<T>>::empty());
    assert(s5.take(1) =~= s1);
    assert(s5.take(2) =~= s2);
    assert(s5.take(3) =~= s3);
    assert(s5.take(4) =~= s4);
    assert forall|i: int| 0 <= i < s5.len() implies (#[trigger] multicast_start_run(
        component,
        s5.take(i),
    )).0.spec_accepts(s5[i]) by {
        if i == 0 {
        } else if i == 1 {
        } else if i == 2 {
        } else if i == 3 {
        } else {
        }
    }
}

/// Once the start-up has finished, successfully or not, it takes no
/// further outcome; and no outcome it takes ever ends it with
/// `SkippedIdx`.
pub proof fn lemma_multicast_start_finish_is_final<T: MulticastStartTypes>(
    state: MulticastStartState<T>,
    event: MulticastStartEvent<T>,
)
    ensures
        state is Started || state is Failed ==> !state.spec_accepts(event),
        state.spec_accepts(event) ==> !(multicast_start_next_spec(state, event).1 matches MulticastStartAction::Finish(
            Err(MulticastClientComponentRunError::SkippedIdx),
        )),
{
}

/// Begins the start-up of the component: asks for the session to be
/// created from its configuration and arguments, and keeps what the bus
/// is to be created from.
pub fn multicast_start_begin<T: MulticastStartTypes>(
    component: MulticastClientComponent<T::SessionConfig, T::Party, T::BusConfig, T::SessionArgs, T::Ctx>,
) -> (res: (MulticastStartState<T>, MulticastStartAction<T>))
    ensures
        res == multicast_start_initial::<T>(component),
{
    let MulticastClientComponent { config, self_party, session_args, session_config, ctx } =
        component;
    (
        MulticastStartState::CreatingSession { bus_config: config, self_party: Some(self_party), ctx },
        MulticastStartAction::CreateSession { session_config, args: session_args },
    )
}

/// Decides what follows the outcome of the awaited step.
pub fn multicast_start_next<T: MulticastStartTypes>(
    state: MulticastStartState<T>,
    event: MulticastStartEvent<T>,
) -> (res: (MulticastStartState<T>, MulticastStartAction<T>))
    requires
        state.spec_accepts(event),
    ensures
        res == multicast_start_next_spec(state, event),
{
    match state {
        MulticastStartState::CreatingSession { bus_config, self_party, ctx } => match event {
            MulticastStartEvent::SessionCreated(session, recv, msgs) => (
                MulticastStartState::CreatingBus { session },
                MulticastStartAction::CreateBus { bus_config, self_party, ctx, recv, msgs },
            ),
            MulticastStartEvent::SessionCreateFailed(err) => (
                MulticastStartState::Failed,
                MulticastStartAction::Finish(Err(MulticastClientComponentRunError::Session { err })),
            ),
            _ => unreached(),
        },
        MulticastStartState::CreatingBus { session } => match event {
            MulticastStartEvent::BusCreated(bus) => (
                MulticastStartState::ListingParties { session },
                MulticastStartAction::ListParties { bus },
            ),
            MulticastStartEvent::BusCreateFailed(err) => (
                MulticastStartState::Failed,
                MulticastStartAction::Finish(Err(MulticastClientComponentRunError::Multicast { err })),
            ),
            _ => unreached(),
        },
        MulticastStartState::ListingParties { session } => match event {
            MulticastStartEvent::PartiesListed(bus, parties) => (
                MulticastStartState::StartingSession { bus },
                MulticastStartAction::StartSession { session, parties },
            ),
            _ => unreached(),
        },
        MulticastStartState::StartingSession { bus } => match event {
            MulticastStartEvent::SessionStarted(session_cleanup) => (
                MulticastStartState::StartingBus { session_cleanup },
                MulticastStartAction::StartBus { bus },
            ),
            MulticastStartEvent::SessionStartFailed(err) => (
                MulticastStartState::Failed,
                MulticastStartAction::Finish(Err(MulticastClientComponentRunError::Start { err })),
            ),
            _ => unreached(),
        },
        MulticastStartState::StartingBus { session_cleanup } => match event {
            MulticastStartEvent::BusStarted(bus_cleanup) => (
                MulticastStartState::Started,
                MulticastStartAction::Finish(Ok((session_cleanup, bus_cleanup))),
            ),
            MulticastStartEvent::BusStartFailed(err) => (
                MulticastStartState::Failed,
                MulticastStartAction::Finish(Err(MulticastClientComponentRunError::IO { err })),
            ),
            _ => unreached(),
        },
        MulticastStartState::Started => unreached(),
        MulticastStartState::Failed => unreached(),
    }
}

/// The order in which a running multicast client component is torn down:
/// the multicast bus, then the session.  Its shutdown flag is not raised.
pub fn multicast_cleanup_steps() -> (res: Vec<CleanupStep>)
    ensures
        res@ == seq![CleanupStep::CleanupBus, CleanupStep::CleanupSession],
{
    vec![CleanupStep::CleanupBus, CleanupStep::CleanupSession]
}

} // verus!
