use vstd::prelude::*;
use vstd::pervasive::arbitrary;
use vstd::pervasive::unreached;

use crate::component::CleanupStep;
use crate::config::UnicastClientConfig;
use std::convert::Infallible;

verus! {

/// What a unicast client component is created with besides its
/// configuration: the arguments for its session, and a context.
pub struct UnicastClientParam<Ctx, Args> {
    session_args: Args,
    ctx: Ctx,
}

impl<Ctx, Args> UnicastClientParam<Ctx, Args> {
    /// The arguments handed to the session when it is created.
    pub closed spec fn spec_session_args(&self) -> Args {
        self.session_args
    }

    /// The context handed to the unicast bus when it is created.
    pub closed spec fn spec_ctx(&self) -> Ctx {
        self.ctx
    }

    /// Builds the parameters from the session's arguments and the context.
    pub fn new(session_args: Args, ctx: Ctx) -> (res: Self)
        ensures
            res.spec_session_args() == session_args,
            res.spec_ctx() == ctx,
    {
        UnicastClientParam { session_args: session_args, ctx: ctx }
    }
}

/// Why a unicast client component failed to start.
#[derive(Debug)]
pub enum UnicastClientComponentRunError<Session, Unicast, Start> {
    /// The session could not be created.
    Session { err: Session },
    /// The unicast bus could not be created.
    Unicast { err: Unicast },
    /// The session could not be started.
    Start { err: Start },
    /// The unicast bus could not be started.
    IO { err: std::io::Error },
    /// The stream parties skipped an index.
    SkippedIdx,
}

impl<Session, Unicast, Start> UnicastClientComponentRunError<Session, Unicast, Start> {
    /// The message of an error whose text does not come from an inner
    /// error: `Some` exactly for `SkippedIdx`.  Every other variant is
    /// displayed as its inner error.
    pub fn fixed_message(&self) -> (res: Option<&'static str>)
        ensures
            self is SkippedIdx <==> res is Some,
            res matches Some(m) ==> m@ == "stream parties skipped an index"@,
    {
        match self {
            UnicastClientComponentRunError::SkippedIdx => Some("stream parties skipped an index"),
            _ => None,
        }
    }
}

/// A unicast client component, created and ready to start: the unicast
/// bus configuration and what its session is created from.
pub struct UnicastClientComponent<SessionConfig, Bus, Args, Ctx> {
    config: Bus,
    session_args: Args,
    session_config: SessionConfig,
    ctx: Ctx,
}

impl<SessionConfig, Bus, Args, Ctx> UnicastClientComponent<SessionConfig, Bus, Args, Ctx> {
    /// The unicast bus configuration.
    pub closed spec fn spec_config(&self) -> Bus {
        self.config
    }

    /// The arguments the session is created with.
    pub closed spec fn spec_session_args(&self) -> Args {
        self.session_args
    }

    /// The configuration the session is created with.
    pub closed spec fn spec_session_config(&self) -> SessionConfig {
        self.session_config
    }

    /// The context handed to the unicast bus.
    pub closed spec fn spec_ctx(&self) -> Ctx {
        self.ctx
    }

    /// Builds the component from its configuration and parameters; every
    /// part lands where the configuration and parameters put it.  Building
    /// never fails.
    pub fn create(
        config: UnicastClientConfig<SessionConfig, Bus>,
        param: UnicastClientParam<Ctx, Args>,
    ) -> (res: Result<Self, Infallible>)
        ensures
            res matches Ok(c) && c.spec_config() == config.spec_unicast()
                && c.spec_session_config() == config.spec_session()
                && c.spec_session_args() == param.spec_session_args()
                && c.spec_ctx() == param.spec_ctx(),
    {
        let (config, session_config) = config.take();
        let UnicastClientParam { ctx, session_args } = param;
        Ok(UnicastClientComponent {
            config: config,
            session_args: session_args,
            session_config: session_config,
            ctx: ctx,
        })
    }
}

/// The types that pass through the start-up of a unicast client
/// component: what it starts from, what each step creates, and what each
/// step can fail with.
pub trait UnicastStartTypes {
    type SessionConfig;
    type SessionArgs;
    type BusConfig;
    type Ctx;
    type Session;
    type Recv;
    type Msgs;
    type Bus;
    type SessionCleanup;
    type BusCleanup;
    type SessionCreateError;
    type BusCreateError;
    type SessionStartError;
}

/// A step of starting a unicast client component, in the order in
/// which they are taken.
#[derive(Clone, Copy, Debug, PartialEq, Eq, Structural)]
pub enum UnicastStartStep {
    /// Create the session from its configuration and arguments.
    CreateSession,
    /// Create the unicast bus, handing it the session's receiver and
    /// messages.
    CreateBus,
    /// Start the session.
    StartSession,
    /// Start the unicast bus.
    StartBus,
}

/// Where the start-up of a unicast client component stands, with what
/// it holds for the steps still to come.
pub enum UnicastStartState<T: UnicastStartTypes> {
    /// The session is being created; the bus is to be created from these.
    CreatingSession { bus_config: T::BusConfig, ctx: T::Ctx },
    /// The bus is being created; the session waits to be started.
    CreatingBus { session: T::Session },
    /// The session is being started; the bus waits to be started.
    StartingSession { bus: T::Bus },
    /// The bus is being started; the session's clean-up is kept.
    StartingBus { session_cleanup: T::SessionCleanup },
    /// Every step succeeded: the component runs.
    Started,
    /// A step failed: the component did not start.
    Failed,
}

/// The outcome of a start-up step, with what the step created.
pub enum UnicastStartEvent<T: UnicastStartTypes> {
    SessionCreated(T::Session, T::Recv, T::Msgs),
    SessionCreateFailed(T::SessionCreateError),
    BusCreated(T::Bus),
    BusCreateFailed(T::BusCreateError),
    SessionStarted(T::SessionCleanup),
    SessionStartFailed(T::SessionStartError),
    BusStarted(T::BusCleanup),
    BusStartFailed(std::io::Error),
}

/// What to do next: take a step with the given values, or finish with the
/// start-up's result (the session's and the bus's clean-ups on success).
pub enum UnicastStartAction<T: UnicastStartTypes> {
    CreateSession { session_config: T::SessionConfig, args: T::SessionArgs },
    CreateBus {
        bus_config: T::BusConfig,
        ctx: T::Ctx,
        recv: T::Recv,
        msgs: T::Msgs,
    },
    StartSession { session: T::Session },
    StartBus { bus: T::Bus },
    Finish(
        Result<
            (T::SessionCleanup, T::BusCleanup),
            UnicastClientComponentRunError<
                T::SessionCreateError,
                T::BusCreateError,
                T::SessionStartError,
            >,
        >,
    ),
}

/// The steps of starting a unicast client component, in order.
pub open spec fn unicast_start_order() -> Seq<UnicastStartStep> {
    seq![
        UnicastStartStep::CreateSession,
        UnicastStartStep::CreateBus,
        UnicastStartStep::StartSession,
        UnicastStartStep::StartBus,
    ]
}

impl UnicastStartStep {
    /// The step taken after this one, if any.
    pub open spec fn successor(self) -> Option<UnicastStartStep> {
        match self {
            UnicastStartStep::CreateSession => Some(UnicastStartStep::CreateBus),
            UnicastStartStep::CreateBus => Some(UnicastStartStep::StartSession),
            UnicastStartStep::StartSession => Some(UnicastStartStep::StartBus),
            UnicastStartStep::StartBus => None,
        }
    }
}

impl<T: UnicastStartTypes> UnicastStartState<T> {
    /// The step whose outcome the start-up awaits; `None` once finished.
    pub open spec fn awaiting(self) -> Option<UnicastStartStep> {
        match self {
            UnicastStartState::CreatingSession { .. } => Some(UnicastStartStep::CreateSession),
            UnicastStartState::CreatingBus { .. } => Some(UnicastStartStep::CreateBus),
            UnicastStartState::StartingSession { .. } => Some(UnicastStartStep::StartSession),
            UnicastStartState::StartingBus { .. } => Some(UnicastStartStep::StartBus),
            UnicastStartState::Started => None,
            UnicastStartState::Failed => None,
        }
    }

    /// Whether the start-up, standing here, takes the given outcome: only
    /// the outcome of the step it awaits.
    pub open spec fn spec_accepts(self, event: UnicastStartEvent<T>) -> bool {
        self.awaiting() == Some(event.step())
    }

    /// Whether the start-up takes the given outcome now.
    pub fn accepts(&self, event: &UnicastStartEvent<T>) -> (res: bool)
        ensures
            res == self.spec_accepts(*event),
    {
        let step = match event {
            UnicastStartEvent::SessionCreated(..) => UnicastStartStep::CreateSession,
            UnicastStartEvent::SessionCreateFailed(_) => UnicastStartStep::CreateSession,
            UnicastStartEvent::BusCreated(_) => UnicastStartStep::CreateBus,
            UnicastStartEvent::BusCreateFailed(_) => UnicastStartStep::CreateBus,
            UnicastStartEvent::SessionStarted(_) => UnicastStartStep::StartSession,
            UnicastStartEvent::SessionStartFailed(_) => UnicastStartStep::StartSession,
            UnicastStartEvent::BusStarted(_) => UnicastStartStep::StartBus,
            UnicastStartEvent::BusStartFailed(_) => UnicastStartStep::StartBus,
        };
        match self {
            UnicastStartState::CreatingSession { .. } => step == UnicastStartStep::CreateSession,
            UnicastStartState::CreatingBus { .. } => step == UnicastStartStep::CreateBus,
            UnicastStartState::StartingSession { .. } => step == UnicastStartStep::StartSession,
            UnicastStartState::StartingBus { .. } => step == UnicastStartStep::StartBus,
            UnicastStartState::Started => false,
            UnicastStartState::Failed => false,
        }
    }
}

impl<T: UnicastStartTypes> UnicastStartEvent<T> {
    /// The step whose outcome this event reports.
    pub open spec fn step(self) -> UnicastStartStep {
        match self {
            UnicastStartEvent::SessionCreated(..) => UnicastStartStep::CreateSession,
            UnicastStartEvent::SessionCreateFailed(_) => UnicastStartStep::CreateSession,
            UnicastStartEvent::BusCreated(_) => UnicastStartStep::CreateBus,
            UnicastStartEvent::BusCreateFailed(_) => UnicastStartStep::CreateBus,
            UnicastStartEvent::SessionStarted(_) => UnicastStartStep::StartSession,
            UnicastStartEvent::SessionStartFailed(_) => UnicastStartStep::StartSession,
            UnicastStartEvent::BusStarted(_) => UnicastStartStep::StartBus,
            UnicastStartEvent::BusStartFailed(_) => UnicastStartStep::StartBus,
        }
    }

    /// The start-up error that a failed step is reported as; `None` when
    /// the step succeeded.
    pub open spec fn failure(self) -> Option<
        UnicastClientComponentRunError<T::SessionCreateError, T::BusCreateError, T::SessionStartError>,
    > {
        match self {
            UnicastStartEvent::SessionCreateFailed(err) => Some(
                UnicastClientComponentRunError::Session { err },
            ),
            UnicastStartEvent::BusCreateFailed(err) => Some(
                UnicastClientComponentRunError::Unicast { err },
            ),
            UnicastStartEvent::SessionStartFailed(err) => Some(
                UnicastClientComponentRunError::Start { err },
            ),
            UnicastStartEvent::BusStartFailed(err) => Some(
                UnicastClientComponentRunError::IO { err },
            ),
            _ => None,
        }
    }
}

impl<T: UnicastStartTypes> UnicastStartAction<T> {
    /// The step this action asks for; `None` when it finishes the start-up.
    pub open spec fn performs(self) -> Option<UnicastStartStep> {
        match self {
            UnicastStartAction::CreateSession { .. } => Some(UnicastStartStep::CreateSession),
            UnicastStartAction::CreateBus { .. } => Some(UnicastStartStep::CreateBus),
            UnicastStartAction::StartSession { .. } => Some(UnicastStartStep::StartSession),
            UnicastStartAction::StartBus { .. } => Some(UnicastStartStep::StartBus),
            UnicastStartAction::Finish(_) => None,
        }
    }
}

/// Where the start-up of the given component begins: the session is
/// created from the component's session configuration and arguments,
/// while the bus configuration and the context are kept for creating the
/// bus.
pub open spec fn unicast_start_initial<T: UnicastStartTypes>(
    component: UnicastClientComponent<T::SessionConfig, T::BusConfig, T::SessionArgs, T::Ctx>,
) -> (UnicastStartState<T>, UnicastStartAction<T>) {
    (
        UnicastStartState::CreatingSession {
            bus_config: component.spec_config(),
            ctx: component.spec_ctx(),
        },
        UnicastStartAction::CreateSession {
            session_config: component.spec_session_config(),
            args: component.spec_session_args(),
        },
    )
}

/// The decision taken on the outcome of the awaited step.  A failure ends
/// the start-up with the error it maps to.  A success passes on what the
/// step created: the session's receiver and messages go to the bus's
/// creation, the session is started once the bus is created, the created
/// bus is started, and the two clean-ups make the start-up's result.
pub open spec fn unicast_start_next_spec<T: UnicastStartTypes>(
    state: UnicastStartState<T>,
    event: UnicastStartEvent<T>,
) -> (UnicastStartState<T>, UnicastStartAction<T>) {
    match event.failure() {
        Some(err) => (UnicastStartState::Failed, UnicastStartAction::Finish(Err(err))),
        None => match (state, event) {
            (
                UnicastStartState::CreatingSession { bus_config, ctx },
                UnicastStartEvent::SessionCreated(session, recv, msgs),
            ) => (
                UnicastStartState::CreatingBus { session },
                UnicastStartAction::CreateBus { bus_config, ctx, recv, msgs },
            ),
            (
                UnicastStartState::CreatingBus { session },
                UnicastStartEvent::BusCreated(bus),
            ) => (UnicastStartState::StartingSession { bus }, UnicastStartAction::StartSession { session }),
            (
                UnicastStartState::StartingSession { bus },
                UnicastStartEvent::SessionStarted(session_cleanup),
            ) => (UnicastStartState::StartingBus { session_cleanup }, UnicastStartAction::StartBus { bus }),
            (
                UnicastStartState::StartingBus { session_cleanup },
                UnicastStartEvent::BusStarted(bus_cleanup),
            ) => (UnicastStartState::Started, UnicastStartAction::Finish(Ok((session_cleanup, bus_cleanup)))),
            _ => arbitrary(),
        },
    }
}

/// The state and action reached from the beginning of the component's
/// start-up after the given outcomes, each taken in turn.
pub open spec fn unicast_start_run<T: UnicastStartTypes>(
    component: UnicastClientComponent<T::SessionConfig, T::BusConfig, T::SessionArgs, T::Ctx>,
    events: Seq<UnicastStartEvent<T>>,
) -> (UnicastStartState<T>, UnicastStartAction<T>)
    decreases events.len(),
{
    if events.len() == 0 {
        unicast_start_initial::<T>(component)
    } else {
        unicast_start_next_spec(unicast_start_run(component, events.drop_last()).0, events.last())
    }
}

/// Whether every one of the outcomes is the outcome of the step that the
/// start-up awaits when it comes.
pub open spec fn unicast_start_accepted<T: UnicastStartTypes>(
    component: UnicastClientComponent<T::SessionConfig, T::BusConfig, T::SessionArgs, T::Ctx>,
    events: Seq<UnicastStartEvent<T>>,
) -> bool {
    forall|i: int|
        0 <= i < events.len() ==> (#[trigger] unicast_start_run(component, events.take(i))).0.spec_accepts(
            events[i],
        )
}

/// On an outcome that the start-up takes: a failure ends it with the error
/// the failure maps to; a success leads to awaiting, and asking for, the
/// following step, or, after the last step, ends it successfully.
proof fn lemma_unicast_start_next_shape<T: UnicastStartTypes>(
    state: UnicastStartState<T>,
    event: UnicastStartEvent<T>,
)
    requires
        state.spec_accepts(event),
    ensures
        event.failure() matches Some(err) ==> unicast_start_next_spec(state, event) == (
            UnicastStartState::<T>::Failed,
            UnicastStartAction::<T>::Finish(Err(err)),
        ),
        event.failure() is None && event.step().successor() is Some ==> unicast_start_next_spec(
            state,
            event,
        ).0.awaiting() == event.step().successor() && unicast_start_next_spec(state, event).1.performs()
            == event.step().successor(),
        event.failure() is None && event.step().successor() is None ==> unicast_start_next_spec(
            state,
            event,
        ).0 is Started && unicast_start_next_spec(state, event).1 matches UnicastStartAction::Finish(
            Ok(_),
        ),
{
}

/// Starting a unicast client component takes its steps in the fixed
/// order (create the session, create the bus, start the session, start
/// the bus), stops at the first step that fails, and ends
/// with that step's error; it succeeds exactly when every step succeeded.
pub proof fn lemma_unicast_start_run<T: UnicastStartTypes>(
    component: UnicastClientComponent<T::SessionConfig, T::BusConfig, T::SessionArgs, T::Ctx>,
    events: Seq<UnicastStartEvent<T>>,
)
    requires
        unicast_start_accepted(component, events),
    ensures
        events.len() <= unicast_start_order().len(),
        forall|i: int| 0 <= i < events.len() ==> #[trigger] events[i].step() == unicast_start_order()[i],
        forall|i: int| 0 <= i < events.len() - 1 ==> (#[trigger] events[i]).failure() is None,
        events.len() == 0 ==> unicast_start_run(component, events) == unicast_start_initial::<T>(component),
        events.len() > 0 && events.last().failure() is Some ==> unicast_start_run(component, events) == (
            UnicastStartState::<T>::Failed,
            UnicastStartAction::<T>::Finish(Err(events.last().failure().unwrap())),
        ),
        events.len() == unicast_start_order().len() && events.last().failure() is None ==> {
            &&& unicast_start_run(component, events).0 is Started
            &&& unicast_start_run(component, events).1 matches UnicastStartAction::Finish(Ok(_))
        },
        0 < events.len() < unicast_start_order().len() && events.last().failure() is None ==> {
            &&& unicast_start_run(component, events).0.awaiting() == Some(
                unicast_start_order()[events.len() as int],
            )
            &&& unicast_start_run(component, events).1.performs() == Some(
                unicast_start_order()[events.len() as int],
            )
        },
    decreases events.len(),
{
    if events.len() > 0 {
        let prefix = events.drop_last();
        assert forall|i: int| 0 <= i < prefix.len() implies (#[trigger] unicast_start_run(
            component,
            prefix.take(i),
        )).0.spec_accepts(prefix[i]) by {
            assert(prefix.take(i) =~= events.take(i));
            assert(unicast_start_run(component, events.take(i)).0.spec_accepts(events[i]));
        }
        lemma_unicast_start_run(component, prefix);
        let n = prefix.len() as int;
        assert(events.take(n) =~= prefix);
        assert(unicast_start_run(component, events.take(n)).0.spec_accepts(events[n]));
        lemma_unicast_start_next_shape(unicast_start_run(component, prefix).0, events[n]);
        assert forall|i: int| 0 <= i < events.len() implies #[trigger] events[i].step()
            == unicast_start_order()[i] by {
            if i < n {
                assert(prefix[i] == events[i]);
            }
        }
        assert forall|i: int| 0 <= i < events.len() - 1 implies (#[trigger] events[i]).failure() is None by {
            assert(prefix[i] == events[i]);
        }
    }
}

/// When every step succeeds, each step is handed exactly what the earlier
/// steps created: the bus is created from the component's bus
/// configuration and context with the session's own receiver and
/// messages; the created session is started; the created bus is started;
/// and the start-up ends with the session's and the bus's clean-ups.
pub proof fn lemma_unicast_start_passes_values<T: UnicastStartTypes>(
    component: UnicastClientComponent<T::SessionConfig, T::BusConfig, T::SessionArgs, T::Ctx>,
    session: T::Session,
    recv: T::Recv,
    msgs: T::Msgs,
    bus: T::Bus,
    session_cleanup: T::SessionCleanup,
    bus_cleanup: T::BusCleanup,
)
    ensures
        ({
            let e0 = UnicastStartEvent::<T>::SessionCreated(session, recv, msgs);
            let e1 = UnicastStartEvent::<T>::BusCreated(bus);
            let e2 = UnicastStartEvent::<T>::SessionStarted(session_cleanup);
            let e3 = UnicastStartEvent::<T>::BusStarted(bus_cleanup);
            &&& unicast_start_accepted(component, seq![e0, e1, e2, e3])
            &&& unicast_start_run::<T>(component, Seq::empty()).1 == UnicastStartAction::<T>::CreateSession {
                session_config: component.spec_session_config(),
                args: component.spec_session_args(),
            }
            &&& unicast_start_run(component, seq![e0]).1 == UnicastStartAction::<T>::CreateBus {
                bus_config: component.spec_config(),
                ctx: component.spec_ctx(),
                recv,
                msgs,
            }
            &&& unicast_start_run(component, seq![e0, e1]).1 == UnicastStartAction::<T>::StartSession {
                session,
            }
            &&& unicast_start_run(component, seq![e0, e1, e2]).1 == UnicastStartAction::<T>::StartBus {
                bus,
            }
            &&& unicast_start_run(component, seq![e0, e1, e2, e3]) == (
                UnicastStartState::<T>::Started,
                UnicastStartAction::<T>::Finish(Ok((session_cleanup, bus_cleanup))),
            )
        }),
{
    let e0 = UnicastStartEvent::<T>::SessionCreated(session, recv, msgs);
    let e1 = UnicastStartEvent::<T>::BusCreated(bus);
    let e2 = UnicastStartEvent::<T>::SessionStarted(session_cleanup);
    let e3 = UnicastStartEvent::<T>::BusStarted(bus_cleanup);
    let s1 = seq![e0];
    let s2 = seq![e0, e1];
    let s3 = seq![e0, e1, e2];
    let s4 = seq![e0, e1, e2, e3];
    assert(s1.drop_last() =~= Seq::<UnicastStartEvent<T>>::empty());
    assert(s2.drop_last() =~= s1);
    assert(s3.drop_last() =~= s2);
    assert(s4.drop_last() =~= s3);
    assert(s4.take(0) =~= Seq::<UnicastStartEvent<T>>::empty());
    assert(s4.take(1) =~= s1);
    assert(s4.take(2) =~= s2);
    assert(s4.take(3) =~= s3);
    assert forall|i: int| 0 <= i < s4.len() implies (#[trigger] unicast_start_run(
        component,
        s4.take(i),
    )).0.spec_accepts(s4[i]) by {
        if i == 0 {
        } else if i == 1 {
        } else if i == 2 {
        } else {
        }
    }
}

/// Once the start-up has finished, successfully or not, it takes no
/// further outcome; and no outcome it takes ever ends it with
/// `SkippedIdx`.
pub proof fn lemma_unicast_start_finish_is_final<T: UnicastStartTypes>(
    state: UnicastStartState<T>,
    event: UnicastStartEvent<T>,
)
    ensures
        state is Started || state is Failed ==> !state.spec_accepts(event),
        state.spec_accepts(event) ==> !(unicast_start_next_spec(state, event).1 matches UnicastStartAction::Finish(
            Err(UnicastClientComponentRunError::SkippedIdx),
        )),
{
}

/// Begins the start-up of the component: asks for the session to be
/// created from its configuration and arguments, and keeps what the bus
/// is to be created from.
pub fn unicast_start_begin<T: UnicastStartTypes>(
    component: UnicastClientComponent<T::SessionConfig, T::BusConfig, T::SessionArgs, T::Ctx>,
) -> (res: (UnicastStartState<T>, UnicastStartAction<T>))
    ensures
        res == unicast_start_initial::<T>(component),
{
    let UnicastClientComponent { config, session_args, session_config, ctx } = component;
    (
        UnicastStartState::CreatingSession { bus_config: config, ctx },
        UnicastStartAction::CreateSession { session_config, args: session_args },
    )
}

/// Decides what follows the outcome of the awaited step.
pub fn unicast_start_next<T: UnicastStartTypes>(
    state: UnicastStartState<T>,
    event: UnicastStartEvent<T>,
) -> (res: (UnicastStartState<T>, UnicastStartAction<T>))
    requires
        state.spec_accepts(event),
    ensures
        res == unicast_start_next_spec(state, event),
{
    match state {
        UnicastStartState::CreatingSession { bus_config, ctx } => match event {
            UnicastStartEvent::SessionCreated(session, recv, msgs) => (
                UnicastStartState::CreatingBus { session },
                UnicastStartAction::CreateBus { bus_config, ctx, recv, msgs },
            ),
            UnicastStartEvent::SessionCreateFailed(err) => (
                UnicastStartState::Failed,
                UnicastStartAction::Finish(Err(UnicastClientComponentRunError::Session { err })),
            ),
            _ => unreached(),
        },
        UnicastStartState::CreatingBus { session } => match event {
            UnicastStartEvent::BusCreated(bus) => (
                UnicastStartState::StartingSession { bus },
                UnicastStartAction::StartSession { session },
            ),
            UnicastStartEvent::BusCreateFailed(err) => (
                UnicastStartState::Failed,
                UnicastStartAction::Finish(Err(UnicastClientComponentRunError::Unicast { err })),
            ),
            _ => unreached(),
        },
        UnicastStartState::StartingSession { bus } => match event {
            UnicastStartEvent::SessionStarted(session_cleanup) => (
                UnicastStartState::StartingBus { session_cleanup },
                UnicastStartAction::StartBus { bus },
            ),
            UnicastStartEvent::SessionStartFailed(err) => (
                UnicastStartState::Failed,
                UnicastStartAction::Finish(Err(UnicastClientComponentRunError::Start { err })),
            ),
            _ => unreached(),
        },
        UnicastStartState::StartingBus { session_cleanup } => match event {
            UnicastStartEvent::BusStarted(bus_cleanup) => (
                UnicastStartState::Started,
                UnicastStartAction::Finish(Ok((session_cleanup, bus_cleanup))),
            ),
            UnicastStartEvent::BusStartFailed(err) => (
                UnicastStartState::Failed,
                UnicastStartAction::Finish(Err(UnicastClientComponentRunError::IO { err })),
            ),
            _ => unreached(),
        },
        UnicastStartState::Started => unreached(),
        UnicastStartState::Failed => unreached(),
    }
}

/// The order in which a running unicast client component is torn down:
/// its shutdown flag is raised, then the unicast bus and then the session
/// are cleaned up.
pub fn unicast_cleanup_steps() -> (res: Vec<CleanupStep>)
    ensures
        res@ == seq![CleanupStep::SetShutdown, CleanupStep::CleanupBus, CleanupStep::CleanupSession],
{
    vec![CleanupStep::SetShutdown, CleanupStep::CleanupBus, CleanupStep::CleanupSession]
}

} // verus!
