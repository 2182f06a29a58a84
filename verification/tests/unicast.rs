use constellation_client::component::unicast::unicast_cleanup_steps;
use constellation_client::component::unicast::unicast_start_begin;
use constellation_client::component::unicast::unicast_start_next;
use constellation_client::component::unicast::UnicastClientComponent;
use constellation_client::component::unicast::UnicastClientComponentRunError;
use constellation_client::component::unicast::UnicastClientParam;
use constellation_client::component::unicast::UnicastStartAction;
use constellation_client::component::unicast::UnicastStartEvent;
use constellation_client::component::unicast::UnicastStartState;
use constellation_client::component::unicast::UnicastStartTypes;
use constellation_client::component::CleanupStep;
use constellation_client::config::UnicastClientConfig;

struct Plain;

impl UnicastStartTypes for Plain {
    type SessionConfig = String;
    type SessionArgs = Vec<u16>;
    type BusConfig = (u8, u8);
    type Ctx = char;
    type Session = &'static str;
    type Recv = u32;
    type Msgs = u64;
    type Bus = i32;
    type SessionCleanup = &'static str;
    type BusCleanup = i64;
    type SessionCreateError = &'static str;
    type BusCreateError = u32;
    type SessionStartError = char;
}

type Event = UnicastStartEvent<Plain>;
type Action = UnicastStartAction<Plain>;

fn component() -> UnicastClientComponent<String, (u8, u8), Vec<u16>, char> {
    let config = UnicastClientConfig::new((1u8, 2u8), String::from("sess"));
    let param = UnicastClientParam::new(vec![5u16], 'c');
    match UnicastClientComponent::create(config, param) {
        Ok(component) => component,
        Err(never) => match never {},
    }
}

/// Feeds the outcomes one by one, recording every action asked for.
fn drive(events: Vec<Event>) -> (UnicastStartState<Plain>, Vec<Action>) {
    let (mut state, action) = unicast_start_begin::<Plain>(component());
    let mut actions = vec![action];
    for event in events {
        assert!(state.accepts(&event));
        let (s, a) = unicast_start_next(state, event);
        state = s;
        actions.push(a);
    }
    (state, actions)
}

#[test]
fn unicast_param_and_create_place_every_part() {
    let (state, action) = unicast_start_begin::<Plain>(component());
    match action {
        UnicastStartAction::CreateSession { session_config, args } => {
            assert_eq!(session_config, "sess");
            assert_eq!(args, vec![5u16]);
        }
        _ => panic!("the start-up must begin by creating the session"),
    }
    match state {
        UnicastStartState::CreatingSession { bus_config, ctx } => {
            assert_eq!(bus_config, (1u8, 2u8));
            assert_eq!(ctx, 'c');
        }
        _ => panic!("the start-up must await the session's creation"),
    }
}

#[test]
fn unicast_start_passes_each_created_value_on() {
    let (state, actions) = drive(vec![
        UnicastStartEvent::SessionCreated("session", 11, 12),
        UnicastStartEvent::BusCreated(21),
        UnicastStartEvent::SessionStarted("session-cleanup"),
        UnicastStartEvent::BusStarted(31),
    ]);
    assert!(matches!(state, UnicastStartState::Started));
    let mut actions = actions.into_iter();
    assert!(matches!(actions.next(), Some(UnicastStartAction::CreateSession { .. })));
    match actions.next() {
        Some(UnicastStartAction::CreateBus { bus_config, ctx, recv, msgs }) => {
            assert_eq!(bus_config, (1u8, 2u8));
            assert_eq!(ctx, 'c');
            assert_eq!(recv, 11);
            assert_eq!(msgs, 12);
        }
        _ => panic!("expected the bus to be created"),
    }
    assert!(matches!(actions.next(), Some(UnicastStartAction::StartSession { session: "session" })));
    assert!(matches!(actions.next(), Some(UnicastStartAction::StartBus { bus: 21 })));
    assert!(matches!(
        actions.next(),
        Some(UnicastStartAction::Finish(Ok(("session-cleanup", 31))))
    ));
    assert!(actions.next().is_none());
}

#[test]
fn unicast_session_create_failure_is_a_session_error() {
    let (state, actions) = drive(vec![UnicastStartEvent::SessionCreateFailed("no config")]);
    assert!(matches!(state, UnicastStartState::Failed));
    assert!(matches!(
        actions.last(),
        Some(UnicastStartAction::Finish(Err(UnicastClientComponentRunError::Session { err: "no config" })))
    ));
    assert_eq!(actions.len(), 2);
}

#[test]
fn unicast_bus_create_failure_is_a_unicast_error() {
    let (state, actions) = drive(vec![
        UnicastStartEvent::SessionCreated("session", 1, 2),
        UnicastStartEvent::BusCreateFailed(42),
    ]);
    assert!(matches!(state, UnicastStartState::Failed));
    assert!(matches!(
        actions.last(),
        Some(UnicastStartAction::Finish(Err(UnicastClientComponentRunError::Unicast { err: 42 })))
    ));
}

#[test]
fn unicast_session_start_failure_is_a_start_error() {
    let (state, actions) = drive(vec![
        UnicastStartEvent::SessionCreated("session", 1, 2),
        UnicastStartEvent::BusCreated(3),
        UnicastStartEvent::SessionStartFailed('x'),
    ]);
    assert!(matches!(state, UnicastStartState::Failed));
    assert!(matches!(
        actions.last(),
        Some(UnicastStartAction::Finish(Err(UnicastClientComponentRunError::Start { err: 'x' })))
    ));
}

#[test]
fn unicast_bus_start_failure_is_an_io_error() {
    let (state, mut actions) = drive(vec![
        UnicastStartEvent::SessionCreated("session", 1, 2),
        UnicastStartEvent::BusCreated(3),
        UnicastStartEvent::SessionStarted("cleanup"),
        UnicastStartEvent::BusStartFailed(std::io::Error::new(std::io::ErrorKind::AddrInUse, "taken")),
    ]);
    assert!(matches!(state, UnicastStartState::Failed));
    match actions.pop() {
        Some(UnicastStartAction::Finish(Err(UnicastClientComponentRunError::IO { err }))) => {
            assert_eq!(err.kind(), std::io::ErrorKind::AddrInUse)
        }
        _ => panic!("expected an IO error"),
    }
}

#[test]
fn unicast_start_takes_only_the_awaited_outcome() {
    let (state, _) = unicast_start_begin::<Plain>(component());
    let bus: Event = UnicastStartEvent::BusCreated(1);
    let session: Event = UnicastStartEvent::SessionCreated("s", 1, 2);
    assert!(!state.accepts(&bus));
    assert!(state.accepts(&session));
    let done: Event = UnicastStartEvent::BusStarted(1);
    assert!(!UnicastStartState::<Plain>::Started.accepts(&done));
    assert!(!UnicastStartState::<Plain>::Failed.accepts(&session));
}

#[test]
fn unicast_error_fixed_message() {
    let skipped: UnicastClientComponentRunError<u8, u8, u8> = UnicastClientComponentRunError::SkippedIdx;
    assert_eq!(skipped.fixed_message(), Some("stream parties skipped an index"));
    let session: UnicastClientComponentRunError<u8, u8, u8> = UnicastClientComponentRunError::Session { err: 1 };
    assert_eq!(session.fixed_message(), None);
}

#[test]
fn unicast_cleanup_order() {
    assert_eq!(
        unicast_cleanup_steps(),
        vec![CleanupStep::SetShutdown, CleanupStep::CleanupBus, CleanupStep::CleanupSession]
    );
}
