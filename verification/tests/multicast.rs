use constellation_client::component::multicast::multicast_cleanup_steps;
use constellation_client::component::multicast::multicast_start_begin;
use constellation_client::component::multicast::multicast_start_next;
use constellation_client::component::multicast::MulticastClientComponent;
use constellation_client::component::multicast::MulticastClientComponentRunError;
use constellation_client::component::multicast::MulticastClientParam;
use constellation_client::component::multicast::MulticastStartAction;
use constellation_client::component::multicast::MulticastStartEvent;
use constellation_client::component::multicast::MulticastStartState;
use constellation_client::component::multicast::MulticastStartTypes;
use constellation_client::component::CleanupStep;
use constellation_client::config::MulticastClientConfig;

struct Plain;

impl MulticastStartTypes for Plain {
    type SessionConfig = String;
    type SessionArgs = Vec<u16>;
    type BusConfig = (u8, u8);
    type Party = String;
    type Ctx = char;
    type Session = &'static str;
    type Recv = u32;
    type Msgs = u64;
    type Bus = i32;
    type Parties = Vec<(usize, String)>;
    type SessionCleanup = &'static str;
    type BusCleanup = i64;
    type SessionCreateError = &'static str;
    type BusCreateError = u32;
    type SessionStartError = char;
}

type Event = MulticastStartEvent<Plain>;
type Action = MulticastStartAction<Plain>;

fn component() -> MulticastClientComponent<String, String, (u8, u8), Vec<u16>, char> {
    let config = MulticastClientConfig::new(String::from("self"), (1u8, 2u8), String::from("sess"));
    let param = MulticastClientParam::new(vec![5u16], 'c');
    MulticastClientComponent::create(config, param)
}

/// Feeds the outcomes one by one, recording every action asked for.
fn drive(events: Vec<Event>) -> (MulticastStartState<Plain>, Vec<Action>) {
    let (mut state, action) = multicast_start_begin::<Plain>(component());
    let mut actions = vec![action];
    for event in events {
        assert!(state.accepts(&event));
        let (s, a) = multicast_start_next(state, event);
        state = s;
        actions.push(a);
    }
    (state, actions)
}

#[test]
fn multicast_param_and_create_place_every_part() {
    let (state, action) = multicast_start_begin::<Plain>(component());
    match action {
        MulticastStartAction::CreateSession { session_config, args } => {
            assert_eq!(session_config, "sess");
            assert_eq!(args, vec![5u16]);
        }
        _ => panic!("the start-up must begin by creating the session"),
    }
    match state {
        MulticastStartState::CreatingSession { bus_config, self_party, ctx } => {
            assert_eq!(bus_config, (1u8, 2u8));
            assert_eq!(self_party, Some(String::from("self")));
            assert_eq!(ctx, 'c');
        }
        _ => panic!("the start-up must await the session's creation"),
    }
}

#[test]
fn multicast_start_passes_each_created_value_on() {
    let parties = vec![(0usize, String::from("a")), (1usize, String::from("b"))];
    let (state, actions) = drive(vec![
        MulticastStartEvent::SessionCreated("session", 11, 12),
        MulticastStartEvent::BusCreated(21),
        MulticastStartEvent::PartiesListed(22, parties.clone()),
        MulticastStartEvent::SessionStarted("session-cleanup"),
        MulticastStartEvent::BusStarted(31),
    ]);
    assert!(matches!(state, MulticastStartState::Started));
    let mut actions = actions.into_iter();
    assert!(matches!(actions.next(), Some(MulticastStartAction::CreateSession { .. })));
    match actions.next() {
        Some(MulticastStartAction::CreateBus { bus_config, self_party, ctx, recv, msgs }) => {
            assert_eq!(bus_config, (1u8, 2u8));
            assert_eq!(self_party, Some(String::from("self")));
            assert_eq!(ctx, 'c');
            assert_eq!(recv, 11);
            assert_eq!(msgs, 12);
        }
        _ => panic!("expected the bus to be created"),
    }
    assert!(matches!(actions.next(), Some(MulticastStartAction::ListParties { bus: 21 })));
    match actions.next() {
        Some(MulticastStartAction::StartSession { session, parties: listed }) => {
            assert_eq!(session, "session");
            assert_eq!(listed, parties);
        }
        _ => panic!("expected the session to be started"),
    }
    assert!(matches!(actions.next(), Some(MulticastStartAction::StartBus { bus: 22 })));
    assert!(matches!(
        actions.next(),
        Some(MulticastStartAction::Finish(Ok(("session-cleanup", 31))))
    ));
    assert!(actions.next().is_none());
}

#[test]
fn multicast_session_create_failure_is_a_session_error() {
    let (state, actions) = drive(vec![MulticastStartEvent::SessionCreateFailed("no config")]);
    assert!(matches!(state, MulticastStartState::Failed));
    assert!(matches!(
        actions.last(),
        Some(MulticastStartAction::Finish(Err(MulticastClientComponentRunError::Session { err: "no config" })))
    ));
    assert_eq!(actions.len(), 2);
}

#[test]
fn multicast_bus_create_failure_is_a_multicast_error() {
    let (state, actions) = drive(vec![
        MulticastStartEvent::SessionCreated("session", 1, 2),
        MulticastStartEvent::BusCreateFailed(42),
    ]);
    assert!(matches!(state, MulticastStartState::Failed));
    assert!(matches!(
        actions.last(),
        Some(MulticastStartAction::Finish(Err(MulticastClientComponentRunError::Multicast { err: 42 })))
    ));
}

#[test]
fn multicast_session_start_failure_is_a_start_error() {
    let (state, actions) = drive(vec![
        MulticastStartEvent::SessionCreated("session", 1, 2),
        MulticastStartEvent::BusCreated(3),
        MulticastStartEvent::PartiesListed(3, vec![]),
        MulticastStartEvent::SessionStartFailed('x'),
    ]);
    assert!(matches!(state, MulticastStartState::Failed));
    assert!(matches!(
        actions.last(),
        Some(MulticastStartAction::Finish(Err(MulticastClientComponentRunError::Start { err: 'x' })))
    ));
}

#[test]
fn multicast_bus_start_failure_is_an_io_error() {
    let (state, mut actions) = drive(vec![
        MulticastStartEvent::SessionCreated("session", 1, 2),
        MulticastStartEvent::BusCreated(3),
        MulticastStartEvent::PartiesListed(3, vec![]),
        MulticastStartEvent::SessionStarted("cleanup"),
        MulticastStartEvent::BusStartFailed(std::io::Error::new(std::io::ErrorKind::AddrInUse, "taken")),
    ]);
    assert!(matches!(state, MulticastStartState::Failed));
    match actions.pop() {
        Some(MulticastStartAction::Finish(Err(MulticastClientComponentRunError::IO { err }))) => {
            assert_eq!(err.kind(), std::io::ErrorKind::AddrInUse)
        }
        _ => panic!("expected an IO error"),
    }
}

#[test]
fn multicast_start_takes_only_the_awaited_outcome() {
    let (state, _) = multicast_start_begin::<Plain>(component());
    let bus: Event = MulticastStartEvent::BusCreated(1);
    let session: Event = MulticastStartEvent::SessionCreated("s", 1, 2);
    assert!(!state.accepts(&bus));
    assert!(state.accepts(&session));
    let done: Event = MulticastStartEvent::BusStarted(1);
    assert!(!MulticastStartState::<Plain>::Started.accepts(&done));
    assert!(!MulticastStartState::<Plain>::Failed.accepts(&session));
}

#[test]
fn multicast_error_fixed_message() {
    let skipped: MulticastClientComponentRunError<u8, u8, u8> = MulticastClientComponentRunError::SkippedIdx;
    assert_eq!(skipped.fixed_message(), Some("stream parties skipped an index"));
    let session: MulticastClientComponentRunError<u8, u8, u8> = MulticastClientComponentRunError::Session { err: 1 };
    assert_eq!(session.fixed_message(), None);
}

#[test]
fn multicast_cleanup_order() {
    assert_eq!(multicast_cleanup_steps(), vec![CleanupStep::CleanupBus, CleanupStep::CleanupSession]);
}
