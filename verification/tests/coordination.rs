use winput::coordinator::{BeginOutcome, Coordinator, SessionState};
use winput::events::{Event, EventLog};
use winput::registry::HandlerRegistry;
use winput::{Action, Vk};

#[test]
fn only_the_first_caller_wins_the_race() {
    let mut c = Coordinator::new();
    assert!(!c.is_active());
    assert_eq!(c.try_begin_episode(), BeginOutcome::WonRace);
    assert!(c.is_active());
    assert_eq!(c.try_begin_episode(), BeginOutcome::AlreadyActive);
    c.advance_to_active();
    assert_eq!(c.try_begin_episode(), BeginOutcome::AlreadyActive);
    assert_eq!(c.state, SessionState::Active);
    assert_eq!(c.captures_spawned, 1);
    assert_eq!(c.dispatchers_spawned, 1);
}

#[test]
fn an_aborted_start_leaves_no_threads() {
    let mut c = Coordinator::new();
    assert_eq!(c.try_begin_episode(), BeginOutcome::WonRace);
    c.abort_start();
    assert!(!c.is_active());
    assert!(!c.capture_alive);
    assert!(!c.dispatcher_alive);
    assert_eq!(c.captures_spawned, 0);
    assert_eq!(c.dispatchers_spawned, 0);
}

#[test]
fn a_full_episode_walks_the_transition_table() {
    let mut c = Coordinator::new();
    assert_eq!(c.state, SessionState::Idle);
    assert_eq!(c.try_begin_episode(), BeginOutcome::WonRace);
    assert_eq!(c.state, SessionState::Starting);
    c.advance_to_active();
    assert_eq!(c.state, SessionState::Active);
    c.begin_unsubscribe();
    assert_eq!(c.state, SessionState::Unsubscribing);
    c.end_unsubscribe();
    assert_eq!(c.state, SessionState::Active);
    c.begin_unsubscribe();
    c.request_shutdown();
    assert_eq!(c.state, SessionState::ShuttingDown);
    c.acknowledge_shutdown();
    assert!(!c.dispatcher_alive);
    c.finish_shutdown();
    assert_eq!(c.state, SessionState::Idle);
    assert!(!c.capture_alive);
}

#[test]
fn the_registry_keeps_insertion_order_and_removes_by_id() {
    let mut r: HandlerRegistry<EventLog> = HandlerRegistry::new();
    assert!(r.is_empty());
    r.insert(0, EventLog::new());
    r.insert(3, EventLog::new());
    r.insert(7, EventLog::new());
    assert_eq!(r.len(), 3);
    assert_eq!(r.ids, vec![0, 3, 7]);

    assert!(r.remove(3).is_some());
    assert_eq!(r.ids, vec![0, 7]);
    // An id that is not registered removes nothing.
    assert!(r.remove(3).is_none());
    assert_eq!(r.len(), 2);
}

#[test]
fn the_registry_delivers_one_event_to_every_consumer() {
    let mut r: HandlerRegistry<EventLog> = HandlerRegistry::new();
    r.insert(0, EventLog::new());
    r.insert(1, EventLog::new());
    let event = Event::Keyboard { vk: Vk::F5, scan_code: 63, action: Action::Release };
    r.deliver_to_all(event);
    assert_eq!(r.handlers.len(), 2);
    assert_eq!(r.handlers[0].events, vec![event]);
    assert_eq!(r.handlers[1].events, vec![event]);
}
