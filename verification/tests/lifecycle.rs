use winput::events::{Event, EventLog};
use winput::message_loop::{MessageLoop, MessageLoopError};
use winput::{Action, Button, Vk, WheelDirection, WindowsError};

fn key_event(vk: Vk, action: Action) -> Event {
    Event::Keyboard { vk, scan_code: 0, action }
}

#[test]
fn a_fresh_loop_is_inactive() {
    let ml: MessageLoop<EventLog> = MessageLoop::new();
    assert!(!ml.is_active());
}

#[test]
fn first_subscriber_starts_the_episode_and_later_ones_join_it() {
    let mut ml: MessageLoop<EventLog> = MessageLoop::new();
    let h1 = ml.subscribe_handler(EventLog::new(), Ok(())).unwrap();
    assert!(ml.is_active());
    assert_eq!(ml.subscriber_count(), 1);

    // The episode exists: joining installs nothing and starts nothing.
    let h2 = ml.subscribe_handler(EventLog::new(), Ok(())).unwrap();
    assert!(ml.is_active());
    assert_eq!(ml.subscriber_count(), 2);
    assert_ne!(h1, h2);
}

#[test]
fn exclusive_start_while_active_is_already_active() {
    let mut ml: MessageLoop<EventLog> = MessageLoop::new();
    assert!(ml.start(Ok(())).is_ok());
    assert!(ml.is_active());
    // A second exclusive start must not begin a second episode.
    assert!(matches!(ml.start(Ok(())), Err(MessageLoopError::AlreadyActive)));
    assert!(ml.is_active());
    ml.stop();
    assert!(!ml.is_active());
}

#[test]
fn start_while_subscribed_is_already_active() {
    let mut ml: MessageLoop<EventLog> = MessageLoop::new();
    let _h = ml.subscribe_handler(EventLog::new(), Ok(())).unwrap();
    assert!(matches!(ml.start(Ok(())), Err(MessageLoopError::AlreadyActive)));
}

#[test]
fn failed_hook_installation_leaves_the_loop_idle() {
    let mut ml: MessageLoop<EventLog> = MessageLoop::new();
    let refused = WindowsError::new(1404, Some(String::from("cannot set nonlocal hook")));
    let result = ml.subscribe_handler(EventLog::new(), Err(refused));
    match result {
        Err(MessageLoopError::OsError(error)) => assert_eq!(error.code, 1404),
        _ => panic!("a refused hook must surface as an operating-system error"),
    }
    // Immediately after the failing call returns, no episode exists.
    assert!(!ml.is_active());
    // And a fresh attempt may succeed.
    assert!(ml.subscribe_handler(EventLog::new(), Ok(())).is_ok());
    assert!(ml.is_active());
}

#[test]
fn failed_exclusive_start_leaves_the_loop_idle() {
    let mut ml: MessageLoop<EventLog> = MessageLoop::new();
    let refused = WindowsError::new(5, None);
    match ml.start(Err(refused)) {
        Err(MessageLoopError::OsError(error)) => assert_eq!(error.code, 5),
        _ => panic!("a refused hook must surface as an operating-system error"),
    }
    assert!(!ml.is_active());
}

#[test]
fn one_injected_event_reaches_every_consumer_exactly_once() {
    let mut ml: MessageLoop<EventLog> = MessageLoop::new();
    let h1 = ml.subscribe_handler(EventLog::new(), Ok(())).unwrap();
    let h2 = ml.subscribe_handler(EventLog::new(), Ok(())).unwrap();
    let h3 = ml.subscribe_handler(EventLog::new(), Ok(())).unwrap();

    let event = key_event(Vk::Space, Action::Press);
    ml.inject_event(event);
    ml.dispatch_pending();

    for handle in [h1, h2, h3] {
        let log = ml.unsubscribe_handler(handle).unwrap();
        assert_eq!(log.events, vec![event]);
    }
    assert!(!ml.is_active());
}

#[test]
fn delivery_order_matches_production_order() {
    let mut ml: MessageLoop<EventLog> = MessageLoop::new();
    let h1 = ml.subscribe_handler(EventLog::new(), Ok(())).unwrap();
    let h2 = ml.subscribe_handler(EventLog::new(), Ok(())).unwrap();

    let e1 = key_event(Vk::A, Action::Press);
    let e2 = key_event(Vk::A, Action::Release);
    ml.inject_event(e1);
    ml.inject_event(e2);
    ml.dispatch_pending();

    let log2 = ml.unsubscribe_handler(h2).unwrap();
    assert_eq!(log2.events, vec![e1, e2]);
    let log1 = ml.unsubscribe_handler(h1).unwrap();
    assert_eq!(log1.events, vec![e1, e2]);
}

#[test]
fn releasing_all_handles_in_any_order_stops_the_loop() {
    let mut ml: MessageLoop<EventLog> = MessageLoop::new();
    let h1 = ml.subscribe_handler(EventLog::new(), Ok(())).unwrap();
    let h2 = ml.subscribe_handler(EventLog::new(), Ok(())).unwrap();
    let h3 = ml.subscribe_handler(EventLog::new(), Ok(())).unwrap();

    // Release in an order unlike the subscription order.
    assert!(ml.unsubscribe_handler(h2).is_some());
    assert!(ml.is_active());
    assert!(ml.unsubscribe_handler(h3).is_some());
    assert!(ml.is_active());
    assert!(ml.unsubscribe_handler(h1).is_some());
    assert!(!ml.is_active());

    // A subsequent subscription starts a fresh episode.
    let h4 = ml.subscribe_handler(EventLog::new(), Ok(())).unwrap();
    assert!(ml.is_active());
    assert_ne!(h4, h1);
    assert!(ml.unsubscribe_handler(h4).is_some());
    assert!(!ml.is_active());
}

#[test]
fn a_released_handle_cannot_be_released_twice() {
    let mut ml: MessageLoop<EventLog> = MessageLoop::new();
    let h1 = ml.subscribe_handler(EventLog::new(), Ok(())).unwrap();
    let h2 = ml.subscribe_handler(EventLog::new(), Ok(())).unwrap();
    assert!(ml.unsubscribe_handler(h1).is_some());
    // The second release of the same handle is rejected and removes nothing.
    assert!(ml.unsubscribe_handler(h1).is_none());
    assert!(ml.is_active());
    assert_eq!(ml.subscriber_count(), 1);
    assert!(ml.unsubscribe_handler(h2).is_some());
    assert!(!ml.is_active());
}

#[test]
fn unsubscribing_from_an_idle_loop_is_rejected() {
    let mut ml: MessageLoop<EventLog> = MessageLoop::new();
    let h = ml.subscribe_handler(EventLog::new(), Ok(())).unwrap();
    assert!(ml.unsubscribe_handler(h).is_some());
    assert!(ml.unsubscribe_handler(h).is_none());
}

#[test]
fn a_late_subscriber_sees_no_earlier_event() {
    let mut ml: MessageLoop<EventLog> = MessageLoop::new();
    let h1 = ml.subscribe_handler(EventLog::new(), Ok(())).unwrap();
    let e1 = key_event(Vk::B, Action::Press);
    ml.inject_event(e1);
    ml.dispatch_pending();

    let h2 = ml.subscribe_handler(EventLog::new(), Ok(())).unwrap();
    let e2 = key_event(Vk::B, Action::Release);
    ml.inject_event(e2);
    ml.dispatch_pending();

    let log2 = ml.unsubscribe_handler(h2).unwrap();
    assert_eq!(log2.events, vec![e2]);
    let log1 = ml.unsubscribe_handler(h1).unwrap();
    assert_eq!(log1.events, vec![e1, e2]);
}

#[test]
fn the_receiver_hands_out_events_in_order() {
    let mut ml: MessageLoop<EventLog> = MessageLoop::new();
    ml.start(Ok(())).unwrap();
    assert_eq!(ml.try_next_event(), None);
    assert_eq!(ml.next_event_timeout(10), None);

    let e1 = key_event(Vk::C, Action::Press);
    let e2 = key_event(Vk::C, Action::Release);
    ml.inject_event(e1);
    ml.inject_event(e2);
    assert_eq!(ml.try_next_event(), Some(e1));
    assert_eq!(ml.next_event(), e2);
    assert_eq!(ml.try_next_event(), None);
    ml.stop();
    assert!(!ml.is_active());
}

#[test]
fn clear_discards_pending_events_without_processing() {
    let mut ml: MessageLoop<EventLog> = MessageLoop::new();
    ml.start(Ok(())).unwrap();
    ml.inject_event(key_event(Vk::D, Action::Press));
    ml.inject_event(key_event(Vk::D, Action::Release));
    ml.clear();
    assert_eq!(ml.try_next_event(), None);
    ml.stop();
}

#[test]
fn capture_paths_feed_the_receiver() {
    let mut ml: MessageLoop<EventLog> = MessageLoop::new();
    ml.start(Ok(())).unwrap();
    ml.capture_keyboard(0x41, 30, 0);
    ml.capture_raw_mouse(0, 0x0400, 120, 0, 0);
    assert_eq!(
        ml.try_next_event(),
        Some(Event::Keyboard { vk: Vk::A, scan_code: 30, action: Action::Press })
    );
    assert_eq!(ml.try_next_event(), Some(Event::MouseMoveRelative { x: 0, y: 0 }));
    assert_eq!(
        ml.try_next_event(),
        Some(Event::MouseWheel { x: None, y: None, delta: 120, direction: WheelDirection::Vertical })
    );
    assert_eq!(ml.try_next_event(), None);
    ml.stop();
}

#[test]
fn stop_tears_down_whatever_the_episode_holds() {
    let mut ml: MessageLoop<EventLog> = MessageLoop::new();
    let _h = ml.subscribe_handler(EventLog::new(), Ok(())).unwrap();
    ml.inject_event(key_event(Vk::E, Action::Press));
    ml.stop();
    assert!(!ml.is_active());
    assert_eq!(ml.subscriber_count(), 0);
    // Stopping an idle loop does nothing.
    ml.stop();
    assert!(!ml.is_active());
}

#[test]
fn button_events_keep_their_payload() {
    let mut ml: MessageLoop<EventLog> = MessageLoop::new();
    let h = ml.subscribe_handler(EventLog::new(), Ok(())).unwrap();
    let event = Event::MouseButton {
        x: Some(12),
        y: Some(-7),
        action: Action::Release,
        button: Button::X1,
    };
    ml.inject_event(event);
    ml.dispatch_pending();
    let log = ml.unsubscribe_handler(h).unwrap();
    assert_eq!(log.events, vec![event]);
}

struct KeyCounter {
    presses: u32,
    wheel_units: i32,
}

impl winput::events::Handler for KeyCounter {
    fn keyboard(&mut self, _vk: Vk, _scan_code: u32, action: Action) {
        if action == Action::Press {
            self.presses += 1;
        }
    }

    fn mouse_move_relative(&mut self, _x: i32, _y: i32) {}

    fn mouse_move_absolute(&mut self, _x: i32, _y: i32, _virtual_desk: bool) {}

    fn mouse_button(&mut self, _x: Option<i32>, _y: Option<i32>, _button: Button, _action: Action) {}

    fn mouse_wheel(&mut self, _x: Option<i32>, _y: Option<i32>, delta: i32, _direction: WheelDirection) {
        self.wheel_units += delta;
    }
}

#[test]
fn deliver_by_kind_splits_events_into_the_matching_calls() {
    let mut counter = KeyCounter { presses: 0, wheel_units: 0 };
    winput::events::deliver_by_kind(&mut counter, key_event(Vk::A, Action::Press));
    winput::events::deliver_by_kind(&mut counter, key_event(Vk::A, Action::Release));
    winput::events::deliver_by_kind(
        &mut counter,
        Event::MouseWheel { x: None, y: None, delta: 120, direction: WheelDirection::Vertical },
    );
    winput::events::deliver_by_kind(
        &mut counter,
        Event::MouseMoveRelative { x: 1, y: 1 },
    );
    assert_eq!(counter.presses, 1);
    assert_eq!(counter.wheel_units, 120);
}
