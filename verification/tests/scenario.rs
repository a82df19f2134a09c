use winput::events::{Event, EventLog};
use winput::message_loop::MessageLoop;
use winput::{Action, Button, Vk, WheelDirection};

#[test]
fn two_subscribers_come_and_go_around_three_events() {
    let mut ml: MessageLoop<EventLog> = MessageLoop::new();

    // Subscribe a first consumer and inject a key press: it receives
    // exactly that event.
    let h1 = ml.subscribe_handler(EventLog::new(), Ok(())).unwrap();
    let pressed_a = Event::Keyboard { vk: Vk::A, scan_code: 30, action: Action::Press };
    ml.inject_event(pressed_a);
    ml.dispatch_pending();

    // Subscribe a second consumer and inject one wheel detent: both
    // consumers receive it.
    let h2 = ml.subscribe_handler(EventLog::new(), Ok(())).unwrap();
    let wheel = Event::MouseWheel {
        x: None,
        y: None,
        delta: 120,
        direction: WheelDirection::Vertical,
    };
    ml.inject_event(wheel);
    ml.dispatch_pending();

    // Release the first handle, then inject a button release: only the
    // second consumer receives it.
    let log1 = ml.unsubscribe_handler(h1).unwrap();
    assert_eq!(log1.events, vec![pressed_a, wheel]);
    assert!(ml.is_active());

    let released_left = Event::MouseButton {
        x: None,
        y: None,
        action: Action::Release,
        button: Button::Left,
    };
    ml.inject_event(released_left);
    ml.dispatch_pending();

    // Release the second handle: it observed everything since it joined,
    // and the loop is no longer active.
    let log2 = ml.unsubscribe_handler(h2).unwrap();
    assert_eq!(log2.events, vec![wheel, released_left]);
    assert!(!ml.is_active());
}
