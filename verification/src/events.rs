use vstd::prelude::*;
use crate::input::Action;
use crate::input::Button;
use crate::input::WheelDirection;
use crate::vk::Vk;

verus! {

/// An event of any kind, as captured at the operating-system level.
///
/// Events are immutable values produced by the capture side of the message
/// loop and delivered unchanged to every consumer.
///
/// Coordinates and wheel rotation are carried exactly as the capture path
/// reports them: a low-level hook reports button and wheel positions in
/// screen coordinates, while the raw-input path reports no position for
/// buttons and normalizes absolute movement to the range `0..=65535`.  Wheel
/// rotation is in raw wheel units, `120` per detent; positive vertical values
/// mean the wheel was rotated forward, away from the user.
#[derive(Clone, Copy, PartialEq, Debug)]
pub enum Event {
    Keyboard {
        /// The virtual keycode of the key that was pressed.
        vk: Vk,
        /// The scan code of that key.
        scan_code: u32,
        /// The action that was taken on the key.
        action: Action,
    },
    MouseMoveRelative {
        /// The horizontal motion of the mouse, in pixels.
        x: i32,
        /// The vertical motion of the mouse, in pixels.
        y: i32,
    },
    MouseMoveAbsolute {
        /// The horizontal position of the mouse.
        x: i32,
        /// The vertical position of the mouse.
        y: i32,
        /// If this flag is set to `true`, the `x` and `y` coordinates map to
        /// the entire virtual desktop (this is relevant if multiple monitors
        /// are used).
        virtual_desk: bool,
    },
    MouseButton {
        /// The horizontal position of the mouse, when the capture path
        /// reports one.
        x: Option<i32>,
        /// The vertical position of the mouse, when the capture path
        /// reports one.
        y: Option<i32>,
        /// The action that was taken on the mouse button.
        action: Action,
        /// The mouse button involved in the event.
        button: Button,
    },
    MouseWheel {
        /// The horizontal position of the mouse, when the capture path
        /// reports one.
        x: Option<i32>,
        /// The vertical position of the mouse, when the capture path
        /// reports one.
        y: Option<i32>,
        /// The amount of rotation of the wheel, in raw wheel units
        /// (`120` per detent).
        delta: i32,
        /// The direction of the wheel.
        direction: WheelDirection,
    },
}

/// A consumer of captured events.
///
/// The dispatcher invokes [`EventConsumer::handle_event`] once per captured
/// event on every registered consumer.  What a consumer has seen so far is
/// its *observation sequence*: handling an event appends exactly that event
/// to it.  Invocation is synchronous, so a slow consumer delays delivery to
/// every other consumer and to subsequent events; consumers are expected to
/// be fast or to hand work off internally.
pub trait EventConsumer: Sized {
    /// The events this consumer has observed so far, oldest first.
    spec fn observed(&self) -> Seq<Event>;

    /// Handles one captured event, appending it to the observation sequence.
    fn handle_event(&mut self, event: Event)
        ensures
            final(self).observed() == old(self).observed().push(event);
}

/// An event consumer that simply records every event it is handed, in
/// delivery order.
#[derive(Clone, Debug)]
pub struct EventLog {
    /// The events observed so far, oldest first.
    pub events: Vec<Event>,
}

impl EventLog {
    /// Creates a log that has observed nothing yet.
    pub fn new() -> (r: EventLog)
        ensures
            r.observed() == Seq::<Event>::empty(),
    {
        EventLog { events: Vec::new() }
    }
}

impl EventConsumer for EventLog {
    open spec fn observed(&self) -> Seq<Event> {
        self.events@
    }

    fn handle_event(&mut self, event: Event) {
        self.events.push(event);
    }
}

/// A consumer that wants each kind of event at a separate place.
///
/// Unlike [`EventConsumer`], this trait carries no observation contract, so
/// any caller can implement it in ordinary code; [`deliver_by_kind`] splits
/// a captured event into the matching call.
pub trait Handler {
    /// A keyboard key was pressed or released.
    fn keyboard(&mut self, vk: Vk, scan_code: u32, action: Action);

    /// The mouse moved, relatively to its last position.
    fn mouse_move_relative(&mut self, x: i32, y: i32);

    /// The mouse moved, in absolute coordinates.
    fn mouse_move_absolute(&mut self, x: i32, y: i32, virtual_desk: bool);

    /// A mouse button was pressed or released.
    fn mouse_button(&mut self, x: Option<i32>, y: Option<i32>, button: Button, action: Action);

    /// The mouse wheel was rotated by `delta` raw wheel units (`120` per
    /// detent).
    fn mouse_wheel(&mut self, x: Option<i32>, y: Option<i32>, delta: i32, direction: WheelDirection);
}

/// Hands one captured event to the matching method of a [`Handler`].
pub fn deliver_by_kind<H: Handler>(handler: &mut H, event: Event) {
    match event {
        Event::Keyboard { vk, scan_code, action } => handler.keyboard(vk, scan_code, action),
        Event::MouseMoveRelative { x, y } => handler.mouse_move_relative(x, y),
        Event::MouseMoveAbsolute { x, y, virtual_desk } => handler.mouse_move_absolute(
            x,
            y,
            virtual_desk,
        ),
        Event::MouseButton { x, y, action, button } => handler.mouse_button(x, y, button, action),
        Event::MouseWheel { x, y, delta, direction } => handler.mouse_wheel(
            x,
            y,
            delta,
            direction,
        ),
    }
}

/// A handle to a registered event consumer. This handle is returned when a
/// consumer is subscribed and is the sole capability to unsubscribe it.
#[derive(Clone, Copy, PartialEq, Eq, Structural, Hash, Debug)]
pub struct HandlerHandle(pub usize);

} // verus!
