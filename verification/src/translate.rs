use vstd::prelude::*;
use crate::events::Event;
use crate::input::Action;
use crate::input::Button;
use crate::input::WheelDirection;
use crate::vk::Vk;
use crate::vk::vk_of_code;

verus! {

/// Raw-input flag: the mouse movement data is relative.
pub const MOUSE_MOVE_RELATIVE: u16 = 0x0000;
/// Raw-input flag: the mouse movement data is absolute, normalized to
/// `0..=65535`.
pub const MOUSE_MOVE_ABSOLUTE: u16 = 0x0001;
/// Raw-input flag: the absolute coordinates map to the entire virtual
/// desktop.
pub const MOUSE_VIRTUAL_DESKTOP: u16 = 0x0002;

/// Raw-input button flag: the left button was pressed.
pub const RI_MOUSE_LEFT_BUTTON_DOWN: u16 = 0x0001;
/// Raw-input button flag: the left button was released.
pub const RI_MOUSE_LEFT_BUTTON_UP: u16 = 0x0002;
/// Raw-input button flag: the right button was pressed.
pub const RI_MOUSE_RIGHT_BUTTON_DOWN: u16 = 0x0004;
/// Raw-input button flag: the right button was released.
pub const RI_MOUSE_RIGHT_BUTTON_UP: u16 = 0x0008;
/// Raw-input button flag: the middle button was pressed.
pub const RI_MOUSE_MIDDLE_BUTTON_DOWN: u16 = 0x0010;
/// Raw-input button flag: the middle button was released.
pub const RI_MOUSE_MIDDLE_BUTTON_UP: u16 = 0x0020;
/// Raw-input button flag: the X1 button was pressed.
pub const RI_MOUSE_BUTTON_4_DOWN: u16 = 0x0040;
/// Raw-input button flag: the X1 button was released.
pub const RI_MOUSE_BUTTON_4_UP: u16 = 0x0080;
/// Raw-input button flag: the X2 button was pressed.
pub const RI_MOUSE_BUTTON_5_DOWN: u16 = 0x0100;
/// Raw-input button flag: the X2 button was released.
pub const RI_MOUSE_BUTTON_5_UP: u16 = 0x0200;
/// Raw-input button flag: the vertical wheel was rotated; the rotation is in
/// the button data.
pub const RI_MOUSE_WHEEL: u16 = 0x0400;
/// Raw-input button flag: the horizontal wheel was rotated; the rotation is
/// in the button data.
pub const RI_MOUSE_HWHEEL: u16 = 0x0800;

/// Window message: the mouse moved.
pub const WM_MOUSEMOVE: u32 = 0x0200;
/// Window message: the left mouse button was pressed.
pub const WM_LBUTTONDOWN: u32 = 0x0201;
/// Window message: the left mouse button was released.
pub const WM_LBUTTONUP: u32 = 0x0202;
/// Window message: the right mouse button was pressed.
pub const WM_RBUTTONDOWN: u32 = 0x0204;
/// Window message: the right mouse button was released.
pub const WM_RBUTTONUP: u32 = 0x0205;
/// Window message: the mouse wheel was rotated.
pub const WM_MOUSEWHEEL: u32 = 0x020A;
/// Window message: an X mouse button was pressed.
pub const WM_XBUTTONDOWN: u32 = 0x020B;
/// Window message: an X mouse button was released.
pub const WM_XBUTTONUP: u32 = 0x020C;

/// The X1 button selector in the data of an X-button message.
pub const XBUTTON1: u16 = 0x0001;
/// The X2 button selector in the data of an X-button message.
pub const XBUTTON2: u16 = 0x0002;

/// Low-level keyboard hook flag: the key is being released.
pub const LLKHF_UP: u32 = 0x0080;

/// Whether `short` contains all the bits of `mask`.
pub open spec fn spec_has_flags(short: u16, mask: u16) -> bool {
    short & mask == mask
}

/// Checks whether `short` contains all the bits of `mask`.
pub fn has_flags(short: u16, mask: u16) -> (r: bool)
    ensures
        r == spec_has_flags(short, mask),
{
    short & mask == mask
}

/// The singleton sequence of `e` when `cond` holds, else the empty sequence.
pub open spec fn opt_event(cond: bool, e: Event) -> Seq<Event> {
    if cond {
        seq![e]
    } else {
        Seq::<Event>::empty()
    }
}

/// The events one raw-input mouse payload stands for, in the fixed order
/// the capture thread reports them: movement first, then each button
/// transition, then wheel rotation.
///
/// `button_data` carries the wheel rotation as a signed 16-bit quantity in
/// raw wheel units.
pub open spec fn raw_mouse_events(
    us_flags: u16,
    button_flags: u16,
    button_data: u16,
    last_x: i32,
    last_y: i32,
) -> Seq<Event> {
    opt_event(
        spec_has_flags(us_flags, MOUSE_MOVE_RELATIVE),
        Event::MouseMoveRelative { x: last_x, y: last_y },
    ) + opt_event(
        spec_has_flags(us_flags, MOUSE_MOVE_ABSOLUTE),
        Event::MouseMoveAbsolute {
            x: last_x,
            y: last_y,
            virtual_desk: us_flags & MOUSE_VIRTUAL_DESKTOP == MOUSE_VIRTUAL_DESKTOP,
        },
    ) + opt_event(
        spec_has_flags(button_flags, RI_MOUSE_LEFT_BUTTON_DOWN),
        button_event(Action::Press, Button::Left),
    ) + opt_event(
        spec_has_flags(button_flags, RI_MOUSE_LEFT_BUTTON_UP),
        button_event(Action::Release, Button::Left),
    ) + opt_event(
        spec_has_flags(button_flags, RI_MOUSE_RIGHT_BUTTON_DOWN),
        button_event(Action::Press, Button::Right),
    ) + opt_event(
        spec_has_flags(button_flags, RI_MOUSE_RIGHT_BUTTON_UP),
        button_event(Action::Release, Button::Right),
    ) + opt_event(
        spec_has_flags(button_flags, RI_MOUSE_MIDDLE_BUTTON_DOWN),
        button_event(Action::Press, Button::Middle),
    ) + opt_event(
        spec_has_flags(button_flags, RI_MOUSE_MIDDLE_BUTTON_UP),
        button_event(Action::Release, Button::Middle),
    ) + opt_event(
        spec_has_flags(button_flags, RI_MOUSE_BUTTON_4_DOWN),
        button_event(Action::Press, Button::X1),
    ) + opt_event(
        spec_has_flags(button_flags, RI_MOUSE_BUTTON_4_UP),
        button_event(Action::Release, Button::X1),
    ) + opt_event(
        spec_has_flags(button_flags, RI_MOUSE_BUTTON_5_DOWN),
        button_event(Action::Press, Button::X2),
    ) + opt_event(
        spec_has_flags(button_flags, RI_MOUSE_BUTTON_5_UP),
        button_event(Action::Release, Button::X2),
    ) + opt_event(
        spec_has_flags(button_flags, RI_MOUSE_WHEEL),
        wheel_event(button_data, WheelDirection::Vertical),
    ) + opt_event(
        spec_has_flags(button_flags, RI_MOUSE_HWHEEL),
        wheel_event(button_data, WheelDirection::Horizontal),
    )
}

/// A button event of the raw-input path, which reports no mouse position.
pub open spec fn button_event(action: Action, button: Button) -> Event {
    Event::MouseButton { x: None, y: None, action, button }
}

/// A wheel event of the raw-input path: the rotation is the button data read
/// as a signed 16-bit quantity.
pub open spec fn wheel_event(button_data: u16, direction: WheelDirection) -> Event {
    Event::MouseWheel {
        x: None,
        y: None,
        delta: button_data as i16 as i32,
        direction,
    }
}

/// Appends `e` to `out` exactly when `cond` holds.
fn push_if(out: &mut Vec<Event>, cond: bool, e: Event)
    ensures
        final(out)@ == old(out)@ + opt_event(cond, e),
{
    if cond {
        out.push(e);
    }
    proof {
        assert(final(out)@ =~= old(out)@ + opt_event(cond, e));
    }
}

/// Translates one raw-input mouse payload into the events it stands for, in
/// the order the capture thread reports them.
pub fn translate_raw_mouse(
    us_flags: u16,
    button_flags: u16,
    button_data: u16,
    last_x: i32,
    last_y: i32,
) -> (r: Vec<Event>)
    ensures
        r@ == raw_mouse_events(us_flags, button_flags, button_data, last_x, last_y),
{
    let mut out: Vec<Event> = Vec::new();

    push_if(
        &mut out,
        has_flags(us_flags, MOUSE_MOVE_RELATIVE),
        Event::MouseMoveRelative { x: last_x, y: last_y },
    );
    push_if(
        &mut out,
        has_flags(us_flags, MOUSE_MOVE_ABSOLUTE),
        Event::MouseMoveAbsolute {
            x: last_x,
            y: last_y,
            virtual_desk: us_flags & MOUSE_VIRTUAL_DESKTOP == MOUSE_VIRTUAL_DESKTOP,
        },
    );
    push_if(
        &mut out,
        has_flags(button_flags, RI_MOUSE_LEFT_BUTTON_DOWN),
        Event::MouseButton { x: None, y: None, action: Action::Press, button: Button::Left },
    );
    push_if(
        &mut out,
        has_flags(button_flags, RI_MOUSE_LEFT_BUTTON_UP),
        Event::MouseButton { x: None, y: None, action: Action::Release, button: Button::Left },
    );
    push_if(
        &mut out,
        has_flags(button_flags, RI_MOUSE_RIGHT_BUTTON_DOWN),
        Event::MouseButton { x: None, y: None, action: Action::Press, button: Button::Right },
    );
    push_if(
        &mut out,
        has_flags(button_flags, RI_MOUSE_RIGHT_BUTTON_UP),
        Event::MouseButton { x: None, y: None, action: Action::Release, button: Button::Right },
    );
    push_if(
        &mut out,
        has_flags(button_flags, RI_MOUSE_MIDDLE_BUTTON_DOWN),
        Event::MouseButton { x: None, y: None, action: Action::Press, button: Button::Middle },
    );
    push_if(
        &mut out,
        has_flags(button_flags, RI_MOUSE_MIDDLE_BUTTON_UP),
        Event::MouseButton { x: None, y: None, action: Action::Release, button: Button::Middle },
    );
    push_if(
        &mut out,
        has_flags(button_flags, RI_MOUSE_BUTTON_4_DOWN),
        Event::MouseButton { x: None, y: None, action: Action::Press, button: Button::X1 },
    );
    push_if(
        &mut out,
        has_flags(button_flags, RI_MOUSE_BUTTON_4_UP),
        Event::MouseButton { x: None, y: None, action: Action::Release, button: Button::X1 },
    );
    push_if(
        &mut out,
        has_flags(button_flags, RI_MOUSE_BUTTON_5_DOWN),
        Event::MouseButton { x: None, y: None, action: Action::Press, button: Button::X2 },
    );
    push_if(
        &mut out,
        has_flags(button_flags, RI_MOUSE_BUTTON_5_UP),
        Event::MouseButton { x: None, y: None, action: Action::Release, button: Button::X2 },
    );
    push_if(
        &mut out,
        has_flags(button_flags, RI_MOUSE_WHEEL),
        Event::MouseWheel {
            x: None,
            y: None,
            delta: button_data as i16 as i32,
            direction: WheelDirection::Vertical,
        },
    );
    push_if(
        &mut out,
        has_flags(button_flags, RI_MOUSE_HWHEEL),
        Event::MouseWheel {
            x: None,
            y: None,
            delta: button_data as i16 as i32,
            direction: WheelDirection::Horizontal,
        },
    );
    proof {
        assert(out@ =~= raw_mouse_events(us_flags, button_flags, button_data, last_x, last_y));
    }
    out
}

/// The keyboard event one raw-input keyboard payload stands for: bit 0 of
/// the flags tells a press (`0`) from a release (`1`) apart.
pub open spec fn raw_keyboard_event(vkey: u16, make_code: u16, flags: u16) -> Event {
    Event::Keyboard {
        vk: vk_of_code(vkey as u8).unwrap(),
        scan_code: make_code as u32,
        action: if flags & 1 == 0 {
            Action::Press
        } else {
            Action::Release
        },
    }
}

/// Translates one raw-input keyboard payload into its event.
///
/// A code the key table does not assign is a defect of the payload, not a
/// recoverable input, and is excluded here: the caller checks validity and
/// fails loudly on an unassigned code.
pub fn translate_raw_keyboard(vkey: u16, make_code: u16, flags: u16) -> (r: Event)
    requires
        vk_of_code(vkey as u8) is Some,
    ensures
        r == raw_keyboard_event(vkey, make_code, flags),
{
    let vk = match Vk::from_u8_safe(vkey as u8) {
        Some(vk) => vk,
        None => unreached(),
    };
    Event::Keyboard {
        vk,
        scan_code: make_code as u32,
        action: Action::from_press(flags & 1 == 0),
    }
}

/// The keyboard event one low-level keyboard hook payload stands for: the
/// hook reports a release through [`LLKHF_UP`].
pub open spec fn hook_keyboard_event(vk_code_raw: u32, scan_code: u32, flags: u32) -> Event {
    Event::Keyboard {
        vk: vk_of_code(vk_code_raw as u8).unwrap(),
        scan_code,
        action: if flags == LLKHF_UP {
            Action::Release
        } else {
            Action::Press
        },
    }
}

/// Translates one low-level keyboard hook payload into its event. Only the
/// low byte of the reported code designates the key.
pub fn translate_hook_keyboard(vk_code_raw: u32, scan_code: u32, flags: u32) -> (r: Event)
    requires
        vk_of_code(vk_code_raw as u8) is Some,
    ensures
        r == hook_keyboard_event(vk_code_raw, scan_code, flags),
{
    let vk = match Vk::from_u8_safe(vk_code_raw as u8) {
        Some(vk) => vk,
        None => unreached(),
    };
    Event::Keyboard {
        vk,
        scan_code,
        action: Action::from_release(flags == LLKHF_UP),
    }
}

/// Whether a window message is one of the mouse messages the low-level mouse
/// hook translates.
pub open spec fn hook_mouse_message(w_param: u32) -> bool {
    ||| w_param == WM_LBUTTONDOWN
    ||| w_param == WM_LBUTTONUP
    ||| w_param == WM_RBUTTONDOWN
    ||| w_param == WM_RBUTTONUP
    ||| w_param == WM_XBUTTONDOWN
    ||| w_param == WM_XBUTTONUP
    ||| w_param == WM_MOUSEMOVE
    ||| w_param == WM_MOUSEWHEEL
}

/// The X button an X-button message designates: the selector sits above the
/// low four bits of the message data.
pub open spec fn x_button_of(mouse_data: u32) -> Option<Button> {
    if (mouse_data >> 4) as u16 == XBUTTON1 {
        Some(Button::X1)
    } else if (mouse_data >> 4) as u16 == XBUTTON2 {
        Some(Button::X2)
    } else {
        None
    }
}

/// The event one low-level mouse hook payload stands for. The hook reports
/// the mouse position in screen coordinates with every message; a
/// left-button release maps to the left button.
pub open spec fn hook_mouse_event(w_param: u32, x: i32, y: i32, mouse_data: u32) -> Event {
    if w_param == WM_LBUTTONDOWN {
        Event::MouseButton { x: Some(x), y: Some(y), action: Action::Press, button: Button::Left }
    } else if w_param == WM_LBUTTONUP {
        Event::MouseButton { x: Some(x), y: Some(y), action: Action::Release, button: Button::Left }
    } else if w_param == WM_RBUTTONDOWN {
        Event::MouseButton { x: Some(x), y: Some(y), action: Action::Press, button: Button::Right }
    } else if w_param == WM_RBUTTONUP {
        Event::MouseButton { x: Some(x), y: Some(y), action: Action::Release, button: Button::Right }
    } else if w_param == WM_XBUTTONDOWN {
        Event::MouseButton {
            x: Some(x),
            y: Some(y),
            action: Action::Press,
            button: x_button_of(mouse_data).unwrap(),
        }
    } else if w_param == WM_XBUTTONUP {
        Event::MouseButton {
            x: Some(x),
            y: Some(y),
            action: Action::Release,
            button: x_button_of(mouse_data).unwrap(),
        }
    } else if w_param == WM_MOUSEMOVE {
        Event::MouseMoveAbsolute { x, y, virtual_desk: false }
    } else {
        Event::MouseWheel {
            x: Some(x),
            y: Some(y),
            delta: (mouse_data >> 4) as i32,
            direction: WheelDirection::Vertical,
        }
    }
}

/// Translates one low-level mouse hook payload into its event.
///
/// An unrecognized message, or an X-button message whose data selects no X
/// button, is a defect of the payload and is excluded here: the caller
/// checks and fails loudly on one.
pub fn translate_hook_mouse(w_param: u32, x: i32, y: i32, mouse_data: u32) -> (r: Event)
    requires
        hook_mouse_message(w_param),
        w_param == WM_XBUTTONDOWN || w_param == WM_XBUTTONUP ==> x_button_of(mouse_data) is Some,
    ensures
        r == hook_mouse_event(w_param, x, y, mouse_data),
{
    if w_param == WM_LBUTTONDOWN {
        Event::MouseButton { x: Some(x), y: Some(y), action: Action::Press, button: Button::Left }
    } else if w_param == WM_LBUTTONUP {
        Event::MouseButton { x: Some(x), y: Some(y), action: Action::Release, button: Button::Left }
    } else if w_param == WM_RBUTTONDOWN {
        Event::MouseButton { x: Some(x), y: Some(y), action: Action::Press, button: Button::Right }
    } else if w_param == WM_RBUTTONUP {
        Event::MouseButton { x: Some(x), y: Some(y), action: Action::Release, button: Button::Right }
    } else if w_param == WM_XBUTTONDOWN || w_param == WM_XBUTTONUP {
        let selector = (mouse_data >> 4) as u16;
        let button = if selector == XBUTTON1 {
            Button::X1
        } else if selector == XBUTTON2 {
            Button::X2
        } else {
            unreached()
        };
        let action = if w_param == WM_XBUTTONDOWN {
            Action::Press
        } else {
            Action::Release
        };
        Event::MouseButton { x: Some(x), y: Some(y), action, button }
    } else if w_param == WM_MOUSEMOVE {
        Event::MouseMoveAbsolute { x, y, virtual_desk: false }
    } else {
        Event::MouseWheel {
            x: Some(x),
            y: Some(y),
            delta: (mouse_data >> 4) as i32,
            direction: WheelDirection::Vertical,
        }
    }
}

} // verus!
