use winput::events::Event;
use winput::translate::{
    has_flags, translate_hook_keyboard, translate_hook_mouse, translate_raw_keyboard,
    translate_raw_mouse, LLKHF_UP, MOUSE_MOVE_ABSOLUTE, MOUSE_VIRTUAL_DESKTOP,
    RI_MOUSE_HWHEEL, RI_MOUSE_LEFT_BUTTON_DOWN, RI_MOUSE_RIGHT_BUTTON_UP, RI_MOUSE_WHEEL,
    WM_LBUTTONDOWN, WM_LBUTTONUP, WM_MOUSEMOVE, WM_MOUSEWHEEL, WM_XBUTTONDOWN, WM_XBUTTONUP,
};
use winput::{Action, Button, Vk, WheelDirection};

#[test]
fn has_flags_checks_all_bits_of_the_mask() {
    assert!(has_flags(0b1011, 0b0011));
    assert!(!has_flags(0b1011, 0b0101));
    assert!(has_flags(0xffff, 0x8000));
    // An empty mask is contained in anything.
    assert!(has_flags(0, 0));
    assert!(has_flags(0x1234, 0));
}

#[test]
fn raw_mouse_with_no_flags_is_one_relative_move() {
    let events = translate_raw_mouse(0, 0, 0, 7, -3);
    assert_eq!(events, vec![Event::MouseMoveRelative { x: 7, y: -3 }]);
}

#[test]
fn raw_mouse_absolute_motion_keeps_the_virtual_desktop_flag() {
    let events = translate_raw_mouse(MOUSE_MOVE_ABSOLUTE | MOUSE_VIRTUAL_DESKTOP, 0, 0, 100, 200);
    assert_eq!(
        events,
        vec![
            Event::MouseMoveRelative { x: 100, y: 200 },
            Event::MouseMoveAbsolute { x: 100, y: 200, virtual_desk: true },
        ]
    );
}

#[test]
fn raw_mouse_reports_buttons_and_wheel_in_fixed_order() {
    let flags = RI_MOUSE_LEFT_BUTTON_DOWN | RI_MOUSE_RIGHT_BUTTON_UP | RI_MOUSE_WHEEL;
    let events = translate_raw_mouse(0, flags, 120, 0, 0);
    assert_eq!(
        events,
        vec![
            Event::MouseMoveRelative { x: 0, y: 0 },
            Event::MouseButton { x: None, y: None, action: Action::Press, button: Button::Left },
            Event::MouseButton { x: None, y: None, action: Action::Release, button: Button::Right },
            Event::MouseWheel { x: None, y: None, delta: 120, direction: WheelDirection::Vertical },
        ]
    );
}

#[test]
fn raw_mouse_wheel_rotation_is_signed() {
    let backward = (-120i16) as u16;
    let events = translate_raw_mouse(0, RI_MOUSE_HWHEEL, backward, 0, 0);
    assert_eq!(
        events,
        vec![
            Event::MouseMoveRelative { x: 0, y: 0 },
            Event::MouseWheel { x: None, y: None, delta: -120, direction: WheelDirection::Horizontal },
        ]
    );
}

#[test]
fn raw_keyboard_tells_press_from_release_by_bit_zero() {
    assert_eq!(
        translate_raw_keyboard(0x41, 30, 0),
        Event::Keyboard { vk: Vk::A, scan_code: 30, action: Action::Press }
    );
    assert_eq!(
        translate_raw_keyboard(0x41, 30, 1),
        Event::Keyboard { vk: Vk::A, scan_code: 30, action: Action::Release }
    );
}

#[test]
fn hook_keyboard_tells_press_from_release_by_the_up_flag() {
    assert_eq!(
        translate_hook_keyboard(0x1b, 1, 0),
        Event::Keyboard { vk: Vk::Escape, scan_code: 1, action: Action::Press }
    );
    assert_eq!(
        translate_hook_keyboard(0x1b, 1, LLKHF_UP),
        Event::Keyboard { vk: Vk::Escape, scan_code: 1, action: Action::Release }
    );
}

#[test]
fn hook_mouse_left_release_maps_to_the_left_button() {
    assert_eq!(
        translate_hook_mouse(WM_LBUTTONDOWN, 10, 20, 0),
        Event::MouseButton { x: Some(10), y: Some(20), action: Action::Press, button: Button::Left }
    );
    assert_eq!(
        translate_hook_mouse(WM_LBUTTONUP, 10, 20, 0),
        Event::MouseButton { x: Some(10), y: Some(20), action: Action::Release, button: Button::Left }
    );
}

#[test]
fn hook_mouse_x_buttons_are_selected_by_the_data() {
    assert_eq!(
        translate_hook_mouse(WM_XBUTTONDOWN, 1, 2, 1 << 4),
        Event::MouseButton { x: Some(1), y: Some(2), action: Action::Press, button: Button::X1 }
    );
    assert_eq!(
        translate_hook_mouse(WM_XBUTTONUP, 1, 2, 2 << 4),
        Event::MouseButton { x: Some(1), y: Some(2), action: Action::Release, button: Button::X2 }
    );
}

#[test]
fn hook_mouse_motion_and_wheel_carry_the_position() {
    assert_eq!(
        translate_hook_mouse(WM_MOUSEMOVE, 640, 480, 0),
        Event::MouseMoveAbsolute { x: 640, y: 480, virtual_desk: false }
    );
    assert_eq!(
        translate_hook_mouse(WM_MOUSEWHEEL, 5, 6, 120 << 4),
        Event::MouseWheel { x: Some(5), y: Some(6), delta: 120, direction: WheelDirection::Vertical }
    );
}
