use winput::input::{
    KEYEVENTF_KEYUP, KEYEVENTF_UNICODE, MOUSEEVENTF_ABSOLUTE, MOUSEEVENTF_HWHEEL,
    MOUSEEVENTF_LEFTDOWN, MOUSEEVENTF_MOVE, MOUSEEVENTF_RIGHTUP, MOUSEEVENTF_VIRTUALDESK,
    MOUSEEVENTF_WHEEL, MOUSEEVENTF_XDOWN,
};
use winput::{Action, Button, Input, Keylike, MouseMotion, Mouse, Vk, WheelDirection};

#[test]
fn action_from_press_and_release() {
    assert_eq!(Action::from_press(true), Action::Press);
    assert_eq!(Action::from_press(false), Action::Release);
    assert_eq!(Action::from_release(true), Action::Release);
    assert_eq!(Action::from_release(false), Action::Press);
}

#[test]
fn char_input_is_a_unicode_event() {
    let input = Input::from_char('A', Action::Press).unwrap();
    assert_eq!(input, Input::Keyboard { vk: 0, scan: 0x41, flags: KEYEVENTF_UNICODE });
    let input = Input::from_char('A', Action::Release).unwrap();
    assert_eq!(
        input,
        Input::Keyboard { vk: 0, scan: 0x41, flags: KEYEVENTF_KEYUP | KEYEVENTF_UNICODE }
    );
}

#[test]
fn char_above_the_basic_plane_is_rejected() {
    assert_eq!(Input::from_char('\u{10348}', Action::Press), None);
}

#[test]
fn vk_input_carries_the_key_code() {
    assert_eq!(
        Input::from_vk(Vk::Enter, Action::Press),
        Input::Keyboard { vk: 0x0d, scan: 0, flags: 0 }
    );
    assert_eq!(
        Input::from_vk(Vk::Enter, Action::Release),
        Input::Keyboard { vk: 0x0d, scan: 0, flags: KEYEVENTF_KEYUP }
    );
}

#[test]
fn button_inputs_carry_flags_and_data() {
    assert_eq!(
        Input::from_button(Button::Left, Action::Press),
        Input::Mouse { dx: 0, dy: 0, data: 0, flags: MOUSEEVENTF_LEFTDOWN }
    );
    assert_eq!(
        Input::from_button(Button::Right, Action::Release),
        Input::Mouse { dx: 0, dy: 0, data: 0, flags: MOUSEEVENTF_RIGHTUP }
    );
    assert_eq!(
        Input::from_button(Button::X2, Action::Press),
        Input::Mouse { dx: 0, dy: 0, data: 2, flags: MOUSEEVENTF_XDOWN }
    );
}

#[test]
fn motion_inputs_distinguish_relative_and_absolute() {
    assert_eq!(
        Input::from_motion(MouseMotion::Relative { dx: 100, dy: 50 }),
        Input::Mouse { dx: 100, dy: 50, data: 0, flags: MOUSEEVENTF_MOVE }
    );
    assert_eq!(
        Input::from_motion(MouseMotion::Absolute { x: 32768, y: 32768, virtual_desk: false }),
        Input::Mouse { dx: 32768, dy: 32768, data: 0, flags: MOUSEEVENTF_MOVE | MOUSEEVENTF_ABSOLUTE }
    );
    assert_eq!(
        Input::from_motion(MouseMotion::Absolute { x: 0, y: 65535, virtual_desk: true }),
        Input::Mouse {
            dx: 0,
            dy: 65535,
            data: 0,
            flags: MOUSEEVENTF_MOVE | MOUSEEVENTF_VIRTUALDESK | MOUSEEVENTF_ABSOLUTE
        }
    );
}

#[test]
fn wheel_inputs_carry_direction_and_amount() {
    assert_eq!(
        Input::from_wheel(120, WheelDirection::Vertical),
        Input::Mouse { dx: 0, dy: 0, data: 120, flags: MOUSEEVENTF_WHEEL }
    );
    assert_eq!(
        Input::from_wheel(-120, WheelDirection::Horizontal),
        Input::Mouse { dx: 0, dy: 0, data: (-120i32) as u32, flags: MOUSEEVENTF_HWHEEL }
    );
}

#[test]
fn mouse_move_relative_builds_the_motion_input() {
    assert_eq!(
        Mouse::move_relative(100, 50),
        Input::Mouse { dx: 100, dy: 50, data: 0, flags: MOUSEEVENTF_MOVE }
    );
}

#[test]
fn keylike_produces_the_same_inputs_as_the_constructors() {
    assert_eq!('A'.produce_input(Action::Press), Input::from_char('A', Action::Press).unwrap());
    assert_eq!(Vk::Shift.produce_input(Action::Release), Input::from_vk(Vk::Shift, Action::Release));
    assert_eq!(
        Button::Middle.produce_input(Action::Press),
        Input::from_button(Button::Middle, Action::Press)
    );
}

#[test]
fn key_sequence_presses_then_releases_each_key() {
    let keys = vec![Vk::A, Vk::B];
    let inputs = winput::keylike::key_sequence_inputs(&keys);
    assert_eq!(inputs.len(), 4);
    assert_eq!(inputs[0], Input::from_vk(Vk::A, Action::Press));
    assert_eq!(inputs[1], Input::from_vk(Vk::A, Action::Release));
    assert_eq!(inputs[2], Input::from_vk(Vk::B, Action::Press));
    assert_eq!(inputs[3], Input::from_vk(Vk::B, Action::Release));
}

#[test]
fn str_inputs_walks_the_string_in_order() {
    let inputs = winput::keylike::str_inputs("ab");
    assert_eq!(inputs.len(), 4);
    assert_eq!(inputs[0], Input::from_char('a', Action::Press).unwrap());
    assert_eq!(inputs[1], Input::from_char('a', Action::Release).unwrap());
    assert_eq!(inputs[2], Input::from_char('b', Action::Press).unwrap());
    assert_eq!(inputs[3], Input::from_char('b', Action::Release).unwrap());
}

#[test]
fn str_inputs_of_the_empty_string_is_empty() {
    assert_eq!(winput::keylike::str_inputs("").len(), 0);
}
