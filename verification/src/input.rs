use vstd::prelude::*;
use crate::vk::Vk;
use crate::vk::vk_code;

verus! {

/// Flag set on a synthesized keyboard input when the key is released.
pub const KEYEVENTF_KEYUP: u32 = 0x0002;
/// Flag marking a synthesized keyboard input as a unicode character event.
pub const KEYEVENTF_UNICODE: u32 = 0x0004;

/// Flag marking a synthesized mouse input as a movement.
pub const MOUSEEVENTF_MOVE: u32 = 0x0001;
/// The left mouse button was pressed.
pub const MOUSEEVENTF_LEFTDOWN: u32 = 0x0002;
/// The left mouse button was released.
pub const MOUSEEVENTF_LEFTUP: u32 = 0x0004;
/// The right mouse button was pressed.
pub const MOUSEEVENTF_RIGHTDOWN: u32 = 0x0008;
/// The right mouse button was released.
pub const MOUSEEVENTF_RIGHTUP: u32 = 0x0010;
/// The middle mouse button was pressed.
pub const MOUSEEVENTF_MIDDLEDOWN: u32 = 0x0020;
/// The middle mouse button was released.
pub const MOUSEEVENTF_MIDDLEUP: u32 = 0x0040;
/// An X mouse button was pressed.
pub const MOUSEEVENTF_XDOWN: u32 = 0x0080;
/// An X mouse button was released.
pub const MOUSEEVENTF_XUP: u32 = 0x0100;
/// The mouse wheel was rotated vertically.
pub const MOUSEEVENTF_WHEEL: u32 = 0x0800;
/// The mouse wheel was rotated horizontally.
pub const MOUSEEVENTF_HWHEEL: u32 = 0x1000;
/// The coordinates of the movement span the whole virtual desktop.
pub const MOUSEEVENTF_VIRTUALDESK: u32 = 0x4000;
/// The coordinates of the movement are absolute, normalized to 0..=65535.
pub const MOUSEEVENTF_ABSOLUTE: u32 = 0x8000;

/// Represents an action that can be taken on a key or button.
#[derive(Clone, Copy, PartialEq, Eq, Structural, Hash, Debug)]
pub enum Action {
    /// The action of pressing the key.
    Press,
    /// The action of releasing the key.
    Release,
}

impl Action {
    /// Creates a new [`Action`] from the given `bool`.
    ///
    /// * If `is_press` is `true`, `Action::Press` is returned.
    /// * If `is_press` is `false`, `Action::Release` is returned.
    pub fn from_press(is_press: bool) -> (r: Self)
        ensures
            r == (if is_press { Action::Press } else { Action::Release }),
    {
        if is_press {
            Self::Press
        } else {
            Self::Release
        }
    }

    /// Creates a new [`Action`] from the given `bool`.
    ///
    /// * If `is_release` is `true`, `Action::Release` is returned.
    /// * If `is_release` is `false`, `Action::Press` is returned.
    pub fn from_release(is_release: bool) -> (r: Self)
        ensures
            r == (if is_release { Action::Release } else { Action::Press }),
    {
        if is_release {
            Self::Release
        } else {
            Self::Press
        }
    }
}

/// A mouse button.
#[derive(Clone, Copy, PartialEq, Eq, Structural, Hash, Debug)]
pub enum Button {
    /// The left mouse button.
    Left,
    /// The right mouse button.
    Right,
    /// The middle mouse button.
    Middle,
    /// The X1 mouse button.
    X1,
    /// The X2 mouse button.
    X2,
}

/// Describes the direction of a mouse wheel.
#[derive(Clone, Copy, PartialEq, Eq, Structural, Hash, Debug)]
pub enum WheelDirection {
    Vertical,
    Horizontal,
}

/// Describes a mouse motion.
///
/// Absolute coordinates are normalized to the range `0..=65535`, where `0`
/// maps to the left (or top) edge of the screen and `65535` to the right (or
/// bottom) edge; this is the same scale the platform's input-synthesis call
/// expects.
#[derive(Clone, Copy, PartialEq, Eq, Structural, Debug)]
pub enum MouseMotion {
    /// A relative mouse motion, in pixels. A positive `dy` makes the mouse
    /// go down.
    Relative { dx: i32, dy: i32 },
    /// An absolute mouse motion, in normalized coordinates.
    Absolute { x: i32, y: i32, virtual_desk: bool },
}

/// Stores the information needed to synthesize one keystroke, mouse motion or
/// button click: the fields of the input record handed to the platform's
/// input-synthesis call.
#[derive(Clone, Copy, PartialEq, Eq, Structural, Debug)]
pub enum Input {
    /// A keyboard input record.
    Keyboard {
        /// The Virtual-Key Code, or `0` for a unicode character event.
        vk: u16,
        /// The scan code, or the unicode character for a character event.
        scan: u16,
        /// A combination of the `KEYEVENTF_*` flags.
        flags: u32,
    },
    /// A mouse input record.
    Mouse {
        /// Horizontal position or motion.
        dx: i32,
        /// Vertical position or motion.
        dy: i32,
        /// Extra data: wheel rotation amount, or which X button is involved.
        data: u32,
        /// A combination of the `MOUSEEVENTF_*` flags.
        flags: u32,
    },
}

/// The flags of a synthesized unicode character input.
pub open spec fn char_input_flags(action: Action) -> u32 {
    match action {
        Action::Release => KEYEVENTF_KEYUP | KEYEVENTF_UNICODE,
        Action::Press => KEYEVENTF_UNICODE,
    }
}

/// The flags of a synthesized Virtual-Key Code input.
pub open spec fn vk_input_flags(action: Action) -> u32 {
    match action {
        Action::Release => KEYEVENTF_KEYUP,
        Action::Press => 0u32,
    }
}

/// The extra data of a synthesized button input: only the X buttons need to
/// say which button is involved.
pub open spec fn button_input_data(button: Button) -> u32 {
    match button {
        Button::X1 => 1u32,
        Button::X2 => 2u32,
        _ => 0u32,
    }
}

/// The flags of a synthesized button input.
pub open spec fn button_input_flags(button: Button, action: Action) -> u32 {
    match button {
        Button::Left => match action {
            Action::Press => MOUSEEVENTF_LEFTDOWN,
            Action::Release => MOUSEEVENTF_LEFTUP,
        },
        Button::Right => match action {
            Action::Press => MOUSEEVENTF_RIGHTDOWN,
            Action::Release => MOUSEEVENTF_RIGHTUP,
        },
        Button::Middle => match action {
            Action::Press => MOUSEEVENTF_MIDDLEDOWN,
            Action::Release => MOUSEEVENTF_MIDDLEUP,
        },
        Button::X1 | Button::X2 => match action {
            Action::Press => MOUSEEVENTF_XDOWN,
            Action::Release => MOUSEEVENTF_XUP,
        },
    }
}

/// The input record of a mouse motion.
pub open spec fn motion_input(motion: MouseMotion) -> Input {
    match motion {
        MouseMotion::Relative { dx, dy } => Input::Mouse {
            dx,
            dy,
            data: 0u32,
            flags: MOUSEEVENTF_MOVE,
        },
        MouseMotion::Absolute { x, y, virtual_desk } => Input::Mouse {
            dx: x,
            dy: y,
            data: 0u32,
            flags: if virtual_desk {
                MOUSEEVENTF_MOVE | MOUSEEVENTF_VIRTUALDESK | MOUSEEVENTF_ABSOLUTE
            } else {
                MOUSEEVENTF_MOVE | MOUSEEVENTF_ABSOLUTE
            },
        },
    }
}

impl Input {
    /// Creates an [`Input`] that causes the given action to be taken on the
    /// given character. If the given character is above `0x0000ffff`, `None`
    /// is returned.
    pub fn from_char(c: char, action: Action) -> (r: Option<Input>)
        ensures
            r == (if c as u32 > 0xffff {
                Option::<Input>::None
            } else {
                Option::Some(Input::Keyboard {
                    vk: 0u16,
                    scan: c as u16,
                    flags: char_input_flags(action),
                })
            }),
    {
        let c_n = c as u32;
        if c_n > 0x0000ffff {
            return None;
        }

        let flags: u32 = match action {
            Action::Release => KEYEVENTF_KEYUP | KEYEVENTF_UNICODE,
            Action::Press => KEYEVENTF_UNICODE,
        };
        Some(Input::Keyboard { vk: 0, scan: c_n as u16, flags })
    }

    /// Creates an [`Input`] that causes the given action to be taken on the
    /// given Virtual-Key Code.
    pub fn from_vk(vk: Vk, action: Action) -> (r: Input)
        ensures
            r == (Input::Keyboard {
                vk: vk_code(vk) as u16,
                scan: 0u16,
                flags: vk_input_flags(action),
            }),
    {
        let flags: u32 = match action {
            Action::Release => KEYEVENTF_KEYUP,
            Action::Press => 0,
        };
        Input::Keyboard { vk: vk.into_u8() as u16, scan: 0, flags }
    }

    /// Creates an [`Input`] that causes the given action to be taken on the
    /// given mouse button.
    pub fn from_button(button: Button, action: Action) -> (r: Input)
        ensures
            r == (Input::Mouse {
                dx: 0i32,
                dy: 0i32,
                data: button_input_data(button),
                flags: button_input_flags(button, action),
            }),
    {
        let data: u32 = match button {
            Button::X1 => 1,
            Button::X2 => 2,
            _ => 0,
        };
        let flags: u32 = match button {
            Button::Left => match action {
                Action::Press => MOUSEEVENTF_LEFTDOWN,
                Action::Release => MOUSEEVENTF_LEFTUP,
            },
            Button::Right => match action {
                Action::Press => MOUSEEVENTF_RIGHTDOWN,
                Action::Release => MOUSEEVENTF_RIGHTUP,
            },
            Button::Middle => match action {
                Action::Press => MOUSEEVENTF_MIDDLEDOWN,
                Action::Release => MOUSEEVENTF_MIDDLEUP,
            },
            Button::X1 | Button::X2 => match action {
                Action::Press => MOUSEEVENTF_XDOWN,
                Action::Release => MOUSEEVENTF_XUP,
            },
        };
        Input::Mouse { dx: 0, dy: 0, data, flags }
    }

    /// Creates an [`Input`] that causes the mouse to move according to the
    /// given [`MouseMotion`].
    pub fn from_motion(motion: MouseMotion) -> (r: Input)
        ensures
            r == motion_input(motion),
    {
        match motion {
            MouseMotion::Relative { dx, dy } => {
                Input::Mouse { dx, dy, data: 0, flags: MOUSEEVENTF_MOVE }
            }
            MouseMotion::Absolute { x, y, virtual_desk } => {
                let flags: u32 = if virtual_desk {
                    MOUSEEVENTF_MOVE | MOUSEEVENTF_VIRTUALDESK | MOUSEEVENTF_ABSOLUTE
                } else {
                    MOUSEEVENTF_MOVE | MOUSEEVENTF_ABSOLUTE
                };
                Input::Mouse { dx: x, dy: y, data: 0, flags }
            }
        }
    }

    /// Creates an [`Input`] that causes the mouse wheel to rotate by the
    /// given raw amount and in the given [`WheelDirection`].
    ///
    /// The amount is in raw wheel units: one detent of the wheel is `120`
    /// units. A positive vertical amount rotates the wheel forward, away from
    /// the user; a positive horizontal amount rotates it to the right.
    pub fn from_wheel(amount: i32, direction: WheelDirection) -> (r: Input)
        ensures
            r == (Input::Mouse {
                dx: 0i32,
                dy: 0i32,
                data: amount as u32,
                flags: match direction {
                    WheelDirection::Vertical => MOUSEEVENTF_WHEEL,
                    WheelDirection::Horizontal => MOUSEEVENTF_HWHEEL,
                },
            }),
    {
        let flags: u32 = match direction {
            WheelDirection::Vertical => MOUSEEVENTF_WHEEL,
            WheelDirection::Horizontal => MOUSEEVENTF_HWHEEL,
        };
        Input::Mouse { dx: 0, dy: 0, data: amount as u32, flags }
    }
}

} // verus!
