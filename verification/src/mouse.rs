use vstd::prelude::*;
use crate::input::Input;
use crate::input::MouseMotion;
use crate::input::motion_input;

verus! {

/// A zero-sized structure that wraps functions related to the mouse.
pub struct Mouse;

impl Mouse {
    /// The input record that moves the mouse relatively to its current
    /// position, in screen coordinates; handing it to the platform's
    /// input-synthesis call performs the motion.
    pub fn move_relative(dx: i32, dy: i32) -> (r: Input)
        ensures
            r == motion_input(MouseMotion::Relative { dx, dy }),
    {
        Input::from_motion(MouseMotion::Relative { dx, dy })
    }
}

} // verus!
