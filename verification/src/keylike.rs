use vstd::prelude::*;
use crate::input::Action;
use crate::input::Button;
use crate::input::Input;
use crate::input::button_input_data;
use crate::input::button_input_flags;
use crate::input::char_input_flags;
use crate::input::vk_input_flags;
use crate::vk::Vk;
use crate::vk::vk_code;

verus! {

/// A trait for values that can be used as keys: a [`Vk`], a [`Button`] or a
/// `char` can be used as a key.
pub trait Keylike: Copy + Sized {
    /// Whether this value can be turned into an input record at all. Any
    /// `char` above `0xffff` cannot.
    spec fn producible(self) -> bool;

    /// The input record that takes `action` on this key.
    spec fn input_for(self, action: Action) -> Input;

    /// Produces the input record that causes the given action to be taken
    /// on `self`.
    fn produce_input(self, action: Action) -> (r: Input)
        requires
            self.producible(),
        ensures
            r == self.input_for(action),
    ;
}

impl Keylike for char {
    open spec fn producible(self) -> bool {
        self as u32 <= 0xffff
    }

    open spec fn input_for(self, action: Action) -> Input {
        Input::Keyboard { vk: 0u16, scan: self as u16, flags: char_input_flags(action) }
    }

    fn produce_input(self, action: Action) -> Input {
        match Input::from_char(self, action) {
            Some(input) => input,
            None => unreached(),
        }
    }
}

impl Keylike for Vk {
    open spec fn producible(self) -> bool {
        true
    }

    open spec fn input_for(self, action: Action) -> Input {
        Input::Keyboard { vk: vk_code(self) as u16, scan: 0u16, flags: vk_input_flags(action) }
    }

    fn produce_input(self, action: Action) -> Input {
        Input::from_vk(self, action)
    }
}

impl Keylike for Button {
    open spec fn producible(self) -> bool {
        true
    }

    open spec fn input_for(self, action: Action) -> Input {
        Input::Mouse {
            dx: 0i32,
            dy: 0i32,
            data: button_input_data(self),
            flags: button_input_flags(self, action),
        }
    }

    fn produce_input(self, action: Action) -> Input {
        Input::from_button(self, action)
    }
}

/// Produces the input records that press and release each given key in
/// turn: handing them to the platform's input-synthesis call synthesizes
/// the keystrokes.
pub fn key_sequence_inputs<K: Keylike>(keys: &Vec<K>) -> (r: Vec<Input>)
    requires
        forall|i: int| 0 <= i < keys@.len() ==> (#[trigger] keys@[i]).producible(),
    ensures
        r@.len() == 2 * keys@.len(),
        forall|i: int| 0 <= i < keys@.len() ==> {
            &&& r@[2 * i] == (#[trigger] keys@[i]).input_for(Action::Press)
            &&& r@[2 * i + 1] == keys@[i].input_for(Action::Release)
        },
{
    let mut buffer: Vec<Input> = Vec::new();
    let mut idx: usize = 0;
    while idx < keys.len()
        invariant
            idx <= keys@.len(),
            buffer@.len() == 2 * idx,
            forall|i: int| 0 <= i < keys@.len() ==> (#[trigger] keys@[i]).producible(),
            forall|i: int| 0 <= i < idx ==> {
                &&& buffer@[2 * i] == (#[trigger] keys@[i]).input_for(Action::Press)
                &&& buffer@[2 * i + 1] == keys@[i].input_for(Action::Release)
            },
        decreases keys@.len() - idx,
    {
        let key = keys[idx];
        buffer.push(key.produce_input(Action::Press));
        buffer.push(key.produce_input(Action::Release));
        idx = idx + 1;
    }
    buffer
}

/// Produces the input records that press and release each character of the
/// given string in turn, in string order.
///
/// A character above `0xffff` cannot be turned into an input record and is
/// excluded here: the caller checks and fails loudly on one.
pub fn str_inputs(s: &str) -> (r: Vec<Input>)
    requires
        forall|i: int| 0 <= i < s@.len() ==> (#[trigger] s@[i]).producible(),
    ensures
        r@.len() == 2 * s@.len(),
        forall|i: int| 0 <= i < s@.len() ==> {
            &&& r@[2 * i] == (#[trigger] s@[i]).input_for(Action::Press)
            &&& r@[2 * i + 1] == s@[i].input_for(Action::Release)
        },
{
    broadcast use vstd::string::axiom_spec_iter;
    broadcast use vstd::string::next_postcondition;

    let mut chars_iter = s.chars();
    let mut buffer: Vec<Input> = Vec::new();
    let ghost mut taken: int = 0;
    let mut done = false;
    while !done
        invariant
            0 <= taken <= s@.len(),
            vstd::std_specs::iter::IteratorSpec::remaining(&chars_iter) == s@.skip(taken),
            done ==> taken == s@.len(),
            buffer@.len() == 2 * taken,
            forall|i: int| 0 <= i < s@.len() ==> (#[trigger] s@[i]).producible(),
            forall|i: int| 0 <= i < taken ==> {
                &&& buffer@[2 * i] == (#[trigger] s@[i]).input_for(Action::Press)
                &&& buffer@[2 * i + 1] == s@[i].input_for(Action::Release)
            },
        decreases s@.len() - taken + (if done { 0int } else { 1int }),
    {
        match chars_iter.next() {
            None => {
                done = true;
            },
            Some(c) => {
                proof {
                    assert(c == s@[taken]);
                }
                buffer.push(c.produce_input(Action::Press));
                buffer.push(c.produce_input(Action::Release));
                proof {
                    taken = taken + 1;
                }
            },
        }
    }
    buffer
}

} // verus!
