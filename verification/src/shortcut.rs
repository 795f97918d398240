//! User-configurable command shortcuts.
//!
//! A shortcut is a trigger condition over the accumulated [`InputState`]:
//! it is satisfied when every key and controller button it names is
//! currently considered pressed.

use vstd::prelude::*;

use crate::input::{ButtonRef, InputState, InputView};

verus! {

/// The trigger condition of one shortcut.
#[derive(Debug)]
pub struct Shortcut {
    /// Keys that must all be pressed.
    pub keys: Vec<u32>,
    /// Controller buttons that must all be pressed.
    pub buttons: Vec<ButtonRef>,
}

impl Shortcut {
    /// Whether the condition is satisfied by an input state's model.
    pub open spec fn spec_matches(self, v: InputView) -> bool {
        &&& forall|i: int| 0 <= i < self.keys@.len() ==> v.keys.contains(#[trigger] self.keys@[i])
        &&& forall|i: int|
            0 <= i < self.buttons@.len() ==> v.buttons.contains(#[trigger] self.buttons@[i])
    }

    /// A shortcut triggered by holding the given keys together.
    pub fn from_keys(keys: Vec<u32>) -> (r: Shortcut)
        ensures
            r.keys@ == keys@,
            r.buttons@ == Seq::<ButtonRef>::empty(),
    {
        Shortcut { keys, buttons: Vec::new() }
    }

    /// Whether the condition is satisfied by the current input state.
    pub fn matches(&self, st: &InputState) -> (r: bool)
        ensures
            r == self.spec_matches(st@),
    {
        let mut i: usize = 0;
        while i < self.keys.len()
            invariant
                i <= self.keys@.len(),
                forall|j: int| 0 <= j < i ==> st@.keys.contains(#[trigger] self.keys@[j]),
            decreases self.keys@.len() - i,
        {
            if !st.key_pressed(self.keys[i]) {
                return false;
            }
            i = i + 1;
        }
        let mut i: usize = 0;
        while i < self.buttons.len()
            invariant
                i <= self.buttons@.len(),
                forall|j: int| 0 <= j < self.keys@.len() ==> st@.keys.contains(
                    #[trigger] self.keys@[j],
                ),
                forall|j: int| 0 <= j < i ==> st@.buttons.contains(#[trigger] self.buttons@[j]),
            decreases self.buttons@.len() - i,
        {
            if !st.button_pressed(self.buttons[i].which, self.buttons[i].button) {
                return false;
            }
            i = i + 1;
        }
        true
    }
}

} // verus!
