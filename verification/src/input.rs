//! Held-key state consumed by the camera.
//!
//! The windowing collaborator reports key presses and releases; the camera
//! only ever asks whether a key is currently held. The state is one boolean
//! per key slot, all false at start. The collaborator translates its own key
//! and action values to a slot index and a held flag before they reach here.

use vstd::prelude::*;

verus! {

/// Number of key slots tracked, covering the windowing library's key codes.
pub const KEY_COUNT: usize = 350;

pub struct InputState {
    key_states: Vec<bool>,
}

impl InputState {
    /// Which keys are held, one flag per slot.
    pub closed spec fn keys(&self) -> Seq<bool> {
        self.key_states@
    }

    /// An input state always tracks exactly `KEY_COUNT` slots.
    pub open spec fn wf(&self) -> bool {
        self.keys().len() == KEY_COUNT
    }

    /// A fresh state: no key held.
    pub fn new() -> (s: InputState)
        ensures
            s.wf(),
            forall|i: int| 0 <= i < s.keys().len() ==> !s.keys()[i],
    {
        let mut key_states: Vec<bool> = Vec::new();
        let mut k: usize = 0;
        while k < KEY_COUNT
            invariant
                k <= KEY_COUNT,
                key_states@.len() == k,
                forall|i: int| 0 <= i < k ==> !key_states@[i],
            decreases KEY_COUNT - k,
        {
            key_states.push(false);
            k = k + 1;
        }
        InputState { key_states }
    }

    /// Records that `key` is now held or released; no other slot changes.
    pub fn set_key_state(&mut self, key: usize, held: bool)
        requires
            old(self).wf(),
            key < KEY_COUNT,
        ensures
            final(self).wf(),
            final(self).keys() == old(self).keys().update(key as int, held),
    {
        self.key_states[key] = held;
    }

    /// Whether `key` is currently held.
    pub fn is_key_held(&self, key: usize) -> (r: bool)
        requires
            self.wf(),
            key < KEY_COUNT,
        ensures
            r == self.keys()[key as int],
    {
        self.key_states[key]
    }
}

} // verus!
