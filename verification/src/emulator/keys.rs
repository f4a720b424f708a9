//! The keypad: sixteen keys, indexed by a 4-bit code. The host updates the
//! table between cycles; the machine only reads it.

use vstd::prelude::*;

verus! {

/// The state of the sixteen keys.
pub struct Keys {
    key_values: [bool; 16],
}

impl Keys {
    /// The table: entry `k` tells whether key `k` is down.
    pub closed spec fn view(&self) -> Seq<bool> {
        self.key_values@
    }

    /// The table has sixteen entries.
    pub proof fn lemma_sixteen(&self)
        ensures
            self@.len() == 16,
    {
    }

    pub fn new() -> (keys: Self)
        ensures
            keys@ == Seq::new(16, |k: int| false),
    {
        Self { key_values: [false; 16] }
    }

    pub fn is_pressed(&self, k: u8) -> (pressed: bool)
        requires
            k < 16,
        ensures
            pressed == self@[k as int],
    {
        self.key_values[k as usize]
    }

    pub fn set_key(&mut self, k: u8, pressed: bool)
        requires
            k < 16,
        ensures
            final(self)@ == old(self)@.update(k as int, pressed),
    {
        self.key_values[k as usize] = pressed;
    }
}

} // verus!
