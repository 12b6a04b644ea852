//! The peripherals the processor consults while executing: a millisecond
//! timer and a keyboard.
//!
//! The host injects both; nothing is assumed about what they answer, so
//! the processor's contract only says what holds of every outcome.

use vstd::prelude::*;

use crate::Word;

verus! {

/// A source of milliseconds and key states, injected by the host.
pub trait Periphery {
    /// Milliseconds since the host's epoch, at this very moment.
    fn poll_ms(&mut self) -> u64;

    /// Whether the key with the given code is currently held down.
    fn key_down(&mut self, keycode: Word) -> bool;
}

/// A periphery that always answers the same: the default for tests and
/// for machines that never poll.
pub struct FixedPeriphery {
    pub ms: u64,
    pub key: bool,
}

impl FixedPeriphery {
    /// A periphery whose clock reads zero and whose keys are all up.
    pub fn new() -> (r: FixedPeriphery)
        ensures
            r.ms == 0,
            r.key == false,
    {
        FixedPeriphery { ms: 0, key: false }
    }
}

impl Periphery for FixedPeriphery {
    fn poll_ms(&mut self) -> (r: u64)
        ensures
            r == old(self).ms,
            *final(self) == *old(self),
    {
        self.ms
    }

    fn key_down(&mut self, _keycode: Word) -> (r: bool)
        ensures
            r == old(self).key,
            *final(self) == *old(self),
    {
        self.key
    }
}

} // verus!
