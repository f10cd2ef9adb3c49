//! Transient feedback (a message banner, a shaking row) that a delayed task
//! clears. Each raise hands out a token; only the task holding the latest
//! token may clear, so a stale task never clobbers newer feedback.

use vstd::prelude::*;

verus! {

/// A flag that is raised for a while and cleared by the task of its latest raise.
#[derive(Clone, Copy, Debug, PartialEq, Eq, Structural)]
pub struct TransientFlag {
    pub generation: u64,
    pub active: bool,
}

impl TransientFlag {
    /// A lowered flag.
    pub fn new() -> (r: TransientFlag)
        ensures
            !r.active,
            r.generation == 0,
    {
        TransientFlag { generation: 0, active: false }
    }

    /// Raises the flag and returns the token of this raise; any earlier token
    /// goes stale.
    pub fn raise(&mut self) -> (r: u64)
        ensures
            final(self).active,
            final(self).generation == old(self).generation.wrapping_add(1),
            r == final(self).generation,
    {
        self.generation = self.generation.wrapping_add(1);
        self.active = true;
        self.generation
    }

    /// Clears the flag when `token` is that of the latest raise and the flag
    /// is up; returns whether it did. A stale token changes nothing.
    pub fn expire(&mut self, token: u64) -> (r: bool)
        ensures
            r == (old(self).active && token == old(self).generation),
            r ==> !final(self).active && final(self).generation == old(self).generation,
            !r ==> *final(self) == *old(self),
    {
        if self.active && token == self.generation {
            self.active = false;
            true
        } else {
            false
        }
    }
}

} // verus!
