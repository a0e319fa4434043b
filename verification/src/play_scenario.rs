//! Playing a scenario freely: the one gameplay mode with nothing to decide.

use vstd::prelude::*;

verus! {

#[derive(Clone, Copy, PartialEq, Eq, Structural, Debug)]
pub struct PlayScenario;

impl PlayScenario {
    pub fn new() -> PlayScenario {
        PlayScenario
    }

    /// One frame. Gives whether the host is to leave the mode, which it never
    /// is.
    pub fn event(&mut self) -> (leave: bool)
        ensures
            !leave,
    {
        false
    }
}

} // verus!
