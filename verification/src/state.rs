use vstd::prelude::*;

verus! {

/// The script and game values that a pause delay saves while the game reads
/// input, to put them back afterwards.
#[derive(Clone, Copy, Debug, PartialEq, Eq, Structural)]
pub struct State {
    pub delay: i32,
    pub hascontrol: bool,
    pub running: bool,
}

impl Default for State {
    fn default() -> (s: State)
        ensures
            s.delay == 0,
            !s.hascontrol,
            !s.running,
    {
        State { delay: 0, hascontrol: false, running: false }
    }
}

} // verus!
