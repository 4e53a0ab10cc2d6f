use vstd::prelude::*;

pub mod pdelay;

verus! {

/// Whether a gamestate callback runs before or after the game handles input.
#[derive(PartialEq, Eq, Structural, Clone, Copy, Debug, Hash)]
pub enum GamestateTime {
    PreInput,
    PostInput,
}

/// A callback bound to one value of the game's state number and to one side
/// of the input handling. `C` is the callback itself; the library only
/// carries it.
#[derive(PartialEq, Eq, Clone, Copy, Debug, Hash)]
pub struct Gamestate<C> {
    pub num: i32,
    pub time: GamestateTime,
    pub callback: C,
}

impl<C> Gamestate<C> {
    pub fn new(num: i32, time: GamestateTime, callback: C) -> (g: Self)
        ensures
            g.num == num,
            g.time == time,
            g.callback == callback,
    {
        Gamestate { num, time, callback }
    }
}

} // verus!
