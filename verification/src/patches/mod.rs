use vstd::prelude::*;

pub mod cli;
pub mod gamestates;

verus! {

/// The game state of the title screen: the preloader patch sets it at once,
/// skipping the preloader.
pub const GAMESTATE_TITLEMODE: i32 = 1;

/// The argument to `PHYSFS_permitSymbolicLinks` that allows symbolic links.
pub const PERMIT_SYMBOLIC_LINKS: i32 = 1;

} // verus!
