//! The logic of a set of run-time patches for the game VVVVVV: the decisions
//! that the hooks take, verified, apart from the memory they read and write.

pub mod args;
pub mod gamestates;
pub mod helpers;
pub mod lua;
pub mod state;
pub mod patches;
pub mod proc;
pub mod text;
