use vstd::prelude::*;

use crate::state::State;

verus! {

/// The custom game state number in which the player keeps control while the
/// running script is held: its callbacks wrap each frame's input handling.
pub const PDELAY_GAMESTATE: i32 = 5000;

/// The live values that a pause delay touches: the script's delay counter and
/// running flag, and the game's `hascontrol` flag.
#[derive(Clone, Copy, Debug, PartialEq, Eq, Structural)]
pub struct ControlFlags {
    pub delay: i32,
    pub hascontrol: bool,
    pub running: bool,
}

/// What is saved before input: the live values as they were.
pub open spec fn saved_flags(live: ControlFlags) -> State {
    State { delay: live.delay, hascontrol: live.hascontrol, running: live.running }
}

/// The live values while input is handled: no delay, the player in control,
/// no script running.
pub open spec fn paused_flags() -> ControlFlags {
    ControlFlags { delay: 0, hascontrol: true, running: false }
}

/// The live values after input: delay and control as saved; a script runs if
/// one was running before, or one was started during input.
pub open spec fn resumed_flags(saved: State, live: ControlFlags) -> ControlFlags {
    ControlFlags {
        delay: saved.delay,
        hascontrol: saved.hascontrol,
        running: live.running || saved.running,
    }
}

/// Before input: save the live values into `state` and hand control to the
/// player with no delay and no script running.
pub fn pdelay_pre(state: &mut State, live: &mut ControlFlags)
    ensures
        *final(state) == saved_flags(*old(live)),
        *final(live) == paused_flags(),
        final(state).delay == old(live).delay,
        final(state).hascontrol == old(live).hascontrol,
        final(state).running == old(live).running,
        final(live).delay == 0,
        final(live).hascontrol,
        !final(live).running,
{
    state.delay = live.delay;
    state.hascontrol = live.hascontrol;
    state.running = live.running;
    live.delay = 0;
    live.hascontrol = true;
    live.running = false;
}

/// After input: put back the saved delay and control; restore the saved
/// running flag unless a script is running now.
pub fn pdelay_post(state: &State, live: &mut ControlFlags)
    ensures
        *final(live) == resumed_flags(*state, *old(live)),
        final(live).delay == state.delay,
        final(live).hascontrol == state.hascontrol,
        final(live).running == (old(live).running || state.running),
{
    live.delay = state.delay;
    live.hascontrol = state.hascontrol;
    if live.running == false {
        live.running = state.running;
    }
}

/// A pause followed by a resume, with nothing changed in between, gives back
/// the values the game had.
pub proof fn lemma_pause_resume_round_trip(live: ControlFlags)
    ensures
        resumed_flags(saved_flags(live), paused_flags()) == live,
{
}

/// A script that is started while input is handled still runs after the
/// resume; everything else is as it was before the pause.
pub proof fn lemma_script_started_during_input(live: ControlFlags)
    ensures
        resumed_flags(saved_flags(live), ControlFlags { running: true, ..paused_flags() })
            == (ControlFlags { running: true, ..live }),
{
}

/// Resuming never stops a script that runs at that time, and always puts back
/// the saved delay and control, whatever happened during input.
pub proof fn lemma_resume_keeps_running(saved: State, live: ControlFlags)
    ensures
        live.running ==> resumed_flags(saved, live).running,
        resumed_flags(saved, live).delay == saved.delay,
        resumed_flags(saved, live).hascontrol == saved.hascontrol,
{
}

} // verus!
