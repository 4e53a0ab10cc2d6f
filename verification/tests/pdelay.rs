use vvvvvv_hook::gamestates::pdelay::{pdelay_post, pdelay_pre, ControlFlags, PDELAY_GAMESTATE};
use vvvvvv_hook::gamestates::{Gamestate, GamestateTime};
use vvvvvv_hook::state::State;

#[test]
fn state_default_is_cleared() {
    let s = State::default();
    assert_eq!(s, State { delay: 0, hascontrol: false, running: false });
}

#[test]
fn gamestate_new_keeps_fields() {
    let g = Gamestate::new(5000, GamestateTime::PostInput, 7u8);
    assert_eq!(g.num, 5000);
    assert_eq!(g.time, GamestateTime::PostInput);
    assert_eq!(g.callback, 7u8);
}

#[test]
fn pdelay_pre_saves_and_pauses() {
    let mut state = State::default();
    let mut live = ControlFlags { delay: 17, hascontrol: false, running: true };
    pdelay_pre(&mut state, &mut live);
    assert_eq!(state, State { delay: 17, hascontrol: false, running: true });
    assert_eq!(live, ControlFlags { delay: 0, hascontrol: true, running: false });
}

#[test]
fn pdelay_pause_resume_round_trip() {
    for &(delay, hascontrol, running) in
        &[(0, false, false), (3, true, false), (-4, false, true), (i32::MAX, true, true)]
    {
        let before = ControlFlags { delay, hascontrol, running };
        let mut state = State::default();
        let mut live = before;
        pdelay_pre(&mut state, &mut live);
        pdelay_post(&state, &mut live);
        assert_eq!(live, before);
    }
}

#[test]
fn pdelay_post_keeps_script_started_during_input() {
    let mut state = State::default();
    let mut live = ControlFlags { delay: 9, hascontrol: false, running: false };
    pdelay_pre(&mut state, &mut live);
    live.running = true;
    live.delay = 5;
    live.hascontrol = true;
    pdelay_post(&state, &mut live);
    assert_eq!(live, ControlFlags { delay: 9, hascontrol: false, running: true });
}

#[test]
fn pdelay_post_restores_saved_running() {
    let state = State { delay: 2, hascontrol: true, running: true };
    let mut live = ControlFlags { delay: 0, hascontrol: false, running: false };
    pdelay_post(&state, &mut live);
    assert_eq!(live, ControlFlags { delay: 2, hascontrol: true, running: true });
}

#[test]
fn pdelay_gamestate_number() {
    assert_eq!(PDELAY_GAMESTATE, 5000);
}
