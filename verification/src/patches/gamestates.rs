use vstd::prelude::*;

use crate::gamestates::{Gamestate, GamestateTime};

verus! {

/// A registered callback fires for the game's state number `num` at `time`.
pub open spec fn fires<C>(g: Gamestate<C>, num: i32, time: GamestateTime) -> bool {
    g.num == num && g.time == time
}

/// The positions of the callbacks that fire, in registration order.
pub open spec fn firing_indices<C>(states: Seq<Gamestate<C>>, num: i32, time: GamestateTime) -> Seq<
    usize,
>
    decreases states.len(),
{
    if states.len() == 0 {
        Seq::empty()
    } else {
        let rest = firing_indices(states.drop_last(), num, time);
        if fires(states.last(), num, time) {
            rest.push((states.len() - 1) as usize)
        } else {
            rest
        }
    }
}

/// The positions in `states` of the callbacks that fire for state `num` at
/// `time`, in the order in which they were registered.
pub fn callbacks_for<C>(states: &Vec<Gamestate<C>>, num: i32, time: GamestateTime) -> (r: Vec<
    usize,
>)
    ensures
        r@ == firing_indices(states@, num, time),
{
    let mut r: Vec<usize> = Vec::new();
    let n: usize = states.len();
    let mut i: usize = 0;
    while i < n
        invariant
            n == states.len(),
            i <= n,
            r@ == firing_indices(states@.subrange(0, i as int), num, time),
        decreases n - i,
    {
        proof {
            let next = states@.subrange(0, i + 1);
            assert(next.drop_last() =~= states@.subrange(0, i as int));
            assert(next.last() == states@[i as int]);
        }
        if states[i].num == num && states[i].time == time {
            r.push(i);
        }
        i = i + 1;
    }
    assert(states@.subrange(0, n as int) =~= states@);
    r
}

/// The callbacks to run around one call of the game's input handler: those
/// of the current state number registered before input, then those
/// registered after it.
pub struct GameinputPlan {
    pub pre: Vec<usize>,
    pub post: Vec<usize>,
}

/// Plans one call of the game's input handler for state number `num`: the
/// state number is read once, before any callback runs, and both lists are
/// taken for it.
pub fn gameinput_plan<C>(states: &Vec<Gamestate<C>>, num: i32) -> (p: GameinputPlan)
    ensures
        p.pre@ == firing_indices(states@, num, GamestateTime::PreInput),
        p.post@ == firing_indices(states@, num, GamestateTime::PostInput),
{
    let pre = callbacks_for(states, num, GamestateTime::PreInput);
    let post = callbacks_for(states, num, GamestateTime::PostInput);
    GameinputPlan { pre, post }
}

/// The positions that fire are exactly the callbacks registered for that
/// state number and time, each once, in increasing order.
pub proof fn lemma_firing_indices<C>(states: Seq<Gamestate<C>>, num: i32, time: GamestateTime)
    requires
        states.len() <= usize::MAX,
    ensures
        forall|k: int|
            0 <= k < firing_indices(states, num, time).len() ==> {
                let i = #[trigger] firing_indices(states, num, time)[k];
                &&& i < states.len()
                &&& fires(states[i as int], num, time)
            },
        forall|k: int, l: int|
            0 <= k < l < firing_indices(states, num, time).len() ==> #[trigger] firing_indices(
                states,
                num,
                time,
            )[k] < #[trigger] firing_indices(states, num, time)[l],
        forall|i: int|
            0 <= i < states.len() && fires(#[trigger] states[i], num, time) ==> firing_indices(
                states,
                num,
                time,
            ).contains(i as usize),
    decreases states.len(),
{
    if states.len() > 0 {
        let prev = states.drop_last();
        lemma_firing_indices(prev, num, time);
        let r = firing_indices(states, num, time);
        let rp = firing_indices(prev, num, time);
        let last = (states.len() - 1) as usize;
        if fires(states.last(), num, time) {
            assert(r == rp.push(last));
        } else {
            assert(r == rp);
        }
        assert forall|k: int| 0 <= k < r.len() implies #[trigger] r[k] < states.len() && fires(
            states[r[k] as int],
            num,
            time,
        ) by {
            if k < rp.len() {
                assert(r[k] == rp[k]);
                assert(prev[rp[k] as int] == states[rp[k] as int]);
            } else {
                assert(r[k] == last);
            }
        }
        assert forall|k: int, l: int| 0 <= k < l < r.len() implies #[trigger] r[k] < #[trigger] r[l] by {
            assert(r[k] == rp[k]);
            if l < rp.len() {
                assert(r[l] == rp[l]);
            } else {
                assert(r[l] == last);
            }
        }
        assert forall|i: int| 0 <= i < states.len() && fires(#[trigger] states[i], num, time) implies r.contains(
            i as usize,
        ) by {
            if i < states.len() - 1 {
                assert(prev[i] == states[i]);
                let k = choose|k: int| 0 <= k < rp.len() && rp[k] == i as usize;
                assert(r[k] == i as usize);
            } else {
                assert(r[r.len() - 1] == i as usize);
            }
        }
    }
}

/// No callback runs both before and after the same call of the input
/// handler.
pub proof fn lemma_pre_post_disjoint<C>(states: Seq<Gamestate<C>>, num: i32)
    requires
        states.len() <= usize::MAX,
    ensures
        forall|k: int, l: int|
            0 <= k < firing_indices(states, num, GamestateTime::PreInput).len() && 0 <= l
                < firing_indices(states, num, GamestateTime::PostInput).len() ==> #[trigger] firing_indices(
                states,
                num,
                GamestateTime::PreInput,
            )[k] != #[trigger] firing_indices(states, num, GamestateTime::PostInput)[l],
{
    lemma_firing_indices(states, num, GamestateTime::PreInput);
    lemma_firing_indices(states, num, GamestateTime::PostInput);
}

} // verus!
