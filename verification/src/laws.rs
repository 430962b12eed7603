use vstd::prelude::*;

use crate::engine::{inv, step_message, step_next, step_prev, Message, PlayerV};

verus! {

/// The state after advancing forward `n` times.
pub open spec fn run_next(v: PlayerV, now: u64, n: nat) -> PlayerV
    decreases n,
{
    if n == 0 {
        v
    } else {
        step_next(run_next(v, now, (n - 1) as nat), now)
    }
}

/// Draining the forward queue: with no pending user requests, the first `k`
/// forward advances pop the forward queue one track per step.
proof fn lemma_drain_queue(v: PlayerV, now: u64, k: nat)
    requires
        inv(v),
        v.current_track is Some,
        v.prio_queue.len() == 0,
        k <= v.queue.len(),
    ensures
        ({
            let r = run_next(v, now, k);
            &&& r.queue == v.queue.skip(k as int)
            &&& r.prio_queue.len() == 0
            &&& r.current_track is Some
            &&& r.init_queue == v.init_queue
            &&& inv(r)
        }),
    decreases k,
{
    if k > 0 {
        lemma_drain_queue(v, now, (k - 1) as nat);
        let r0 = run_next(v, now, (k - 1) as nat);
        assert(r0.queue.len() > 0);
        assert(step_next(r0, now).queue =~= v.queue.skip(k as int));
    } else {
        assert(v.queue.skip(0) =~= v.queue);
    }
}

/// Cycling the base sequence: once the forward queue is drained, the engine
/// rewraps and the following advances play the base sequence in order.
proof fn lemma_cycle(v: PlayerV, now: u64, i: nat)
    requires
        inv(v),
        v.current_track is Some,
        v.prio_queue.len() == 0,
        v.init_queue.len() > 0,
        i < v.init_queue.len(),
    ensures
        ({
            let r = run_next(v, now, (v.queue.len() + 1 + i) as nat);
            &&& r.current_track == Some(v.init_queue[i as int])
            &&& r.queue == v.init_queue.skip(i + 1 as int)
            &&& r.prio_queue.len() == 0
            &&& r.init_queue == v.init_queue
            &&& inv(r)
        }),
    decreases i,
{
    if i == 0 {
        lemma_drain_queue(v, now, v.queue.len());
        let r0 = run_next(v, now, v.queue.len());
        assert(r0.queue.len() == 0);
        assert(run_next(v, now, (v.queue.len() + 1) as nat) == step_next(r0, now));
        assert(step_next(r0, now).queue =~= v.init_queue.skip(1));
    } else {
        lemma_cycle(v, now, (i - 1) as nat);
        let r0 = run_next(v, now, (v.queue.len() + i) as nat);
        assert(r0.queue == v.init_queue.skip(i as int));
        assert(r0.queue.len() > 0);
        assert(r0.queue[0] == v.init_queue[i as int]);
        assert(run_next(v, now, (v.queue.len() + 1 + i) as nat) == step_next(r0, now));
        assert(step_next(r0, now).queue =~= v.init_queue.skip(i + 1 as int));
    }
}

/// Loop closure: with no pending user requests, repeatedly advancing forward
/// from any state visits every track of the base sequence once, in order,
/// before any of them comes again — after the forward queue is drained, the
/// advance numbered `queue.len() + 1 + i` plays exactly the base track at
/// position `i`.
pub proof fn lemma_loop_closure(v: PlayerV, now: u64)
    requires
        inv(v),
        v.current_track is Some,
        v.prio_queue.len() == 0,
        v.init_queue.len() > 0,
    ensures
        forall|i: int|
            0 <= i < v.init_queue.len() ==> run_next(
                v,
                now,
                (v.queue.len() + 1 + i) as nat,
            ).current_track == Some(v.init_queue[i]),
{
    assert forall|i: int| 0 <= i < v.init_queue.len() implies run_next(
        v,
        now,
        (v.queue.len() + 1 + i) as nat,
    ).current_track == Some(v.init_queue[i]) by {
        lemma_cycle(v, now, i as nat);
    }
}

/// Priority precedence: in every state whose priority queue holds anything,
/// advancing forward selects the front of the priority queue and leaves the
/// forward queue untouched.
pub proof fn lemma_priority_precedence(v: PlayerV, now: u64)
    requires
        inv(v),
        v.prio_queue.len() > 0,
    ensures
        step_next(v, now).queue == v.queue,
        v.current_track is Some ==> step_next(v, now).current_track == Some(v.prio_queue[0]),
        v.current_track is Some ==> step_next(v, now).prio_queue == v.prio_queue.drop_first(),
{
}

/// Symmetry: from a stable state — something current, no pending user
/// requests, and a non-empty history — advancing backward and then forward
/// returns to the same current track.
///
/// With an exhausted history the pair does not return: backward wraps to the
/// end of the base sequence and forward then restarts it from the beginning.
pub proof fn lemma_prev_next_symmetry(v: PlayerV, now1: u64, now2: u64)
    requires
        inv(v),
        v.current_track is Some,
        v.prio_queue.len() == 0,
        v.backward_queue.len() > 0,
    ensures
        step_next(step_prev(v, now1), now2).current_track == v.current_track,
{
    let v1 = step_prev(v, now1);
    assert(v1.queue == seq![v.current_track->0] + v.queue);
    assert(v1.queue[0] == v.current_track->0);
}

/// Position reset: every transition that changes the current track resets
/// the position to zero.
pub proof fn lemma_position_reset(v: PlayerV, message: Message, now: u64)
    ensures
        step_message(v, message, now).current_track != v.current_track ==> step_message(
            v,
            message,
            now,
        ).current_pos == 0,
{
}

/// Idle invariant: every event preserves the engine invariant, and in
/// particular the state it leads to has no current track exactly when its
/// transport is idle.
pub proof fn lemma_idle_invariant(v: PlayerV, message: Message, now: u64)
    requires
        inv(v),
    ensures
        inv(step_message(v, message, now)),
        step_message(v, message, now).current_track is None <==> step_message(
            v,
            message,
            now,
        ).timer is Idle,
{
}

} // verus!
