//! Proved laws of the scheduler.
//!
//! These lemmas state, over the [`run`] specification that
//! [`crate::instance::Instance::tick`] is proved to implement, the properties
//! a host relies on: waits never fire early and are drained as soon as they
//! are due; interval waits land on exact multiples of the interval measured
//! from clock zero, whatever the instance's own start time; a tick that spans
//! many due steps emits all of them in program order with no loss; and
//! scheduling is a function of the absolute beat count alone, so neither the
//! host's tick granularity nor loop iterations accumulate any drift.

use vstd::prelude::*;

use crate::instance::RunOutcome;
use crate::instance::SchedState;
use crate::instance::ceil_multiple;
use crate::instance::lemma_ceil_multiple;
use crate::instance::run;
use crate::instance::run_wf;
use crate::instance::settled;
use crate::program::Action;
use crate::program::Program;
use crate::program::Step;
use crate::program::lemma_wait_sum_nonneg;

verus! {

/// A settled state stays exactly as it is: running it executes nothing and
/// emits nothing.
pub proof fn lemma_run_of_settled(p: Program, s: SchedState, now: int)
    requires
        run_wf(p, s, now),
        settled(p, s, now),
    ensures
        run(p, s, now) == (RunOutcome {
            state: s,
            events: Seq::<u64>::empty(),
            actions: Seq::<Action>::empty(),
        }),
{
}

/// Running always settles: after a tick no step is due any more.  A step
/// becomes due at most one tick after its target beat is crossed — the
/// first tick whose beat count reaches the target executes it.
pub proof fn lemma_run_settles(p: Program, s: SchedState, now: int)
    requires
        run_wf(p, s, now),
    ensures
        settled(p, run(p, s, now).state, now),
        run_wf(p, run(p, s, now).state, now),
    decreases crate::instance::run_budget(p, s, now), p.steps().len() - s.cursor,
{
    if s.terminated {
    } else if s.cursor == p.steps().len() {
        match p.loop_point() {
            None => {},
            Some(lp) => {
                lemma_wait_sum_nonneg(p.steps(), lp);
                lemma_run_settles(
                    p,
                    SchedState { cursor: lp, marker: s.marker, terminated: false },
                    now,
                );
            },
        }
    } else {
        let next = SchedState { cursor: s.cursor + 1, ..s };
        match p.steps()[s.cursor] {
            Step::WaitBeats(d) => {
                if s.marker + d <= now {
                    lemma_run_settles(p, SchedState { marker: s.marker + d, ..next }, now);
                }
            },
            Step::WaitForInterval(k) => {
                let t = ceil_multiple(s.marker, k as int);
                if t <= now {
                    vstd::arithmetic::div_mod::lemma_mod_bound(s.marker, k as int);
                    lemma_run_settles(p, SchedState { marker: t, ..next }, now);
                }
            },
            Step::PlaySound(..) => {
                lemma_run_settles(p, next, now);
            },
            Step::EmitEvent(..) => {
                lemma_run_settles(p, next, now);
            },
            Step::StopInstance(..) => {
                lemma_run_settles(p, next, now);
            },
        }
    }
}

/// A beat wait never fires early: while the beat count is below the wait's
/// target (the instance's logical position plus the waited duration), the
/// state does not move at all.
pub proof fn lemma_wait_never_early(p: Program, s: SchedState, now: int, d: u64)
    requires
        run_wf(p, s, now),
        !s.terminated,
        s.cursor < p.steps().len(),
        p.steps()[s.cursor] == Step::WaitBeats(d),
        now < s.marker + d,
    ensures
        run(p, s, now) == (RunOutcome {
            state: s,
            events: Seq::<u64>::empty(),
            actions: Seq::<Action>::empty(),
        }),
{
}

/// A beat wait fires exactly when the beat count crosses its target, and
/// moves the logical position by exactly the waited duration — not to the
/// observed beat count — so late ticks introduce no drift.
pub proof fn lemma_wait_fires_exactly(p: Program, s: SchedState, now: int, d: u64)
    requires
        run_wf(p, s, now),
        !s.terminated,
        s.cursor < p.steps().len(),
        p.steps()[s.cursor] == Step::WaitBeats(d),
        now >= s.marker + d,
    ensures
        run(p, s, now) == run(
            p,
            SchedState { cursor: s.cursor + 1, marker: s.marker + d, terminated: false },
            now,
        ),
{
}

/// An interval wait fires on an exact multiple of the interval measured
/// from the clock's zero — the smallest one at or after the instance's
/// logical position — regardless of when the instance itself started.  Two
/// instances waiting on the same interval therefore stay phase-aligned to
/// the shared clock, not to their own start times.
pub proof fn lemma_interval_fires_on_multiple(p: Program, s: SchedState, now: int, k: u64)
    requires
        run_wf(p, s, now),
        !s.terminated,
        s.cursor < p.steps().len(),
        p.steps()[s.cursor] == Step::WaitForInterval(k),
        k >= 1,
    ensures
        ceil_multiple(s.marker, k as int) % (k as int) == 0,
        s.marker <= ceil_multiple(s.marker, k as int) < s.marker + k,
        forall|t: int|
            #[trigger] (t % (k as int)) == 0 && t >= s.marker ==> t >= ceil_multiple(
                s.marker,
                k as int,
            ),
        now < ceil_multiple(s.marker, k as int) ==> run(p, s, now) == (RunOutcome {
            state: s,
            events: Seq::<u64>::empty(),
            actions: Seq::<Action>::empty(),
        }),
        now >= ceil_multiple(s.marker, k as int) ==> run(p, s, now) == run(
            p,
            SchedState {
                cursor: s.cursor + 1,
                marker: ceil_multiple(s.marker, k as int),
                terminated: false,
            },
            now,
        ),
{
    lemma_ceil_multiple(s.marker, k as int);
}

/// Reaching the end of a program with a loop point jumps back with the
/// logical position kept exactly: the rebase is purely additive through the
/// waits already consumed, so loop iterations cannot accumulate drift.
pub proof fn lemma_loop_rebase(p: Program, s: SchedState, now: int)
    requires
        run_wf(p, s, now),
        !s.terminated,
        s.cursor == p.steps().len(),
        p.loop_point() is Some,
    ensures
        run(p, s, now) == run(
            p,
            SchedState {
                cursor: p.loop_point().unwrap(),
                marker: s.marker,
                terminated: false,
            },
            now,
        ),
{
}

/// A program with a loop point never terminates on its own: however far
/// the beat count runs, the instance keeps looping until something stops
/// it explicitly.
pub proof fn lemma_looping_never_terminates(p: Program, s: SchedState, now: int)
    requires
        run_wf(p, s, now),
        !s.terminated,
        p.loop_point() is Some,
    ensures
        !run(p, s, now).state.terminated,
    decreases crate::instance::run_budget(p, s, now), p.steps().len() - s.cursor,
{
    if s.cursor == p.steps().len() {
        let lp = p.loop_point().unwrap();
        lemma_wait_sum_nonneg(p.steps(), lp);
        lemma_looping_never_terminates(
            p,
            SchedState { cursor: lp, marker: s.marker, terminated: false },
            now,
        );
    } else {
        let next = SchedState { cursor: s.cursor + 1, ..s };
        match p.steps()[s.cursor] {
            Step::WaitBeats(d) => {
                if s.marker + d <= now {
                    lemma_looping_never_terminates(
                        p,
                        SchedState { marker: s.marker + d, ..next },
                        now,
                    );
                }
            },
            Step::WaitForInterval(k) => {
                let t = ceil_multiple(s.marker, k as int);
                if t <= now {
                    vstd::arithmetic::div_mod::lemma_mod_bound(s.marker, k as int);
                    lemma_looping_never_terminates(p, SchedState { marker: t, ..next }, now);
                }
            },
            Step::PlaySound(..) => {
                lemma_looping_never_terminates(p, next, now);
            },
            Step::EmitEvent(..) => {
                lemma_looping_never_terminates(p, next, now);
            },
            Step::StopInstance(..) => {
                lemma_looping_never_terminates(p, next, now);
            },
        }
    }
}

/// Scheduling is a function of the absolute beat count alone: ticking to
/// `now1` and then to a later `now2` leaves the instance in exactly the
/// state one tick straight to `now2` would, and the two ticks together emit
/// exactly the events and actions of the one tick, in the same order.  A
/// host may therefore tick at any cadence — fine, coarse, or stalled — and
/// looping instances keep the phase alignment of their first iteration.
pub proof fn lemma_run_composes(p: Program, s: SchedState, now1: int, now2: int)
    requires
        run_wf(p, s, now1),
        now1 <= now2,
    ensures
        run(p, run(p, s, now1).state, now2).state == run(p, s, now2).state,
        run(p, s, now1).events + run(p, run(p, s, now1).state, now2).events == run(
            p,
            s,
            now2,
        ).events,
        run(p, s, now1).actions + run(p, run(p, s, now1).state, now2).actions == run(
            p,
            s,
            now2,
        ).actions,
    decreases crate::instance::run_budget(p, s, now1), p.steps().len() - s.cursor,
{
    let r1 = run(p, s, now1);
    if s.terminated {
        assert(r1.events + run(p, r1.state, now2).events =~= run(p, s, now2).events);
        assert(r1.actions + run(p, r1.state, now2).actions =~= run(p, s, now2).actions);
    } else if s.cursor == p.steps().len() {
        match p.loop_point() {
            None => {
                let st = SchedState { terminated: true, ..s };
                assert(run(p, s, now2).state == st);
                assert(r1.events + run(p, r1.state, now2).events =~= run(p, s, now2).events);
                assert(r1.actions + run(p, r1.state, now2).actions =~= run(p, s, now2).actions);
            },
            Some(lp) => {
                lemma_wait_sum_nonneg(p.steps(), lp);
                let sl = SchedState { cursor: lp, marker: s.marker, terminated: false };
                lemma_run_composes(p, sl, now1, now2);
            },
        }
    } else {
        let next = SchedState { cursor: s.cursor + 1, ..s };
        match p.steps()[s.cursor] {
            Step::WaitBeats(d) => {
                if s.marker + d <= now1 {
                    lemma_run_composes(p, SchedState { marker: s.marker + d, ..next }, now1, now2);
                } else {
                    assert(r1.state == s);
                    assert(r1.events + run(p, s, now2).events =~= run(p, s, now2).events);
                    assert(r1.actions + run(p, s, now2).actions =~= run(p, s, now2).actions);
                }
            },
            Step::WaitForInterval(k) => {
                let t = ceil_multiple(s.marker, k as int);
                if t <= now1 {
                    vstd::arithmetic::div_mod::lemma_mod_bound(s.marker, k as int);
                    lemma_run_composes(p, SchedState { marker: t, ..next }, now1, now2);
                } else {
                    assert(r1.state == s);
                    assert(r1.events + run(p, s, now2).events =~= run(p, s, now2).events);
                    assert(r1.actions + run(p, s, now2).actions =~= run(p, s, now2).actions);
                }
            },
            Step::PlaySound(sound, settings) => {
                lemma_run_composes(p, next, now1, now2);
                assert(run(p, s, now1).actions + run(p, run(p, s, now1).state, now2).actions
                    =~= run(p, s, now2).actions);
                assert(run(p, s, now1).events + run(p, run(p, s, now1).state, now2).events
                    =~= run(p, s, now2).events);
            },
            Step::EmitEvent(value) => {
                lemma_run_composes(p, next, now1, now2);
                assert(run(p, s, now1).events + run(p, run(p, s, now1).state, now2).events
                    =~= run(p, s, now2).events);
                assert(run(p, s, now1).actions + run(p, run(p, s, now1).state, now2).actions
                    =~= run(p, s, now2).actions);
            },
            Step::StopInstance(target, fade_ms) => {
                lemma_run_composes(p, next, now1, now2);
                assert(run(p, s, now1).actions + run(p, run(p, s, now1).state, now2).actions
                    =~= run(p, s, now2).actions);
                assert(run(p, s, now1).events + run(p, run(p, s, now1).state, now2).events
                    =~= run(p, s, now2).events);
            },
        }
    }
}

/// The event values a straight-line run of `steps` from `from` emits, in
/// program order.
pub open spec fn emits_from(steps: Seq<Step>, from: int) -> Seq<u64>
    decreases steps.len() - from,
{
    if from < 0 || from >= steps.len() {
        Seq::empty()
    } else {
        match steps[from] {
            Step::EmitEvent(value) => seq![value] + emits_from(steps, from + 1),
            _ => emits_from(steps, from + 1),
        }
    }
}

/// The actions a straight-line run of `steps` from `from` requests, in
/// program order.
pub open spec fn acts_from(steps: Seq<Step>, from: int) -> Seq<Action>
    decreases steps.len() - from,
{
    if from < 0 || from >= steps.len() {
        Seq::empty()
    } else {
        match steps[from] {
            Step::PlaySound(sound, settings) => seq![Action::Play(sound, settings)] + acts_from(
                steps,
                from + 1,
            ),
            Step::StopInstance(target, fade_ms) => seq![Action::Stop(target, fade_ms)] + acts_from(
                steps,
                from + 1,
            ),
            _ => acts_from(steps, from + 1),
        }
    }
}

/// An upper bound on the millibeats the steps from `from` can wait for in
/// one straight-line pass: beat waits count in full, interval waits by at
/// most one whole interval.
pub open spec fn max_wait(steps: Seq<Step>, from: int) -> int
    decreases steps.len() - from,
{
    if from < 0 || from >= steps.len() {
        0
    } else {
        let rest = max_wait(steps, from + 1);
        match steps[from] {
            Step::WaitBeats(d) => d + rest,
            Step::WaitForInterval(k) => k + rest,
            _ => rest,
        }
    }
}

pub proof fn lemma_max_wait_nonneg(steps: Seq<Step>, from: int)
    ensures
        max_wait(steps, from) >= 0,
    decreases steps.len() - from,
{
    if 0 <= from < steps.len() {
        lemma_max_wait_nonneg(steps, from + 1);
    }
}

/// A tick whose beat count covers every remaining wait of a non-looping
/// program drains the whole program: the instance terminates, and every
/// event and action from the cursor to the end comes out, in program order,
/// with nothing lost — however long the host stalled.
pub proof fn lemma_run_drains_nonlooping(p: Program, s: SchedState, now: int)
    requires
        run_wf(p, s, now),
        !s.terminated,
        p.loop_point() is None,
        now >= s.marker + max_wait(p.steps(), s.cursor),
    ensures
        run(p, s, now).state.terminated,
        run(p, s, now).events == emits_from(p.steps(), s.cursor),
        run(p, s, now).actions == acts_from(p.steps(), s.cursor),
    decreases p.steps().len() - s.cursor,
{
    if s.cursor == p.steps().len() {
    } else {
        let next = SchedState { cursor: s.cursor + 1, ..s };
        lemma_max_wait_nonneg(p.steps(), s.cursor + 1);
        match p.steps()[s.cursor] {
            Step::WaitBeats(d) => {
                lemma_run_drains_nonlooping(
                    p,
                    SchedState { marker: s.marker + d, ..next },
                    now,
                );
            },
            Step::WaitForInterval(k) => {
                lemma_ceil_multiple(s.marker, k as int);
                let t = ceil_multiple(s.marker, k as int);
                lemma_run_drains_nonlooping(p, SchedState { marker: t, ..next }, now);
            },
            Step::PlaySound(..) => {
                lemma_run_drains_nonlooping(p, next, now);
            },
            Step::EmitEvent(..) => {
                lemma_run_drains_nonlooping(p, next, now);
            },
            Step::StopInstance(..) => {
                lemma_run_drains_nonlooping(p, next, now);
            },
        }
    }
}

} // verus!
