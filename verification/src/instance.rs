//! A sequence instance: the runtime cursor that executes one [`Program`]
//! against the shared musical clock.
//!
//! The meaning of execution is the specification function [`run`]: from a
//! scheduling state (cursor, logical time marker, termination flag) and the
//! current elapsed beat count, it executes every step whose wait condition is
//! already satisfied — looping back at the end of the program when a loop
//! point was set — and returns the final state together with the emitted
//! event values and playback actions, in program order.  [`Instance::tick`]
//! is proved to realize exactly that function, so a tick that receives a
//! delta spanning many due steps drains all of them: nothing piles up and
//! nothing is lost, however long the host stalled.
//!
//! Wait semantics are exact.  A `WaitBeats(d)` step fires once elapsed beats
//! reach the instance's logical marker plus `d`, and moves the marker by
//! exactly `d` — not to "now" — so loop iterations never accumulate drift.
//! A `WaitForInterval(k)` step fires at the smallest multiple of `k` (from
//! clock zero) that is at or after the marker, which phase-locks every
//! instance that waits on `k` to the shared clock, whenever each started.

use vstd::prelude::*;

use crate::program::Action;
use crate::program::Program;
use crate::program::Step;
use crate::program::lemma_wait_sum_nonneg;
use crate::program::wait_sum;
use crate::queue::EventQueue;

verus! {

/// The scheduling state of an instance, as the specification sees it.
pub ghost struct SchedState {
    /// Index of the next step to execute.
    pub cursor: int,
    /// The instance's logical position in millibeats: where its waits are
    /// measured from.
    pub marker: int,
    /// Terminated is absorbing: a terminated instance never executes again.
    pub terminated: bool,
}

/// What settling an instance at one beat count produces.
pub ghost struct RunOutcome {
    pub state: SchedState,
    /// Event values emitted, in program order.
    pub events: Seq<u64>,
    /// Playback actions requested, in program order.
    pub actions: Seq<Action>,
}

/// The smallest multiple of `k` that is at or after `m` (for `m >= 0`,
/// `k >= 1`).
pub open spec fn ceil_multiple(m: int, k: int) -> int {
    if m % k == 0 {
        m
    } else {
        m + (k - m % k)
    }
}

pub proof fn lemma_ceil_multiple(m: int, k: int)
    requires
        m >= 0,
        k >= 1,
    ensures
        ceil_multiple(m, k) % k == 0,
        m <= ceil_multiple(m, k) < m + k,
        forall|t: int| #[trigger] (t % k) == 0 && t >= m ==> t >= ceil_multiple(m, k),
{
    vstd::arithmetic::div_mod::lemma_fundamental_div_mod(m, k);
    vstd::arithmetic::div_mod::lemma_mod_bound(m, k);
    let q = m / k;
    if m % k == 0 {
        assert(ceil_multiple(m, k) % k == 0);
    } else {
        assert(k * (q + 1) == k * q + k) by (nonlinear_arith);
        assert(ceil_multiple(m, k) == k * (q + 1));
        assert(k * (q + 1) == (q + 1) * k) by {
            vstd::arithmetic::mul::lemma_mul_is_commutative(k, q + 1);
        }
        assert(((q + 1) * k) % k == 0) by {
            vstd::arithmetic::div_mod::lemma_mod_multiples_basic(q + 1, k);
        }
    }
    assert forall|t: int| #[trigger] (t % k) == 0 && t >= m implies t >= ceil_multiple(m, k) by {
        if t < ceil_multiple(m, k) {
            // Two multiples of k strictly less than k apart must be equal.
            vstd::arithmetic::div_mod::lemma_fundamental_div_mod(t, k);
            let c = ceil_multiple(m, k);
            vstd::arithmetic::div_mod::lemma_fundamental_div_mod(c, k);
            let a = t / k;
            let b = c / k;
            assert(t == k * a && c == k * b);
            assert(a < b) by (nonlinear_arith)
                requires
                    t < c,
                    t == k * a,
                    c == k * b,
                    k >= 1,
            ;
            assert(t <= c - k) by (nonlinear_arith)
                requires
                    a < b,
                    t == k * a,
                    c == k * b,
                    k >= 1,
            ;
        }
    }
}

/// Whether the state has no step due at beat count `now`: it is terminated,
/// or its cursor rests on a wait whose target is still in the future.
pub open spec fn settled(p: Program, s: SchedState, now: int) -> bool {
    ||| s.terminated
    ||| {
        &&& 0 <= s.cursor < p.steps().len()
        &&& match p.steps()[s.cursor] {
            Step::WaitBeats(d) => now < s.marker + d,
            Step::WaitForInterval(k) => now < ceil_multiple(s.marker, k as int),
            _ => false,
        }
    }
}

/// The states [`run`] is specified on.
pub open spec fn run_wf(p: Program, s: SchedState, now: int) -> bool {
    &&& p.valid()
    &&& 0 <= s.cursor <= p.steps().len()
    &&& 0 <= s.marker <= now
}

/// Termination measure for [`run`]: how much beat budget is left before the
/// waits from the cursor onward exhaust `now`.  Every loop pass consumes at
/// least one millibeat of it (validation guarantees a positive wait sum in
/// the loop body), so settling always terminates.
pub open spec fn run_budget(p: Program, s: SchedState, now: int) -> int {
    let raw = now + 1 - s.marker - wait_sum(p.steps(), s.cursor);
    if raw >= 0 {
        raw
    } else {
        0
    }
}

/// Executes every step due at beat count `now`, starting from state `s`:
/// the definition of what one tick of an instance does.
pub open spec fn run(p: Program, s: SchedState, now: int) -> RunOutcome
    decreases run_budget(p, s, now), p.steps().len() - s.cursor,
        when run_wf(p, s, now)
{
    if s.terminated {
        RunOutcome { state: s, events: Seq::empty(), actions: Seq::empty() }
    } else if s.cursor == p.steps().len() {
        match p.loop_point() {
            None => RunOutcome {
                state: SchedState { terminated: true, ..s },
                events: Seq::empty(),
                actions: Seq::empty(),
            },
            Some(lp) => {
                proof {
                    lemma_wait_sum_nonneg(p.steps(), lp);
                }
                run(p, SchedState { cursor: lp, marker: s.marker, terminated: false }, now)
            },
        }
    } else {
        let next = SchedState { cursor: s.cursor + 1, ..s };
        match p.steps()[s.cursor] {
            Step::WaitBeats(d) => {
                if s.marker + d <= now {
                    run(p, SchedState { marker: s.marker + d, ..next }, now)
                } else {
                    RunOutcome { state: s, events: Seq::empty(), actions: Seq::empty() }
                }
            },
            Step::WaitForInterval(k) => {
                let t = ceil_multiple(s.marker, k as int);
                if t <= now {
                    proof {
                        vstd::arithmetic::div_mod::lemma_mod_bound(s.marker, k as int);
                    }
                    run(p, SchedState { marker: t, ..next }, now)
                } else {
                    RunOutcome { state: s, events: Seq::empty(), actions: Seq::empty() }
                }
            },
            Step::PlaySound(sound, settings) => {
                let rest = run(p, next, now);
                RunOutcome {
                    state: rest.state,
                    events: rest.events,
                    actions: seq![Action::Play(sound, settings)] + rest.actions,
                }
            },
            Step::EmitEvent(value) => {
                let rest = run(p, next, now);
                RunOutcome {
                    state: rest.state,
                    events: seq![value] + rest.events,
                    actions: rest.actions,
                }
            },
            Step::StopInstance(target, fade_ms) => {
                let rest = run(p, next, now);
                RunOutcome {
                    state: rest.state,
                    events: rest.events,
                    actions: seq![Action::Stop(target, fade_ms)] + rest.actions,
                }
            },
        }
    }
}

/// The last `cap` elements of `s` (all of them when `s` is no longer):
/// what a bounded drop-oldest queue retains of a pushed history.
pub open spec fn tail_cap(s: Seq<u64>, cap: int) -> Seq<u64> {
    if s.len() <= cap {
        s
    } else {
        s.skip(s.len() - cap)
    }
}

proof fn lemma_tail_cap_push(s: Seq<u64>, v: u64, cap: int)
    requires
        cap >= 1,
    ensures
        tail_cap(s, cap).len() < cap ==> tail_cap(s.push(v), cap) == tail_cap(s, cap).push(v),
        tail_cap(s, cap).len() == cap ==> tail_cap(s.push(v), cap) == tail_cap(s, cap).skip(
            1,
        ).push(v),
{
    if s.len() < cap {
        assert(tail_cap(s.push(v), cap) =~= tail_cap(s, cap).push(v));
    } else {
        assert(tail_cap(s, cap).len() == cap);
        assert(tail_cap(s.push(v), cap) =~= tail_cap(s, cap).skip(1).push(v));
    }
}

/// A running (or finished) cursor over one immutable [`Program`], with its
/// own event queue.  Created via [`Instance::new`] when playback of the
/// program starts; driven by [`Instance::tick`]; drained by
/// [`Instance::pop_event`].
pub struct Instance {
    program: Program,
    cursor: usize,
    marker: u64,
    high: u64,
    queue: EventQueue,
    terminated: bool,
}

impl Instance {
    /// The program this instance executes.
    pub closed spec fn program(&self) -> Program {
        self.program
    }

    /// The index of the next step to execute.
    pub closed spec fn cursor(&self) -> int {
        self.cursor as int
    }

    /// The instance's logical position in millibeats.
    pub closed spec fn marker(&self) -> int {
        self.marker as int
    }

    /// The largest beat count this instance has been ticked with (or its
    /// start position, if larger).
    pub closed spec fn high(&self) -> int {
        self.high as int
    }

    /// Whether the instance has terminated.
    pub closed spec fn terminated(&self) -> bool {
        self.terminated
    }

    /// The queued event values, oldest first.
    pub closed spec fn events(&self) -> Seq<u64> {
        self.queue.contents()
    }

    /// The event queue's capacity.
    pub closed spec fn queue_capacity(&self) -> int {
        self.queue.capacity()
    }

    /// How many event values have been dropped to queue overflow.
    pub closed spec fn overflows(&self) -> int {
        self.queue.overflows()
    }

    /// This instance's state as the [`run`] specification sees it.
    pub open spec fn sched(&self) -> SchedState {
        SchedState { cursor: self.cursor(), marker: self.marker(), terminated: self.terminated() }
    }

    /// The beat count a tick with `now` settles against: beat counts never
    /// move backwards, so a `now` below an earlier tick's high-water mark is
    /// raised to it.
    pub open spec fn eff_now(&self, now: u64) -> int {
        if self.high() >= now as int {
            self.high()
        } else {
            now as int
        }
    }

    /// What ticking this instance with `now` settles to.
    pub open spec fn tick_outcome(&self, now: u64) -> RunOutcome {
        run(self.program(), self.sched(), self.eff_now(now))
    }

    /// How a tick with `now` carries an instance from `self` to `next`:
    /// the scheduling state settles per [`run`], the emitted events land at
    /// the tail of the bounded queue, and everything else is kept.
    pub open spec fn ticked_to(&self, next: Instance, now: u64) -> bool {
        let r = self.tick_outcome(now);
        &&& next.program() == self.program()
        &&& next.queue_capacity() == self.queue_capacity()
        &&& next.high() == self.eff_now(now)
        &&& next.sched() == r.state
        &&& next.events() == tail_cap(self.events() + r.events, self.queue_capacity())
    }

    pub open spec fn wf(&self) -> bool {
        &&& self.program().valid()
        &&& self.queue_capacity() >= 1
        &&& self.events().len() <= self.queue_capacity()
        &&& 0 <= self.cursor() <= self.program().steps().len()
        &&& !self.terminated() ==> self.cursor() < self.program().steps().len()
        &&& self.marker() <= self.high()
    }

    /// Starts an instance of `program` at beat count `start_at` (the shared
    /// clock's position when playback begins): all of its beat waits are
    /// measured from there.  An empty program is terminated at once.
    pub fn new(program: Program, start_at: u64, queue_capacity: usize) -> (inst: Instance)
        requires
            program.valid(),
            queue_capacity >= 1,
        ensures
            inst.wf(),
            inst.program() == program,
            inst.cursor() == 0,
            inst.marker() == start_at as int,
            inst.high() == start_at as int,
            inst.terminated() == (program.steps().len() == 0),
            inst.events() == Seq::<u64>::empty(),
            inst.queue_capacity() == queue_capacity as int,
            inst.overflows() == 0,
    {
        let terminated = program.step_count() == 0;
        Instance {
            program,
            cursor: 0,
            marker: start_at,
            high: start_at,
            queue: EventQueue::new(queue_capacity),
            terminated,
        }
    }

    /// Executes every step that is due at beat count `now`, in program
    /// order, exactly as [`run`] describes: events are pushed onto this
    /// instance's queue and the playback actions are returned.  Beat counts
    /// never move backwards: a `now` below an earlier tick's is treated as
    /// that high-water mark.  Never blocks, never waits.
    pub fn tick(&mut self, now: u64) -> (actions: Vec<Action>)
        requires
            old(self).wf(),
        ensures
            final(self).wf(),
            final(self).program() == old(self).program(),
            final(self).queue_capacity() == old(self).queue_capacity(),
            final(self).high() == if old(self).high() >= now as int {
                old(self).high()
            } else {
                now as int
            },
            ({
                let r = run(old(self).program(), old(self).sched(), final(self).high());
                &&& final(self).sched() == r.state
                &&& final(self).events() == tail_cap(
                    old(self).events() + r.events,
                    old(self).queue_capacity(),
                )
                &&& actions@ == r.actions
                &&& settled(old(self).program(), r.state, final(self).high())
            }),
    {
        let eff: u64 = if now > self.high {
            now
        } else {
            self.high
        };
        self.high = eff;
        let n = self.program.step_count();
        let mut actions: Vec<Action> = Vec::new();
        let ghost p = self.program();
        let ghost s0 = self.sched();
        let ghost old_events = self.events();
        let ghost cap = self.queue_capacity();
        let ghost mut emitted: Seq<u64> = Seq::empty();
        loop
            invariant
                self.program() == p,
                self.queue_capacity() == cap,
                self.high() == eff as int,
                n as int == p.steps().len(),
                self.queue.wf(),
                run_wf(p, s0, eff as int),
                run_wf(p, self.sched(), eff as int),
                run(p, s0, eff as int).state == run(p, self.sched(), eff as int).state,
                run(p, s0, eff as int).events == emitted + run(p, self.sched(), eff as int).events,
                run(p, s0, eff as int).actions == actions@ + run(
                    p,
                    self.sched(),
                    eff as int,
                ).actions,
                self.events() == tail_cap(old_events + emitted, cap),
            ensures
                settled(p, self.sched(), eff as int),
            decreases run_budget(p, self.sched(), eff as int), p.steps().len() - self.cursor(),
        {
            if self.terminated {
                break ;
            }
            let ghost before = self.sched();
            if self.cursor == n {
                match self.program.get_loop_point() {
                    None => {
                        self.terminated = true;
                        proof {
                            assert(run(p, before, eff as int).state == self.sched());
                            assert(run(p, self.sched(), eff as int) == (RunOutcome {
                                state: self.sched(),
                                events: Seq::<u64>::empty(),
                                actions: Seq::<Action>::empty(),
                            }));
                            assert(run(p, s0, eff as int).events =~= emitted);
                            assert(run(p, s0, eff as int).events == emitted + run(
                                p,
                                self.sched(),
                                eff as int,
                            ).events);
                            assert(run(p, s0, eff as int).actions =~= actions@);
                            assert(run(p, s0, eff as int).actions == actions@ + run(
                                p,
                                self.sched(),
                                eff as int,
                            ).actions);
                        }
                        break ;
                    },
                    Some(lp) => {
                        proof {
                            lemma_wait_sum_nonneg(p.steps(), lp as int);
                        }
                        self.cursor = lp;
                    },
                }
            } else {
                let step = self.program.step_at(self.cursor);
                match step {
                    Step::WaitBeats(d) => {
                        if eff - self.marker >= d {
                            self.marker = self.marker + d;
                            self.cursor = self.cursor + 1;
                        } else {
                            break ;
                        }
                    },
                    Step::WaitForInterval(k) => {
                        proof {
                            assert(crate::program::interval_ok(p.steps()[self.cursor()]));
                        }
                        let rem = self.marker % k;
                        if rem == 0 {
                            self.cursor = self.cursor + 1;
                        } else {
                            let add = k - rem;
                            if add <= eff - self.marker {
                                proof {
                                    vstd::arithmetic::div_mod::lemma_mod_bound(
                                        self.marker(),
                                        k as int,
                                    );
                                }
                                self.marker = self.marker + add;
                                self.cursor = self.cursor + 1;
                            } else {
                                break ;
                            }
                        }
                    },
                    Step::PlaySound(sound, settings) => {
                        actions.push(Action::Play(sound, settings));
                        self.cursor = self.cursor + 1;
                    },
                    Step::EmitEvent(value) => {
                        proof {
                            lemma_tail_cap_push(old_events + emitted, value, cap);
                            assert((old_events + emitted).push(value) =~= old_events
                                + emitted.push(value));
                        }
                        self.queue.push(value);
                        proof {
                            emitted = emitted.push(value);
                        }
                        self.cursor = self.cursor + 1;
                    },
                    Step::StopInstance(target, fade_ms) => {
                        actions.push(Action::Stop(target, fade_ms));
                        self.cursor = self.cursor + 1;
                    },
                }
            }
            proof {
                assert(run(p, before, eff as int).state == run(p, self.sched(), eff as int).state);
            }
        }
        proof {
            assert(run(p, self.sched(), eff as int) == (RunOutcome {
                state: self.sched(),
                events: Seq::<u64>::empty(),
                actions: Seq::<Action>::empty(),
            }));
            assert(run(p, s0, eff as int).events =~= emitted);
            assert(run(p, s0, eff as int).actions =~= actions@);
        }
        actions
    }

    /// Removes and returns the oldest queued event value, or `None` when
    /// the queue is empty.  Non-blocking, independent of ticking: it works
    /// the same before the first tick and after termination (remaining
    /// events still drain; then it stays empty).
    pub fn pop_event(&mut self) -> (r: Option<u64>)
        requires
            old(self).wf(),
        ensures
            final(self).wf(),
            final(self).program() == old(self).program(),
            final(self).sched() == old(self).sched(),
            final(self).high() == old(self).high(),
            final(self).queue_capacity() == old(self).queue_capacity(),
            old(self).events().len() == 0 ==> r is None && final(self).events() == old(self).events(),
            old(self).events().len() > 0 ==> r == Some(old(self).events()[0])
                && final(self).events() == old(self).events().skip(1),
    {
        self.queue.pop()
    }

    /// Whether the instance has terminated (reached a non-looping end or
    /// been marked stopped).  Termination is absorbing.
    pub fn is_terminated(&self) -> (r: bool)
        ensures
            r == self.terminated(),
    {
        self.terminated
    }

    /// How many event values are queued.
    pub fn event_count(&self) -> (n: usize)
        ensures
            n as int == self.events().len(),
    {
        self.queue.len()
    }

    /// How many event values have been dropped to queue overflow.
    pub fn overflow_count(&self) -> (n: u64)
        ensures
            n as int == self.overflows(),
    {
        self.queue.overflow_count()
    }

    /// Marks the instance terminated, as a `StopInstance` step or an
    /// engine-wide stop does.  Queued events remain poppable.
    pub fn mark_terminated(&mut self)
        requires
            old(self).wf(),
        ensures
            final(self).wf(),
            final(self).program() == old(self).program(),
            final(self).terminated(),
            final(self).cursor() == old(self).cursor(),
            final(self).marker() == old(self).marker(),
            final(self).high() == old(self).high(),
            final(self).events() == old(self).events(),
            final(self).queue_capacity() == old(self).queue_capacity(),
    {
        self.terminated = true;
    }
}

} // verus!
