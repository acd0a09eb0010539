//! The engine: one shared [`Clock`] driving one [`Registry`] of sequence
//! instances.
//!
//! The host owns the cadences.  It calls [`Engine::tick`] once per audio
//! period with the elapsed host time; the clock advances, every live
//! instance settles against the new beat count, and the playback actions
//! come back for the host to dispatch.  Independently, at its own polling
//! cadence, the host drains each instance's events with
//! [`Engine::pop_event`].  Neither call ever blocks.

use vstd::prelude::*;

use crate::clock::Clock;
use crate::handle::InstanceHandle;
use crate::instance::Instance;
use crate::program::Action;
use crate::program::Program;
use crate::registry::Registry;
use crate::registry::action_of_some_live;
use crate::registry::removal_reason;

verus! {

/// How many event values an instance's queue holds before the oldest are
/// dropped: generous for a host polling every frame, bounded so a stalled
/// host cannot grow memory without limit.
pub const DEFAULT_EVENT_CAPACITY: usize = 64;

/// A sequencing engine: the shared musical clock and the live instances.
pub struct Engine {
    clock: Clock,
    registry: Registry,
}

impl Engine {
    /// The shared clock.
    pub closed spec fn clock(&self) -> Clock {
        self.clock
    }

    /// The instance registry.
    pub closed spec fn registry(&self) -> Registry {
        self.registry
    }

    /// Whether `h` resolves to a live instance.
    pub open spec fn live(&self, h: InstanceHandle) -> bool {
        self.registry().live(h)
    }

    /// The instance behind a live handle.
    pub open spec fn inst(&self, h: InstanceHandle) -> Instance {
        self.registry().inst(h)
    }

    pub open spec fn wf(&self) -> bool {
        &&& self.clock().wf()
        &&& self.registry().wf()
    }

    /// A stopped engine at beat zero, with no instances.  The tempo is in
    /// milli-beats-per-minute and must be positive.
    pub fn new(tempo_mbpm: u64) -> (e: Engine)
        requires
            tempo_mbpm >= 1,
        ensures
            e.wf(),
            !e.clock().running(),
            e.clock().units() == 0,
            e.clock().tempo_mbpm() == tempo_mbpm as int,
            e.registry().slot_count() == 0,
            forall|h: InstanceHandle| !(#[trigger] e.live(h)),
    {
        Engine { clock: Clock::new(tempo_mbpm), registry: Registry::new() }
    }

    /// Starts the clock.  Starting an already-running engine keeps its
    /// position (a no-op, not a restart).
    pub fn start(&mut self)
        requires
            old(self).wf(),
        ensures
            final(self).wf(),
            final(self).clock().running(),
            final(self).clock().units() == old(self).clock().units(),
            final(self).clock().tempo_mbpm() == old(self).clock().tempo_mbpm(),
            final(self).registry() == old(self).registry(),
    {
        self.clock.start();
    }

    /// The clock's accumulated time units, for guarding a tick against
    /// overflow.
    pub fn clock_units(&self) -> (u: u64)
        ensures
            u as int == self.clock().units(),
    {
        self.clock.accumulated_units()
    }

    /// The clock's tempo in milli-beats-per-minute.
    pub fn tempo(&self) -> (t: u64)
        ensures
            t as int == self.clock().tempo_mbpm(),
    {
        self.clock.tempo()
    }

    /// The clock's elapsed position in millibeats.
    pub fn elapsed_millibeats(&self) -> (mb: u64)
        ensures
            mb as int == self.clock().spec_elapsed_millibeats(),
    {
        self.clock.elapsed_millibeats()
    }

    /// Changes the tempo; elapsed beats keep their value.
    pub fn set_tempo(&mut self, tempo_mbpm: u64)
        requires
            old(self).wf(),
            tempo_mbpm >= 1,
        ensures
            final(self).wf(),
            final(self).clock().tempo_mbpm() == tempo_mbpm as int,
            final(self).clock().running() == old(self).clock().running(),
            final(self).clock().units() == old(self).clock().units(),
            final(self).registry() == old(self).registry(),
    {
        self.clock.set_tempo(tempo_mbpm);
    }

    /// Starts `program` as a new instance, beginning at the clock's current
    /// beat position, and returns its handle.  Only validated programs can
    /// arrive here: the builder rejects invalid ones before anything is
    /// registered.
    pub fn start_sequence(&mut self, program: Program, queue_capacity: usize) -> (h:
        InstanceHandle)
        requires
            old(self).wf(),
            program.valid(),
            queue_capacity >= 1,
        ensures
            final(self).wf(),
            final(self).clock() == old(self).clock(),
            final(self).live(h),
            !old(self).live(h),
            final(self).inst(h).program() == program,
            final(self).inst(h).cursor() == 0,
            final(self).inst(h).marker() == old(self).clock().spec_elapsed_millibeats(),
            final(self).inst(h).high() == old(self).clock().spec_elapsed_millibeats(),
            final(self).inst(h).terminated() == (program.steps().len() == 0),
            final(self).inst(h).events() == Seq::<u64>::empty(),
            final(self).inst(h).queue_capacity() == queue_capacity as int,
            forall|g: InstanceHandle|
                g != h ==> #[trigger] final(self).live(g) == old(self).live(g),
            forall|g: InstanceHandle|
                g != h && old(self).live(g) ==> #[trigger] final(self).inst(g) == old(
                    self,
                ).inst(g),
    {
        let start_at = self.clock.elapsed_millibeats();
        let inst = Instance::new(program, start_at, queue_capacity);
        self.registry.register(inst)
    }

    /// Advances the clock by `delta_us` microseconds and settles every live
    /// instance against the new beat count.  Returns the playback actions,
    /// in order; stop requests between instances have already been applied
    /// to the registry.  Never blocks: all side effects are handed back.
    pub fn tick(&mut self, delta_us: u64) -> (out: Vec<Action>)
        requires
            old(self).wf(),
            old(self).clock().units() + delta_us * old(self).clock().tempo_mbpm()
                <= u64::MAX,
        ensures
            final(self).wf(),
            final(self).clock().running() == old(self).clock().running(),
            final(self).clock().tempo_mbpm() == old(self).clock().tempo_mbpm(),
            old(self).clock().running() ==> final(self).clock().units() == old(
                self,
            ).clock().units() + delta_us * old(self).clock().tempo_mbpm(),
            !old(self).clock().running() ==> final(self).clock().units() == old(
                self,
            ).clock().units(),
            ({
                let now = final(self).clock().spec_elapsed_millibeats() as u64;
                &&& forall|h: InstanceHandle|
                    #[trigger] final(self).live(h) ==> old(self).live(h)
                &&& forall|h: InstanceHandle|
                    #[trigger] final(self).live(h) ==> old(self).inst(h).ticked_to(
                        final(self).inst(h),
                        now,
                    ) && !(final(self).inst(h).terminated() && final(self).inst(
                        h,
                    ).events().len() == 0)
                &&& forall|h: InstanceHandle|
                    old(self).live(h) && !(#[trigger] final(self).live(h))
                        ==> removal_reason(old(self).registry(), h, now)
                &&& forall|j: int|
                    0 <= j < out@.len() ==> action_of_some_live(
                        old(self).registry(),
                        #[trigger] out@[j],
                        now,
                    )
            }),
    {
        self.clock.advance(delta_us);
        let now = self.clock.elapsed_millibeats();
        self.registry.tick_all(now)
    }

    /// Stops the instance behind `h` and removes it from the registry; its
    /// handle is retired.  Targeting an instance that already ended is a
    /// benign no-op and reports success: `found` only says whether anything
    /// was still there.
    pub fn stop_instance(&mut self, h: InstanceHandle) -> (found: bool)
        requires
            old(self).wf(),
        ensures
            final(self).wf(),
            final(self).clock() == old(self).clock(),
            found == old(self).live(h),
            !final(self).live(h),
            forall|g: InstanceHandle|
                g != h ==> #[trigger] final(self).live(g) == old(self).live(g),
            forall|g: InstanceHandle|
                g != h && old(self).live(g) ==> #[trigger] final(self).inst(g) == old(
                    self,
                ).inst(g),
    {
        self.registry.remove(h)
    }

    /// Stops engine-wide playback: every live instance is removed, every
    /// handle retired, and the clock halts and resets to beat zero.
    /// Draining events through any handle afterwards yields nothing.
    pub fn stop_all(&mut self)
        requires
            old(self).wf(),
        ensures
            final(self).wf(),
            !final(self).clock().running(),
            final(self).clock().units() == 0,
            final(self).clock().tempo_mbpm() == old(self).clock().tempo_mbpm(),
            forall|h: InstanceHandle| !(#[trigger] final(self).live(h)),
    {
        self.registry.clear();
        self.clock.stop();
    }

    /// Pops the oldest queued event of the instance behind `h`, oldest
    /// first, or `None` when its queue is empty or the handle no longer
    /// resolves.  Never blocks; independent of the tick cadence.
    pub fn pop_event(&mut self, h: InstanceHandle) -> (r: Option<u64>)
        requires
            old(self).wf(),
        ensures
            final(self).wf(),
            final(self).clock() == old(self).clock(),
            forall|g: InstanceHandle| #[trigger] final(self).live(g) == old(self).live(g),
            !old(self).live(h) ==> r is None && final(self).registry() == old(self).registry(),
            forall|g: InstanceHandle|
                g != h && old(self).live(g) ==> #[trigger] final(self).inst(g) == old(
                    self,
                ).inst(g),
            old(self).live(h) ==> {
                let before = old(self).inst(h);
                let after = final(self).inst(h);
                &&& after.program() == before.program()
                &&& after.sched() == before.sched()
                &&& (before.events().len() == 0 ==> r is None && after.events()
                    == before.events())
                &&& (before.events().len() > 0 ==> r == Some(before.events()[0])
                    && after.events() == before.events().skip(1))
            },
    {
        self.registry.pop_event(h)
    }

    /// Whether `h` still resolves to a live instance.
    pub fn is_live(&self, h: InstanceHandle) -> (r: bool)
        ensures
            r == self.live(h),
    {
        self.registry.is_live(h)
    }
}

} // verus!
