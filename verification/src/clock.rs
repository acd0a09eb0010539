//! The musical clock: elapsed time against a tempo, read as elapsed beats.
//!
//! The clock accumulates time units of one microsecond times the tempo in
//! milli-beats-per-minute.  One minute at tempo `t` milli-bpm contributes
//! `60_000_000 * t` units and spans `t` millibeats, so one millibeat is
//! always exactly [`UNITS_PER_MILLIBEAT`] units, whatever the tempo was at
//! each advance.  Elapsed beats are therefore derived exactly, with no
//! rounding drift across ticks or tempo changes.

use vstd::prelude::*;

verus! {

/// Accumulated time units (microseconds times milli-bpm) per millibeat.
pub const UNITS_PER_MILLIBEAT: u64 = 60_000_000;

/// Tracks elapsed musical time.  Single writer: only [`Clock::advance`]
/// moves it forward; reads are pure.
pub struct Clock {
    running: bool,
    units: u64,
    tempo_mbpm: u64,
}

impl Clock {
    /// Whether the clock is advancing.
    pub closed spec fn running(&self) -> bool {
        self.running
    }

    /// Accumulated time units since the clock last started.
    pub closed spec fn units(&self) -> int {
        self.units as int
    }

    /// The current tempo in milli-beats-per-minute.
    pub closed spec fn tempo_mbpm(&self) -> int {
        self.tempo_mbpm as int
    }

    /// Elapsed musical position in millibeats, derived from the
    /// accumulated units.
    pub open spec fn spec_elapsed_millibeats(&self) -> int {
        self.units() / (UNITS_PER_MILLIBEAT as int)
    }

    pub open spec fn wf(&self) -> bool {
        &&& self.tempo_mbpm() >= 1
        &&& !self.running() ==> self.units() == 0
    }

    /// Creates a stopped clock at position zero.  The tempo is given in
    /// milli-beats-per-minute and must be positive.
    pub fn new(tempo_mbpm: u64) -> (c: Clock)
        requires
            tempo_mbpm >= 1,
        ensures
            c.wf(),
            !c.running(),
            c.units() == 0,
            c.tempo_mbpm() == tempo_mbpm as int,
    {
        Clock { running: false, units: 0, tempo_mbpm }
    }

    /// Begins advancing from beat zero.  Starting an already-running clock
    /// is a no-op: the position is kept, not restarted.
    pub fn start(&mut self)
        requires
            old(self).wf(),
        ensures
            final(self).wf(),
            final(self).running(),
            final(self).units() == old(self).units(),
            final(self).tempo_mbpm() == old(self).tempo_mbpm(),
            !old(self).running() ==> final(self).units() == 0,
    {
        self.running = true;
    }

    /// Halts the clock and discards the position: elapsed beats reset to
    /// zero and stay there until the next start.
    pub fn stop(&mut self)
        requires
            old(self).wf(),
        ensures
            final(self).wf(),
            !final(self).running(),
            final(self).units() == 0,
            final(self).tempo_mbpm() == old(self).tempo_mbpm(),
    {
        self.running = false;
        self.units = 0;
    }

    /// Changes the tempo.  Already-elapsed beats keep their value; only
    /// time advanced from now on is converted at the new rate.
    pub fn set_tempo(&mut self, tempo_mbpm: u64)
        requires
            old(self).wf(),
            tempo_mbpm >= 1,
        ensures
            final(self).wf(),
            final(self).running() == old(self).running(),
            final(self).units() == old(self).units(),
            final(self).tempo_mbpm() == tempo_mbpm as int,
    {
        self.tempo_mbpm = tempo_mbpm;
    }

    /// Advances the clock by `delta_us` microseconds of host time.  While
    /// stopped this is a no-op.  Elapsed beats never decrease.
    pub fn advance(&mut self, delta_us: u64)
        requires
            old(self).wf(),
            old(self).units() + delta_us * old(self).tempo_mbpm() <= u64::MAX,
        ensures
            final(self).wf(),
            final(self).running() == old(self).running(),
            final(self).tempo_mbpm() == old(self).tempo_mbpm(),
            old(self).running() ==> final(self).units() == old(self).units() + delta_us
                * old(self).tempo_mbpm(),
            !old(self).running() ==> final(self).units() == old(self).units(),
            final(self).spec_elapsed_millibeats() >= old(self).spec_elapsed_millibeats(),
    {
        if self.running {
            self.units = self.units + delta_us * self.tempo_mbpm;
        }
        proof {
            vstd::arithmetic::div_mod::lemma_div_is_ordered(
                old(self).units(),
                self.units(),
                UNITS_PER_MILLIBEAT as int,
            );
        }
    }

    /// The elapsed musical position in millibeats.
    pub fn elapsed_millibeats(&self) -> (mb: u64)
        ensures
            mb as int == self.spec_elapsed_millibeats(),
    {
        self.units / UNITS_PER_MILLIBEAT
    }

    /// The accumulated time units (microseconds times milli-bpm): the raw
    /// quantity [`Clock::advance`] grows, exposed so a host can guard the
    /// advance against overflow.
    pub fn accumulated_units(&self) -> (u: u64)
        ensures
            u as int == self.units(),
    {
        self.units
    }

    /// The current tempo in milli-beats-per-minute.
    pub fn tempo(&self) -> (t: u64)
        ensures
            t as int == self.tempo_mbpm(),
    {
        self.tempo_mbpm
    }

    /// Whether the clock is advancing.
    pub fn is_running(&self) -> (r: bool)
        ensures
            r == self.running(),
    {
        self.running
    }
}

} // verus!
