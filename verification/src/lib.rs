//! A tempo-synchronized sequence scheduler.
//!
//! The library drives timed sequences of steps (wait a number of beats, wait
//! for a beat interval, play a sound, emit an event, stop another sequence,
//! loop) against a shared musical clock.  A host feeds the engine discrete
//! "time has advanced" ticks and polls each running sequence's event queue at
//! its own cadence; the scheduler itself never blocks and never performs any
//! audio work — playback requests are returned to the host as plain actions.
//!
//! Musical time is integral throughout: durations and positions are measured
//! in millibeats (one thousandth of a beat), and the clock accumulates
//! microseconds multiplied by the tempo in milli-beats-per-minute, so that a
//! millibeat is always exactly the same number of accumulated units whatever
//! the tempo history.  This makes every scheduling decision exact: waits fire
//! precisely when the elapsed beat count crosses their target, and interval
//! waits land on exact multiples of the interval measured from clock zero.

pub mod clock;
pub mod drum_fill;
pub mod engine;
pub mod handle;
pub mod instance;
pub mod laws;
pub mod program;
pub mod queue;
pub mod registry;
pub mod underwater;
