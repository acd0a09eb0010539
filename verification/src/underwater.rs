//! The underwater domain: one parameter drives a filter cutoff and two
//! track volumes through different mappings.
//!
//! The machine holds the submerge toggle and the playing/stopped toggle.
//! Starting playback launches one sequence that immediately requests all
//! four stems, two of them with parameter-linked volumes; stopping it stops
//! that sequence with a short fade.  Submerging and resurfacing return the
//! parameter move — target and tween — for the host's parameter layer; the
//! mapping math itself lives in the playback layer and is out of scope
//! here, but every mapping a step references is carried through symbolically
//! and exactly.

use vstd::prelude::*;

use crate::engine::Engine;
use crate::handle::InstanceHandle;
use crate::program::Action;
use crate::program::DynamicValue;
use crate::program::ParameterMapping;
use crate::program::PlaySettings;
use crate::program::Program;
use crate::program::SequenceBuilder;
use crate::program::Step;

verus! {

/// Thousandths of a second the stop fade lasts.
pub const STOP_FADE_MS: u64 = 1000;

/// Thousandths of a second the submerge tween lasts.
pub const SUBMERGE_TWEEN_MS: u64 = 4000;

/// How many event values the sequence's queue holds (it emits none; the
/// queue exists because every instance owns one).
pub const UNDERWATER_EVENT_CAPACITY: usize = 8;

/// The sound references the underwater machine plays.
#[derive(Clone, Copy, Debug, PartialEq, Eq, Structural)]
pub struct UnderwaterSounds {
    pub bass: u64,
    pub pad: u64,
    pub lead: u64,
    pub drums: u64,
}

/// A move of the shared parameter for the host's parameter layer: drive
/// `parameter` to `target` (in thousandths) over `tween_ms` milliseconds.
#[derive(Clone, Copy, Debug, PartialEq, Eq, Structural)]
pub struct ParameterCommand {
    pub parameter: u64,
    pub target: u64,
    pub tween_ms: u64,
}

/// The drums fade out as the parameter rises: full range maps to full
/// volume down to silence.
pub open spec fn drums_volume(parameter: u64) -> DynamicValue {
    DynamicValue::Parameter(
        parameter,
        ParameterMapping { input_min: 0, input_max: 1000, output_min: 1000, output_max: 0 },
    )
}

/// The pad fades in with the parameter: volume follows it directly.
pub open spec fn pad_volume(parameter: u64) -> DynamicValue {
    DynamicValue::Parameter(
        parameter,
        ParameterMapping { input_min: 0, input_max: 1000, output_min: 0, output_max: 1000 },
    )
}

/// The steps of the underwater sequence: all four stems start at once,
/// drums and pad with parameter-linked volumes.
pub open spec fn underwater_steps(sounds: UnderwaterSounds, parameter: u64) -> Seq<Step> {
    seq![
        Step::PlaySound(sounds.drums, PlaySettings { volume: drums_volume(parameter) }),
        Step::PlaySound(sounds.bass, PlaySettings { volume: DynamicValue::Constant(1000) }),
        Step::PlaySound(sounds.pad, PlaySettings { volume: pad_volume(parameter) }),
        Step::PlaySound(sounds.lead, PlaySettings { volume: DynamicValue::Constant(1000) }),
    ]
}

/// Builds the underwater playback program.
pub fn underwater_program(sounds: UnderwaterSounds, parameter: u64) -> (p: Program)
    ensures
        p.valid(),
        p.steps() == underwater_steps(sounds, parameter),
        p.loop_point() is None,
{
    let mut b = SequenceBuilder::new();
    b.play(
        sounds.drums,
        PlaySettings {
            volume: DynamicValue::Parameter(
                parameter,
                ParameterMapping { input_min: 0, input_max: 1000, output_min: 1000, output_max: 0 },
            ),
        },
    );
    b.play(sounds.bass, PlaySettings::plain());
    b.play(
        sounds.pad,
        PlaySettings {
            volume: DynamicValue::Parameter(
                parameter,
                ParameterMapping { input_min: 0, input_max: 1000, output_min: 0, output_max: 1000 },
            ),
        },
    );
    b.play(sounds.lead, PlaySettings::plain());
    proof {
        assert(b.recorded() =~= underwater_steps(sounds, parameter));
    }
    match b.build() {
        Ok(p) => p,
        Err(_) => vstd::pervasive::unreached(),
    }
}

/// The underwater machine: the engine, the playing sequence if any, and
/// the submerge toggle.
pub struct UnderwaterMachine {
    engine: Engine,
    playing: Option<InstanceHandle>,
    underwater: bool,
    sounds: UnderwaterSounds,
    parameter: u64,
}

impl UnderwaterMachine {
    /// The engine this machine drives.
    pub closed spec fn engine(&self) -> Engine {
        self.engine
    }

    /// The handle of the playing sequence, if playback is on.
    pub closed spec fn playing(&self) -> Option<InstanceHandle> {
        self.playing
    }

    /// Whether the scene is submerged.
    pub closed spec fn underwater(&self) -> bool {
        self.underwater
    }

    /// The sound references in use.
    pub closed spec fn sounds(&self) -> UnderwaterSounds {
        self.sounds
    }

    /// The shared parameter's identifier.
    pub closed spec fn parameter(&self) -> u64 {
        self.parameter
    }

    pub open spec fn wf(&self) -> bool {
        self.engine().wf()
    }

    /// A surfaced, stopped machine at the given tempo (milli-beats-per-
    /// minute, positive).
    pub fn new(tempo_mbpm: u64, sounds: UnderwaterSounds, parameter: u64) -> (m:
        UnderwaterMachine)
        requires
            tempo_mbpm >= 1,
        ensures
            m.wf(),
            m.playing() is None,
            !m.underwater(),
            m.sounds() == sounds,
            m.parameter() == parameter,
    {
        UnderwaterMachine {
            engine: Engine::new(tempo_mbpm),
            playing: None,
            underwater: false,
            sounds,
            parameter,
        }
    }

    /// The play/stop input.  Stopped, it starts the four stems on a
    /// running clock and returns nothing to fade; playing, it stops the
    /// sequence and returns the fade the playback layer should apply.
    pub fn toggle_play(&mut self) -> (fade: Option<Action>)
        requires
            old(self).wf(),
        ensures
            final(self).wf(),
            final(self).underwater() == old(self).underwater(),
            final(self).sounds() == old(self).sounds(),
            final(self).parameter() == old(self).parameter(),
            old(self).playing() is Some ==> {
                &&& final(self).playing() is None
                &&& fade == Some(Action::Stop(old(self).playing().unwrap(), STOP_FADE_MS))
                &&& !final(self).engine().live(old(self).playing().unwrap())
            },
            old(self).playing() is None ==> {
                &&& fade is None
                &&& final(self).playing() is Some
                &&& final(self).engine().live(final(self).playing().unwrap())
                &&& final(self).engine().inst(final(self).playing().unwrap()).program().steps()
                    == underwater_steps(old(self).sounds(), old(self).parameter())
                &&& final(self).engine().clock().running()
            },
    {
        match self.playing {
            Some(h) => {
                self.engine.stop_instance(h);
                self.playing = None;
                Some(Action::Stop(h, STOP_FADE_MS))
            },
            None => {
                let program = underwater_program(self.sounds, self.parameter);
                let h = self.engine.start_sequence(program, UNDERWATER_EVENT_CAPACITY);
                self.playing = Some(h);
                self.engine.start();
                None
            },
        }
    }

    /// The submerge/resurface input: flips the toggle and returns the
    /// parameter move for the host's parameter layer — to the top of the
    /// range when submerging, back to zero when resurfacing, always over
    /// the same tween.
    pub fn toggle_submerge(&mut self) -> (cmd: ParameterCommand)
        requires
            old(self).wf(),
        ensures
            final(self).wf(),
            final(self).underwater() == !old(self).underwater(),
            final(self).playing() == old(self).playing(),
            final(self).sounds() == old(self).sounds(),
            final(self).parameter() == old(self).parameter(),
            final(self).engine() == old(self).engine(),
            cmd == (ParameterCommand {
                parameter: old(self).parameter(),
                target: if old(self).underwater() {
                    0
                } else {
                    1000
                },
                tween_ms: SUBMERGE_TWEEN_MS,
            }),
    {
        let target: u64 = if self.underwater {
            0
        } else {
            1000
        };
        self.underwater = !self.underwater;
        ParameterCommand { parameter: self.parameter, target, tween_ms: SUBMERGE_TWEEN_MS }
    }

    /// Advances the clock and settles the sequence; the returned actions
    /// (the four stem plays, once due) go to the playback layer.
    pub fn tick(&mut self, delta_us: u64) -> (out: Vec<Action>)
        requires
            old(self).wf(),
            old(self).engine().clock().units() + delta_us * old(
                self,
            ).engine().clock().tempo_mbpm() <= u64::MAX,
        ensures
            final(self).wf(),
            final(self).playing() == old(self).playing(),
            final(self).underwater() == old(self).underwater(),
            final(self).sounds() == old(self).sounds(),
            final(self).parameter() == old(self).parameter(),
            final(self).engine().clock().running() == old(self).engine().clock().running(),
            old(self).engine().clock().running() ==> final(self).engine().clock().units() == old(
                self,
            ).engine().clock().units() + delta_us * old(self).engine().clock().tempo_mbpm(),
            ({
                let now = final(self).engine().clock().spec_elapsed_millibeats() as u64;
                forall|h: InstanceHandle|
                    #[trigger] final(self).engine().live(h) ==> old(self).engine().live(h)
                        && old(self).engine().inst(h).ticked_to(final(self).engine().inst(h), now)
            }),
    {
        self.engine.tick(delta_us)
    }

    /// Whether playback is on.
    pub fn is_playing(&self) -> (r: bool)
        ensures
            r == (self.playing() is Some),
    {
        self.playing.is_some()
    }

    /// Whether the scene is submerged.
    pub fn is_underwater(&self) -> (r: bool)
        ensures
            r == self.underwater(),
    {
        self.underwater
    }
}

} // verus!
