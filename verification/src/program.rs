//! Sequence programs: immutable ordered lists of scheduled steps.
//!
//! A program is compiled once from a [`SequenceBuilder`] and never mutated
//! afterwards.  Steps reference sounds, parameters and other sequence
//! instances symbolically; all musical durations are in millibeats.  A
//! builder records an optional loop point: when a running instance reaches
//! the end of the program it either terminates, or jumps back to the loop
//! point if one was set.
//!
//! Validation happens at build time: a program with a loop point that
//! references no subsequent steps, with a loop body that consumes no musical
//! time (which could never leave the loop's first pass), or with a
//! zero-length beat interval (a wait that no beat value satisfies) is
//! rejected before it can ever be scheduled.

use vstd::prelude::*;

use crate::handle::InstanceHandle;

verus! {

/// How a play request resolves a dynamic quantity: a fixed value in
/// thousandths, or a live parameter (by identifier) run through a mapping.
#[derive(Clone, Copy, Debug, PartialEq, Eq, Structural)]
pub enum DynamicValue {
    Constant(u64),
    Parameter(u64, ParameterMapping),
}

/// A linear mapping from a parameter's input range to an output range,
/// all in thousandths.
#[derive(Clone, Copy, Debug, PartialEq, Eq, Structural)]
pub struct ParameterMapping {
    pub input_min: u64,
    pub input_max: u64,
    pub output_min: u64,
    pub output_max: u64,
}

/// Settings handed to the playback layer alongside a play request.
#[derive(Clone, Copy, Debug, PartialEq, Eq, Structural)]
pub struct PlaySettings {
    pub volume: DynamicValue,
}

impl PlaySettings {
    /// Plain playback: full volume (one thousand thousandths).
    pub fn plain() -> (s: PlaySettings)
        ensures
            s == (PlaySettings { volume: DynamicValue::Constant(1000) }),
    {
        PlaySettings { volume: DynamicValue::Constant(1000) }
    }
}

/// One scheduled step of a sequence program.
#[derive(Clone, Copy, Debug, PartialEq, Eq, Structural)]
pub enum Step {
    /// Wait until the given number of millibeats has passed since the
    /// instance's current logical position.
    WaitBeats(u64),
    /// Wait until elapsed beats next reach an exact multiple of the given
    /// interval in millibeats, measured from the clock's zero.
    WaitForInterval(u64),
    /// Ask the playback layer to start the given sound.
    PlaySound(u64, PlaySettings),
    /// Push the given value onto the instance's event queue.
    EmitEvent(u64),
    /// Stop another registered instance, fading over the given number of
    /// milliseconds.  A stale handle makes this a silent no-op.
    StopInstance(InstanceHandle, u64),
}

/// A side effect handed back to the host for the playback layer.
#[derive(Clone, Copy, Debug, PartialEq, Eq, Structural)]
pub enum Action {
    /// Start this sound with these settings.
    Play(u64, PlaySettings),
    /// The registry entry was stopped; fade its playback out over the given
    /// number of milliseconds.
    Stop(InstanceHandle, u64),
}

/// Why a program failed validation.
#[derive(Clone, Copy, Debug, PartialEq, Eq, Structural)]
pub enum ProgramError {
    /// A `WaitForInterval` step has interval zero: no beat value is an
    /// exact positive multiple of zero, so the wait could never fire.
    ZeroInterval,
    /// The loop point references no subsequent steps.
    EmptyLoop,
    /// The loop body waits for no musical time at all, so a loop pass
    /// would never consume any beats.
    UnproductiveLoop,
}

/// The millibeats a step consumes of the instance's own logical time.
pub open spec fn wait_amount(step: Step) -> int {
    match step {
        Step::WaitBeats(d) => d as int,
        _ => 0,
    }
}

/// Total `WaitBeats` millibeats in `steps` from index `from` to the end.
pub open spec fn wait_sum(steps: Seq<Step>, from: int) -> int
    decreases steps.len() - from,
{
    if from < 0 || from >= steps.len() {
        0
    } else {
        wait_amount(steps[from]) + wait_sum(steps, from + 1)
    }
}

pub proof fn lemma_wait_sum_nonneg(steps: Seq<Step>, from: int)
    ensures
        wait_sum(steps, from) >= 0,
    decreases steps.len() - from,
{
    if 0 <= from < steps.len() {
        lemma_wait_sum_nonneg(steps, from + 1);
    }
}

/// A positive wait sum is the same as some step in range being a positive
/// `WaitBeats`.
pub proof fn lemma_wait_sum_positive_iff(steps: Seq<Step>, from: int)
    requires
        0 <= from <= steps.len(),
    ensures
        wait_sum(steps, from) >= 1 <==> exists|j: int|
            from <= j < steps.len() && wait_amount(#[trigger] steps[j]) >= 1,
    decreases steps.len() - from,
{
    if from < steps.len() {
        lemma_wait_sum_positive_iff(steps, from + 1);
        lemma_wait_sum_nonneg(steps, from + 1);
        if wait_amount(steps[from]) >= 1 {
            assert(from <= from < steps.len() && wait_amount(steps[from]) >= 1);
        }
    }
}

/// True unless the step is a `WaitForInterval` with interval zero.
pub open spec fn interval_ok(step: Step) -> bool {
    match step {
        Step::WaitForInterval(k) => k >= 1,
        _ => true,
    }
}

/// What build-time validation checks: every interval is positive, and a
/// loop point references subsequent steps that consume at least one
/// millibeat per pass.
pub open spec fn program_valid(steps: Seq<Step>, loop_point: Option<int>) -> bool {
    &&& forall|i: int| 0 <= i < steps.len() ==> interval_ok(#[trigger] steps[i])
    &&& match loop_point {
        Some(lp) => 0 <= lp < steps.len() && wait_sum(steps, lp) >= 1,
        None => true,
    }
}

/// An immutable, validated sequence program.
#[derive(Debug)]
pub struct Program {
    steps: Vec<Step>,
    loop_point: Option<usize>,
}

impl Program {
    /// The ordered steps.
    pub closed spec fn steps(&self) -> Seq<Step> {
        self.steps@
    }

    /// The index execution jumps back to at the end of the program, if a
    /// loop point was set.
    pub closed spec fn loop_point(&self) -> Option<int> {
        match self.loop_point {
            Some(lp) => Some(lp as int),
            None => None,
        }
    }

    /// What build-time validation guarantees; see [`program_valid`].
    pub open spec fn valid(&self) -> bool {
        program_valid(self.steps(), self.loop_point())
    }

    /// How many steps the program holds.
    pub fn step_count(&self) -> (n: usize)
        ensures
            n as int == self.steps().len(),
    {
        self.steps.len()
    }

    /// The step at `index`.
    pub fn step_at(&self, index: usize) -> (s: Step)
        requires
            (index as int) < self.steps().len(),
        ensures
            s == self.steps()[index as int],
    {
        self.steps[index]
    }

    /// The loop point, if one was set.
    pub fn get_loop_point(&self) -> (lp: Option<usize>)
        ensures
            match lp {
                Some(i) => self.loop_point() == Some(i as int),
                None => self.loop_point() is None,
            },
    {
        self.loop_point
    }
}

/// Fluent construction of a [`Program`]: an ordered list of step calls,
/// frozen and validated by [`SequenceBuilder::build`].
pub struct SequenceBuilder {
    steps: Vec<Step>,
    loop_point: Option<usize>,
}

impl SequenceBuilder {
    /// The steps recorded so far.
    pub closed spec fn recorded(&self) -> Seq<Step> {
        self.steps@
    }

    /// The recorded loop point, if any.
    pub closed spec fn recorded_loop(&self) -> Option<int> {
        match self.loop_point {
            Some(lp) => Some(lp as int),
            None => None,
        }
    }

    /// Starts an empty program.
    pub fn new() -> (b: SequenceBuilder)
        ensures
            b.recorded() == Seq::<Step>::empty(),
            b.recorded_loop() is None,
    {
        SequenceBuilder { steps: Vec::new(), loop_point: None }
    }

    /// Appends a wait of `millibeats` of the instance's own time.
    pub fn wait(&mut self, millibeats: u64)
        ensures
            final(self).recorded() == old(self).recorded().push(Step::WaitBeats(millibeats)),
            final(self).recorded_loop() == old(self).recorded_loop(),
    {
        self.steps.push(Step::WaitBeats(millibeats));
    }

    /// Appends a wait until elapsed beats next reach a multiple of
    /// `interval_millibeats`, counted from clock zero.
    pub fn wait_for_interval(&mut self, interval_millibeats: u64)
        ensures
            final(self).recorded() == old(self).recorded().push(
                Step::WaitForInterval(interval_millibeats),
            ),
            final(self).recorded_loop() == old(self).recorded_loop(),
    {
        self.steps.push(Step::WaitForInterval(interval_millibeats));
    }

    /// Appends a play request for `sound`.
    pub fn play(&mut self, sound: u64, settings: PlaySettings)
        ensures
            final(self).recorded() == old(self).recorded().push(Step::PlaySound(sound, settings)),
            final(self).recorded_loop() == old(self).recorded_loop(),
    {
        self.steps.push(Step::PlaySound(sound, settings));
    }

    /// Appends an event emission of `value`.
    pub fn emit(&mut self, value: u64)
        ensures
            final(self).recorded() == old(self).recorded().push(Step::EmitEvent(value)),
            final(self).recorded_loop() == old(self).recorded_loop(),
    {
        self.steps.push(Step::EmitEvent(value));
    }

    /// Appends a stop of another registered instance, fading over
    /// `fade_ms` milliseconds.
    pub fn stop_other(&mut self, target: InstanceHandle, fade_ms: u64)
        ensures
            final(self).recorded() == old(self).recorded().push(
                Step::StopInstance(target, fade_ms),
            ),
            final(self).recorded_loop() == old(self).recorded_loop(),
    {
        self.steps.push(Step::StopInstance(target, fade_ms));
    }

    /// Marks the loop-back target: execution jumps back to just after this
    /// point at the end of the program.  Calling it again moves the mark.
    pub fn start_loop(&mut self)
        ensures
            final(self).recorded() == old(self).recorded(),
            final(self).recorded_loop() == Some(old(self).recorded().len() as int),
    {
        self.loop_point = Some(self.steps.len());
    }

    /// Validates and freezes the recorded steps into an immutable
    /// [`Program`].  Construction-time errors are returned immediately;
    /// nothing is partially registered.
    pub fn build(self) -> (r: Result<Program, ProgramError>)
        ensures
            match r {
                Ok(p) => {
                    &&& p.valid()
                    &&& p.steps() == self.recorded()
                    &&& p.loop_point() == self.recorded_loop()
                },
                Err(e) => match e {
                    ProgramError::ZeroInterval => self.recorded().contains(
                        Step::WaitForInterval(0),
                    ),
                    ProgramError::EmptyLoop => {
                        &&& self.recorded_loop() matches Some(lp)
                        &&& lp >= self.recorded().len()
                    },
                    ProgramError::UnproductiveLoop => {
                        &&& self.recorded_loop() matches Some(lp)
                        &&& 0 <= lp < self.recorded().len()
                        &&& wait_sum(self.recorded(), lp) < 1
                    },
                },
            },
            r is Ok <==> program_valid(self.recorded(), self.recorded_loop()),
    {
        let n = self.steps.len();
        let mut i: usize = 0;
        while i < n
            invariant
                n as int == self.recorded().len(),
                i <= n,
                forall|j: int| 0 <= j < i ==> interval_ok(#[trigger] self.recorded()[j]),
            decreases n - i,
        {
            if let Step::WaitForInterval(k) = self.steps[i] {
                if k == 0 {
                    assert(self.recorded()[i as int] == Step::WaitForInterval(0));
                    assert(self.recorded().contains(Step::WaitForInterval(0)));
                    return Err(ProgramError::ZeroInterval);
                }
            }
            i = i + 1;
        }
        match self.loop_point {
            None => Ok(Program { steps: self.steps, loop_point: None }),
            Some(lp) => {
                if lp >= n {
                    return Err(ProgramError::EmptyLoop);
                }
                let mut j: usize = lp;
                let mut productive = false;
                while j < n
                    invariant
                        n as int == self.recorded().len(),
                        lp <= j <= n,
                        productive <==> exists|t: int|
                            lp <= t < j && wait_amount(#[trigger] self.recorded()[t]) >= 1,
                    decreases n - j,
                {
                    if let Step::WaitBeats(d) = self.steps[j] {
                        if d >= 1 {
                            assert(wait_amount(self.recorded()[j as int]) >= 1);
                            productive = true;
                        }
                    }
                    j = j + 1;
                }
                proof {
                    lemma_wait_sum_positive_iff(self.recorded(), lp as int);
                }
                if productive {
                    Ok(Program { steps: self.steps, loop_point: Some(lp) })
                } else {
                    Err(ProgramError::UnproductiveLoop)
                }
            },
        }
    }
}

} // verus!
