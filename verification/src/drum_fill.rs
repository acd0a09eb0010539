//! The drum-fill domain: two cooperating sequences over one clock, and the
//! finite-state playback value a host derives from their events.
//!
//! A beat-tracker sequence emits the current beat (one of four, cyclically)
//! once per beat, phase-locked to the clock.  A loop sequence plays a drum
//! loop every four beats.  When a fill is requested, the kind of fill is a
//! fixed lookup from the current beat; a new sequence waits for the fill's
//! start interval, announces the fill, stops the old loop sample-accurately,
//! plays the fill, waits for the next bar, announces the finish, and then
//! loops the drum loop itself.
//!
//! The visible [`PlaybackState`] is derived entirely from the events the two
//! sequences emit — the host never mutates it directly.  Its transition
//! functions are pure and [`DrumFillMachine::pop_events`] is proved to fold
//! them, in order, over exactly the queued events.

use vstd::prelude::*;

use crate::engine::Engine;
use crate::handle::InstanceHandle;
use crate::program::Action;
use crate::program::PlaySettings;
use crate::program::Program;
use crate::program::SequenceBuilder;
use crate::program::Step;
use crate::program::wait_sum;

verus! {

/// Millibeats in one beat.
pub const MILLIBEATS_PER_BEAT: u64 = 1000;

/// Millibeats in one four-beat bar.
pub const BAR_MILLIBEATS: u64 = 4 * MILLIBEATS_PER_BEAT;

/// How many event values each sequence's queue holds.
pub const DRUM_EVENT_CAPACITY: usize = 64;

/// The kinds of drum fill, by length in beats.
#[derive(Clone, Copy, Debug, PartialEq, Eq, Structural)]
pub enum DrumFill {
    TwoBeat,
    ThreeBeat,
    FourBeat,
}

impl DrumFill {
    /// The fill's length in beats.
    pub fn length(self) -> (n: usize)
        ensures
            n == self.spec_length(),
    {
        match self {
            DrumFill::TwoBeat => 2,
            DrumFill::ThreeBeat => 3,
            DrumFill::FourBeat => 4,
        }
    }

    pub open spec fn spec_length(self) -> usize {
        match self {
            DrumFill::TwoBeat => 2,
            DrumFill::ThreeBeat => 3,
            DrumFill::FourBeat => 4,
        }
    }

    /// The beat interval, in millibeats, the fill must start on: a
    /// four-beat fill starts on a bar, the others on the next beat.
    pub fn start_interval(self) -> (mb: u64)
        ensures
            mb == self.spec_start_interval(),
    {
        match self {
            DrumFill::FourBeat => BAR_MILLIBEATS,
            _ => MILLIBEATS_PER_BEAT,
        }
    }

    pub open spec fn spec_start_interval(self) -> u64 {
        match self {
            DrumFill::FourBeat => BAR_MILLIBEATS,
            _ => MILLIBEATS_PER_BEAT,
        }
    }
}

/// The four beats of a bar, cyclic.
#[derive(Clone, Copy, Debug, Hash, PartialEq, Eq, Structural)]
pub enum Beat {
    One,
    Two,
    Three,
    Four,
}

impl Beat {
    /// This beat's zero-based position in the bar.
    pub fn as_usize(self) -> (n: usize)
        ensures
            n == self.spec_as_usize(),
    {
        match self {
            Beat::One => 0,
            Beat::Two => 1,
            Beat::Three => 2,
            Beat::Four => 3,
        }
    }

    pub open spec fn spec_as_usize(self) -> usize {
        match self {
            Beat::One => 0,
            Beat::Two => 1,
            Beat::Three => 2,
            Beat::Four => 3,
        }
    }

    /// Which fill a request on this beat gets: the fill that carries
    /// playback to the end of the bar.
    pub fn fill(self) -> (f: DrumFill)
        ensures
            f == self.spec_fill(),
    {
        match self {
            Beat::One => DrumFill::ThreeBeat,
            Beat::Two => DrumFill::TwoBeat,
            _ => DrumFill::FourBeat,
        }
    }

    pub open spec fn spec_fill(self) -> DrumFill {
        match self {
            Beat::One => DrumFill::ThreeBeat,
            Beat::Two => DrumFill::TwoBeat,
            _ => DrumFill::FourBeat,
        }
    }

    /// The value the beat tracker emits for this beat.
    pub fn event_value(self) -> (v: u64)
        ensures
            v == self.spec_event_value(),
    {
        match self {
            Beat::One => 1,
            Beat::Two => 2,
            Beat::Three => 3,
            Beat::Four => 4,
        }
    }

    pub open spec fn spec_event_value(self) -> u64 {
        match self {
            Beat::One => 1,
            Beat::Two => 2,
            Beat::Three => 3,
            Beat::Four => 4,
        }
    }

    /// Decodes a beat-tracker event value.
    pub fn from_event_value(v: u64) -> (b: Option<Beat>)
        ensures
            b == Beat::spec_from_event_value(v),
    {
        if v == 1 {
            Some(Beat::One)
        } else if v == 2 {
            Some(Beat::Two)
        } else if v == 3 {
            Some(Beat::Three)
        } else if v == 4 {
            Some(Beat::Four)
        } else {
            None
        }
    }

    pub open spec fn spec_from_event_value(v: u64) -> Option<Beat> {
        if v == 1 {
            Some(Beat::One)
        } else if v == 2 {
            Some(Beat::Two)
        } else if v == 3 {
            Some(Beat::Three)
        } else if v == 4 {
            Some(Beat::Four)
        } else {
            None
        }
    }
}

/// Every beat decodes back from its own event value.
pub proof fn lemma_beat_event_round_trip(b: Beat)
    ensures
        Beat::spec_from_event_value(b.spec_event_value()) == Some(b),
{
}

/// What a fill-and-loop sequence announces.
#[derive(Clone, Copy, Debug, Hash, PartialEq, Eq, Structural)]
pub enum DrumFillEvent {
    Start,
    Finish,
}

impl DrumFillEvent {
    /// The value the fill sequence emits for this event.
    pub fn event_value(self) -> (v: u64)
        ensures
            v == self.spec_event_value(),
    {
        match self {
            DrumFillEvent::Start => 1,
            DrumFillEvent::Finish => 2,
        }
    }

    pub open spec fn spec_event_value(self) -> u64 {
        match self {
            DrumFillEvent::Start => 1,
            DrumFillEvent::Finish => 2,
        }
    }

    /// Decodes a fill-sequence event value.
    pub fn from_event_value(v: u64) -> (e: Option<DrumFillEvent>)
        ensures
            e == DrumFillEvent::spec_from_event_value(v),
    {
        if v == 1 {
            Some(DrumFillEvent::Start)
        } else if v == 2 {
            Some(DrumFillEvent::Finish)
        } else {
            None
        }
    }

    pub open spec fn spec_from_event_value(v: u64) -> Option<DrumFillEvent> {
        if v == 1 {
            Some(DrumFillEvent::Start)
        } else if v == 2 {
            Some(DrumFillEvent::Finish)
        } else {
            None
        }
    }
}

/// Every fill event decodes back from its own event value.
pub proof fn lemma_fill_event_round_trip(e: DrumFillEvent)
    ensures
        DrumFillEvent::spec_from_event_value(e.spec_event_value()) == Some(e),
{
}

/// The visible playback state, derived only from emitted events.
#[derive(Clone, Copy, Debug, PartialEq, Eq, Structural)]
pub enum PlaybackState {
    Stopped,
    PlayingLoop(Beat),
    QueueingFill(Beat, DrumFill),
    PlayingFill(Beat, DrumFill),
}

impl PlaybackState {
    /// The text a display shows for this state.
    pub open spec fn spec_label(self) -> Seq<char> {
        match self {
            PlaybackState::Stopped => "Stopped"@,
            PlaybackState::PlayingLoop(_) => "Looping"@,
            PlaybackState::QueueingFill(_, fill) => match fill {
                DrumFill::TwoBeat => "Queueing 2-beat drum fill"@,
                DrumFill::ThreeBeat => "Queueing 3-beat drum fill"@,
                DrumFill::FourBeat => "Queueing 4-beat drum fill"@,
            },
            PlaybackState::PlayingFill(_, fill) => match fill {
                DrumFill::TwoBeat => "Playing 2-beat drum fill"@,
                DrumFill::ThreeBeat => "Playing 3-beat drum fill"@,
                DrumFill::FourBeat => "Playing 4-beat drum fill"@,
            },
        }
    }

    /// The text a display shows for this state.
    pub fn to_string(self) -> (s: String)
        ensures
            s@ == self.spec_label(),
    {
        match self {
            PlaybackState::Stopped => "Stopped".to_owned(),
            PlaybackState::PlayingLoop(_) => "Looping".to_owned(),
            PlaybackState::QueueingFill(_, fill) => match fill {
                DrumFill::TwoBeat => "Queueing 2-beat drum fill".to_owned(),
                DrumFill::ThreeBeat => "Queueing 3-beat drum fill".to_owned(),
                DrumFill::FourBeat => "Queueing 4-beat drum fill".to_owned(),
            },
            PlaybackState::PlayingFill(_, fill) => match fill {
                DrumFill::TwoBeat => "Playing 2-beat drum fill".to_owned(),
                DrumFill::ThreeBeat => "Playing 3-beat drum fill".to_owned(),
                DrumFill::FourBeat => "Playing 4-beat drum fill".to_owned(),
            },
        }
    }

    /// The beat on display, if playback is running.
    pub fn current_beat(self) -> (b: Option<Beat>)
        ensures
            b == self.spec_current_beat(),
    {
        match self {
            PlaybackState::Stopped => None,
            PlaybackState::PlayingLoop(beat) => Some(beat),
            PlaybackState::QueueingFill(beat, _) => Some(beat),
            PlaybackState::PlayingFill(beat, _) => Some(beat),
        }
    }

    pub open spec fn spec_current_beat(self) -> Option<Beat> {
        match self {
            PlaybackState::Stopped => None,
            PlaybackState::PlayingLoop(beat) => Some(beat),
            PlaybackState::QueueingFill(beat, _) => Some(beat),
            PlaybackState::PlayingFill(beat, _) => Some(beat),
        }
    }
}

/// How one beat-tracker event value moves the playback state, and whether a
/// display should re-render: any running state takes the new beat; a value
/// that is no beat, or a beat while stopped, changes nothing.
pub open spec fn after_beat_event(st: PlaybackState, v: u64) -> (PlaybackState, bool) {
    match Beat::spec_from_event_value(v) {
        Some(beat) => match st {
            PlaybackState::Stopped => (st, false),
            PlaybackState::PlayingLoop(_) => (PlaybackState::PlayingLoop(beat), true),
            PlaybackState::QueueingFill(_, fill) => (PlaybackState::QueueingFill(beat, fill), true),
            PlaybackState::PlayingFill(_, fill) => (PlaybackState::PlayingFill(beat, fill), true),
        },
        None => (st, false),
    }
}

/// How one fill-sequence event value moves the playback state: a start
/// while a fill is queued begins playing it; a finish while a fill plays
/// returns to the loop on the current beat; anything else changes nothing.
pub open spec fn after_fill_event(st: PlaybackState, v: u64) -> (PlaybackState, bool) {
    match DrumFillEvent::spec_from_event_value(v) {
        Some(DrumFillEvent::Start) => match st {
            PlaybackState::QueueingFill(beat, fill) => (
                PlaybackState::PlayingFill(beat, fill),
                true,
            ),
            _ => (st, false),
        },
        Some(DrumFillEvent::Finish) => match st {
            PlaybackState::PlayingFill(beat, _) => (PlaybackState::PlayingLoop(beat), true),
            _ => (st, false),
        },
        None => (st, false),
    }
}

/// Folds [`after_beat_event`] over a queue's values, oldest first.
pub open spec fn fold_beat_events(st: PlaybackState, evts: Seq<u64>) -> (PlaybackState, bool)
    decreases evts.len(),
{
    if evts.len() == 0 {
        (st, false)
    } else {
        let head = after_beat_event(st, evts[0]);
        let rest = fold_beat_events(head.0, evts.skip(1));
        (rest.0, head.1 || rest.1)
    }
}

/// Folds [`after_fill_event`] over a queue's values, oldest first.
pub open spec fn fold_fill_events(st: PlaybackState, evts: Seq<u64>) -> (PlaybackState, bool)
    decreases evts.len(),
{
    if evts.len() == 0 {
        (st, false)
    } else {
        let head = after_fill_event(st, evts[0]);
        let rest = fold_fill_events(head.0, evts.skip(1));
        (rest.0, head.1 || rest.1)
    }
}

/// The sound references the drum-fill machine plays.
#[derive(Clone, Copy, Debug, PartialEq, Eq, Structural)]
pub struct DrumSounds {
    pub loop_sound: u64,
    pub fill_two: u64,
    pub fill_three: u64,
    pub fill_four: u64,
}

impl DrumSounds {
    /// The sound for a fill kind.
    pub fn fill_sound(self, fill: DrumFill) -> (s: u64)
        ensures
            s == self.spec_fill_sound(fill),
    {
        match fill {
            DrumFill::TwoBeat => self.fill_two,
            DrumFill::ThreeBeat => self.fill_three,
            DrumFill::FourBeat => self.fill_four,
        }
    }

    pub open spec fn spec_fill_sound(self, fill: DrumFill) -> u64 {
        match fill {
            DrumFill::TwoBeat => self.fill_two,
            DrumFill::ThreeBeat => self.fill_three,
            DrumFill::FourBeat => self.fill_four,
        }
    }
}

/// The steps of the beat tracker: align to the next beat, then forever emit
/// the four beats, one beat apart.
pub open spec fn beat_tracker_steps() -> Seq<Step> {
    seq![
        Step::WaitForInterval(MILLIBEATS_PER_BEAT),
        Step::EmitEvent(Beat::One.spec_event_value()),
        Step::WaitBeats(MILLIBEATS_PER_BEAT),
        Step::EmitEvent(Beat::Two.spec_event_value()),
        Step::WaitBeats(MILLIBEATS_PER_BEAT),
        Step::EmitEvent(Beat::Three.spec_event_value()),
        Step::WaitBeats(MILLIBEATS_PER_BEAT),
        Step::EmitEvent(Beat::Four.spec_event_value()),
        Step::WaitBeats(MILLIBEATS_PER_BEAT),
    ]
}

/// Builds the beat-tracker program: loop point just after the initial
/// interval alignment, so every later iteration starts straight at the
/// first beat's emission.
pub fn beat_tracker_program() -> (p: Program)
    ensures
        p.valid(),
        p.steps() == beat_tracker_steps(),
        p.loop_point() == Some(1int),
{
    let mut b = SequenceBuilder::new();
    b.wait_for_interval(MILLIBEATS_PER_BEAT);
    b.start_loop();
    b.emit(Beat::One.event_value());
    b.wait(MILLIBEATS_PER_BEAT);
    b.emit(Beat::Two.event_value());
    b.wait(MILLIBEATS_PER_BEAT);
    b.emit(Beat::Three.event_value());
    b.wait(MILLIBEATS_PER_BEAT);
    b.emit(Beat::Four.event_value());
    b.wait(MILLIBEATS_PER_BEAT);
    proof {
        assert(b.recorded() =~= beat_tracker_steps());
        assert(wait_sum(b.recorded(), 1) >= 1) by {
            reveal_with_fuel(wait_sum, 10);
        }
    }
    match b.build() {
        Ok(p) => p,
        Err(_) => vstd::pervasive::unreached(),
    }
}

/// The steps of the drum-loop sequence: align to the next beat, then play
/// the loop sound every four beats.
pub open spec fn loop_steps(loop_sound: u64) -> Seq<Step> {
    seq![
        Step::WaitForInterval(MILLIBEATS_PER_BEAT),
        Step::PlaySound(loop_sound, PlaySettings { volume: crate::program::DynamicValue::Constant(1000) }),
        Step::WaitBeats(BAR_MILLIBEATS),
    ]
}

/// Builds the drum-loop program.
pub fn loop_program(loop_sound: u64) -> (p: Program)
    ensures
        p.valid(),
        p.steps() == loop_steps(loop_sound),
        p.loop_point() == Some(1int),
{
    let mut b = SequenceBuilder::new();
    b.wait_for_interval(MILLIBEATS_PER_BEAT);
    b.start_loop();
    b.play(loop_sound, PlaySettings::plain());
    b.wait(BAR_MILLIBEATS);
    proof {
        assert(b.recorded() =~= loop_steps(loop_sound));
        assert(wait_sum(b.recorded(), 1) >= 1) by {
            reveal_with_fuel(wait_sum, 4);
        }
    }
    match b.build() {
        Ok(p) => p,
        Err(_) => vstd::pervasive::unreached(),
    }
}

/// The steps of a fill-and-loop sequence: wait for the fill's start
/// interval, announce the start, stop the superseded loop, play the fill,
/// wait for the next bar, announce the finish, and loop the drum loop.
pub open spec fn fill_steps(fill: DrumFill, previous: InstanceHandle, sounds: DrumSounds) -> Seq<
    Step,
> {
    seq![
        Step::WaitForInterval(fill.spec_start_interval()),
        Step::EmitEvent(DrumFillEvent::Start.spec_event_value()),
        Step::StopInstance(previous, 0),
        Step::PlaySound(sounds.spec_fill_sound(fill), PlaySettings { volume: crate::program::DynamicValue::Constant(1000) }),
        Step::WaitForInterval(BAR_MILLIBEATS),
        Step::EmitEvent(DrumFillEvent::Finish.spec_event_value()),
        Step::PlaySound(sounds.loop_sound, PlaySettings { volume: crate::program::DynamicValue::Constant(1000) }),
        Step::WaitBeats(BAR_MILLIBEATS),
    ]
}

/// Builds a fill-and-loop program that supersedes the loop behind
/// `previous`.
pub fn fill_program(fill: DrumFill, previous: InstanceHandle, sounds: DrumSounds) -> (p: Program)
    ensures
        p.valid(),
        p.steps() == fill_steps(fill, previous, sounds),
        p.loop_point() == Some(6int),
{
    let mut b = SequenceBuilder::new();
    b.wait_for_interval(fill.start_interval());
    b.emit(DrumFillEvent::Start.event_value());
    b.stop_other(previous, 0);
    b.play(sounds.fill_sound(fill), PlaySettings::plain());
    b.wait_for_interval(BAR_MILLIBEATS);
    b.emit(DrumFillEvent::Finish.event_value());
    b.start_loop();
    b.play(sounds.loop_sound, PlaySettings::plain());
    b.wait(BAR_MILLIBEATS);
    proof {
        assert(b.recorded() =~= fill_steps(fill, previous, sounds));
        assert(wait_sum(b.recorded(), 6) >= 1) by {
            reveal_with_fuel(wait_sum, 4);
        }
        assert(fill.spec_start_interval() >= 1);
    }
    match b.build() {
        Ok(p) => p,
        Err(_) => vstd::pervasive::unreached(),
    }
}

} // verus!

verus! {

/// Executes one beat-tracker event value against the playback state;
/// matches [`after_beat_event`] exactly.
pub fn apply_beat_event(st: PlaybackState, v: u64) -> (r: (PlaybackState, bool))
    ensures
        r == after_beat_event(st, v),
{
    match Beat::from_event_value(v) {
        Some(beat) => match st {
            PlaybackState::Stopped => (st, false),
            PlaybackState::PlayingLoop(_) => (PlaybackState::PlayingLoop(beat), true),
            PlaybackState::QueueingFill(_, fill) => (
                PlaybackState::QueueingFill(beat, fill),
                true,
            ),
            PlaybackState::PlayingFill(_, fill) => (PlaybackState::PlayingFill(beat, fill), true),
        },
        None => (st, false),
    }
}

/// Executes one fill-sequence event value against the playback state;
/// matches [`after_fill_event`] exactly.
pub fn apply_fill_event(st: PlaybackState, v: u64) -> (r: (PlaybackState, bool))
    ensures
        r == after_fill_event(st, v),
{
    match DrumFillEvent::from_event_value(v) {
        Some(DrumFillEvent::Start) => match st {
            PlaybackState::QueueingFill(beat, fill) => (
                PlaybackState::PlayingFill(beat, fill),
                true,
            ),
            _ => (st, false),
        },
        Some(DrumFillEvent::Finish) => match st {
            PlaybackState::PlayingFill(beat, _) => (PlaybackState::PlayingLoop(beat), true),
            _ => (st, false),
        },
        None => (st, false),
    }
}

/// The event values queued behind an optional handle: empty when there is
/// no handle or it no longer resolves.
pub open spec fn queued(e: Engine, oh: Option<InstanceHandle>) -> Seq<u64> {
    match oh {
        Some(h) => if e.live(h) {
            e.inst(h).events()
        } else {
            Seq::empty()
        },
        None => Seq::empty(),
    }
}

/// The drum-fill machine: one engine, the beat-tracker and loop/fill
/// sequence handles, and the playback state the host displays.  It mirrors
/// a host's three inputs — play/stop, fill request, and the event poll —
/// as verified transitions.
pub struct DrumFillMachine {
    engine: Engine,
    beat_tracker: Option<InstanceHandle>,
    loop_sequence: Option<InstanceHandle>,
    playback_state: PlaybackState,
    sounds: DrumSounds,
}

impl DrumFillMachine {
    /// The engine this machine drives.
    pub closed spec fn engine(&self) -> Engine {
        self.engine
    }

    /// The handle of the beat-tracker sequence, while playback runs.
    pub closed spec fn beat_tracker(&self) -> Option<InstanceHandle> {
        self.beat_tracker
    }

    /// The handle of the current loop or fill-and-loop sequence.
    pub closed spec fn loop_sequence(&self) -> Option<InstanceHandle> {
        self.loop_sequence
    }

    /// The derived playback state.
    pub closed spec fn state(&self) -> PlaybackState {
        self.playback_state
    }

    /// The sound references in use.
    pub closed spec fn sounds(&self) -> DrumSounds {
        self.sounds
    }

    pub open spec fn wf(&self) -> bool {
        &&& self.engine().wf()
        &&& (self.state() is Stopped <==> self.beat_tracker() is None)
        &&& (self.state() is Stopped <==> self.loop_sequence() is None)
        &&& (self.beat_tracker() is Some && self.loop_sequence() is Some
            ==> self.beat_tracker().unwrap() != self.loop_sequence().unwrap())
    }

    /// A stopped machine at the given tempo (milli-beats-per-minute,
    /// positive), over the given sounds.
    pub fn new(tempo_mbpm: u64, sounds: DrumSounds) -> (m: DrumFillMachine)
        requires
            tempo_mbpm >= 1,
        ensures
            m.wf(),
            m.state() == PlaybackState::Stopped,
            m.sounds() == sounds,
            !m.engine().clock().running(),
            m.engine().clock().tempo_mbpm() == tempo_mbpm as int,
    {
        DrumFillMachine {
            engine: Engine::new(tempo_mbpm),
            beat_tracker: None,
            loop_sequence: None,
            playback_state: PlaybackState::Stopped,
            sounds,
        }
    }

    /// The clock's accumulated time units, for guarding a tick against
    /// overflow.
    pub fn clock_units(&self) -> (u: u64)
        ensures
            u as int == self.engine().clock().units(),
    {
        self.engine.clock_units()
    }

    /// The clock's tempo in milli-beats-per-minute.
    pub fn tempo(&self) -> (t: u64)
        ensures
            t as int == self.engine().clock().tempo_mbpm(),
    {
        self.engine.tempo()
    }

    /// The playback state on display.
    pub fn current_state(&self) -> (st: PlaybackState)
        ensures
            st == self.state(),
    {
        self.playback_state
    }

    /// The play/stop input.  While stopped, this starts the beat tracker
    /// and the drum loop on a freshly started clock and shows the first
    /// beat; otherwise it stops everything: all instances are removed and
    /// the clock resets to beat zero.
    pub fn play_click(&mut self)
        requires
            old(self).wf(),
        ensures
            final(self).wf(),
            final(self).sounds() == old(self).sounds(),
            old(self).state() is Stopped ==> {
                &&& final(self).state() == PlaybackState::PlayingLoop(Beat::One)
                &&& final(self).engine().clock().running()
                &&& final(self).beat_tracker() is Some
                &&& final(self).loop_sequence() is Some
                &&& final(self).engine().live(final(self).beat_tracker().unwrap())
                &&& final(self).engine().live(final(self).loop_sequence().unwrap())
                &&& final(self).engine().inst(
                    final(self).beat_tracker().unwrap(),
                ).program().steps() == beat_tracker_steps()
                &&& final(self).engine().inst(
                    final(self).loop_sequence().unwrap(),
                ).program().steps() == loop_steps(old(self).sounds().loop_sound)
            },
            !(old(self).state() is Stopped) ==> {
                &&& final(self).state() == PlaybackState::Stopped
                &&& !final(self).engine().clock().running()
                &&& final(self).engine().clock().units() == 0
                &&& forall|h: InstanceHandle| !(#[trigger] final(self).engine().live(h))
            },
    {
        match self.playback_state {
            PlaybackState::Stopped => {
                let tracker_program = beat_tracker_program();
                let tracker = self.engine.start_sequence(tracker_program, DRUM_EVENT_CAPACITY);
                let drums_program = loop_program(self.sounds.loop_sound);
                let drums = self.engine.start_sequence(drums_program, DRUM_EVENT_CAPACITY);
                self.beat_tracker = Some(tracker);
                self.loop_sequence = Some(drums);
                proof {
                    assert(tracker != drums);
                    assert(self.engine().live(tracker));
                    assert(self.engine().live(drums));
                    assert(self.engine().inst(tracker).program().steps()
                        == beat_tracker_steps());
                    assert(self.engine().inst(drums).program().steps() == loop_steps(
                        old(self).sounds().loop_sound,
                    ));
                }
                let ghost pre_start = self.engine;
                self.engine.start();
                self.playback_state = PlaybackState::PlayingLoop(Beat::One);
                proof {
                    assert(self.engine().registry() == pre_start.registry());
                    assert(self.engine().live(tracker) == pre_start.live(tracker));
                    assert(self.engine().live(drums) == pre_start.live(drums));
                    assert(self.engine().inst(tracker) == pre_start.inst(tracker));
                    assert(self.engine().inst(drums) == pre_start.inst(drums));
                }
            },
            _ => {
                self.engine.stop_all();
                self.playback_state = PlaybackState::Stopped;
                self.beat_tracker = None;
                self.loop_sequence = None;
            },
        }
    }

    /// The fill-request input.  While the loop plays, the fill for the
    /// current beat is chosen, a fill-and-loop sequence is started, and
    /// the superseded loop is stopped by that sequence, beat-accurately,
    /// when the fill begins.  In any other state this does nothing — as it
    /// does in the degenerate case that the beat tracker is already gone.
    pub fn play_fill_click(&mut self)
        requires
            old(self).wf(),
        ensures
            final(self).wf(),
            final(self).sounds() == old(self).sounds(),
            final(self).beat_tracker() == old(self).beat_tracker(),
            final(self).engine().clock() == old(self).engine().clock(),
            ({
                match old(self).state() {
                    PlaybackState::PlayingLoop(beat) => old(self).engine().live(
                        old(self).beat_tracker().unwrap(),
                    ) ==> {
                        &&& final(self).state() == PlaybackState::QueueingFill(
                            beat,
                            beat.spec_fill(),
                        )
                        &&& final(self).loop_sequence() is Some
                        &&& final(self).engine().live(final(self).loop_sequence().unwrap())
                        &&& final(self).engine().inst(
                            final(self).loop_sequence().unwrap(),
                        ).program().steps() == fill_steps(
                            beat.spec_fill(),
                            old(self).loop_sequence().unwrap(),
                            old(self).sounds(),
                        )
                        &&& final(self).engine().live(old(self).beat_tracker().unwrap())
                        &&& final(self).engine().inst(old(self).beat_tracker().unwrap())
                            == old(self).engine().inst(old(self).beat_tracker().unwrap())
                    },
                    _ => *final(self) == *old(self),
                }
            }),
    {
        match self.playback_state {
            PlaybackState::PlayingLoop(beat) => {
                let tracker = match self.beat_tracker {
                    Some(h) => h,
                    None => vstd::pervasive::unreached(),
                };
                let previous = match self.loop_sequence {
                    Some(h) => h,
                    None => vstd::pervasive::unreached(),
                };
                if !self.engine.is_live(tracker) {
                    return ;
                }
                let fill = beat.fill();
                let program = fill_program(fill, previous, self.sounds);
                let replacement = self.engine.start_sequence(program, DRUM_EVENT_CAPACITY);
                self.loop_sequence = Some(replacement);
                self.playback_state = PlaybackState::QueueingFill(beat, fill);
            },
            _ => {},
        }
    }

    /// Advances the clock by `delta_us` microseconds and settles both
    /// sequences (and any fill still fading in).  The returned actions are
    /// for the playback layer; the playback state only changes when the
    /// host next polls events.
    pub fn tick(&mut self, delta_us: u64) -> (out: Vec<Action>)
        requires
            old(self).wf(),
            old(self).engine().clock().units() + delta_us * old(
                self,
            ).engine().clock().tempo_mbpm() <= u64::MAX,
        ensures
            final(self).wf(),
            final(self).state() == old(self).state(),
            final(self).beat_tracker() == old(self).beat_tracker(),
            final(self).loop_sequence() == old(self).loop_sequence(),
            final(self).sounds() == old(self).sounds(),
            final(self).engine().clock().running() == old(self).engine().clock().running(),
            final(self).engine().clock().tempo_mbpm() == old(self).engine().clock().tempo_mbpm(),
            old(self).engine().clock().running() ==> final(self).engine().clock().units() == old(
                self,
            ).engine().clock().units() + delta_us * old(self).engine().clock().tempo_mbpm(),
            ({
                let now = final(self).engine().clock().spec_elapsed_millibeats() as u64;
                &&& forall|h: InstanceHandle|
                    #[trigger] final(self).engine().live(h) ==> old(self).engine().live(h)
                &&& forall|h: InstanceHandle|
                    #[trigger] final(self).engine().live(h) ==> old(self).engine().inst(
                        h,
                    ).ticked_to(final(self).engine().inst(h), now)
            }),
    {
        self.engine.tick(delta_us)
    }
}

} // verus!

verus! {

impl DrumFillMachine {
    /// The non-blocking event poll, at whatever cadence the host likes:
    /// drains the beat tracker's queue and then the loop sequence's, oldest
    /// first, folding each value through the pure transition functions.
    /// Returns whether anything on display changed.
    pub fn pop_events(&mut self) -> (render: bool)
        requires
            old(self).wf(),
        ensures
            final(self).wf(),
            final(self).engine().clock() == old(self).engine().clock(),
            final(self).beat_tracker() == old(self).beat_tracker(),
            final(self).loop_sequence() == old(self).loop_sequence(),
            final(self).sounds() == old(self).sounds(),
            forall|g: InstanceHandle|
                #[trigger] final(self).engine().live(g) == old(self).engine().live(g),
            ({
                let beat_values = queued(old(self).engine(), old(self).beat_tracker());
                let fill_values = queued(old(self).engine(), old(self).loop_sequence());
                let after_beats = fold_beat_events(old(self).state(), beat_values);
                let after_fills = fold_fill_events(after_beats.0, fill_values);
                &&& final(self).state() == after_fills.0
                &&& render == (after_beats.1 || after_fills.1)
            }),
            queued(final(self).engine(), final(self).beat_tracker()) == Seq::<u64>::empty(),
            queued(final(self).engine(), final(self).loop_sequence()) == Seq::<u64>::empty(),
    {
        let ghost beat_values = queued(old(self).engine(), old(self).beat_tracker());
        let ghost fill_values = queued(old(self).engine(), old(self).loop_sequence());
        let mut render = false;
        if let Some(tracker) = self.beat_tracker {
            loop
                invariant
                    self.wf(),
                    self.beat_tracker() == old(self).beat_tracker(),
                    self.beat_tracker() == Some(tracker),
                    self.loop_sequence() == old(self).loop_sequence(),
                    self.sounds() == old(self).sounds(),
                    self.engine().clock() == old(self).engine().clock(),
                    beat_values == queued(old(self).engine(), old(self).beat_tracker()),
                    forall|g: InstanceHandle|
                        #[trigger] self.engine().live(g) == old(self).engine().live(g),
                    forall|g: InstanceHandle|
                        g != tracker && old(self).engine().live(g) ==> #[trigger] self.engine().inst(
                            g,
                        ) == old(self).engine().inst(g),
                    ({
                        let rem = queued(self.engine(), Some(tracker));
                        let before = fold_beat_events(old(self).state(), beat_values);
                        let ahead = fold_beat_events(self.state(), rem);
                        &&& before.0 == ahead.0
                        &&& before.1 == (render || ahead.1)
                    }),
                ensures
                    queued(self.engine(), Some(tracker)) == Seq::<u64>::empty(),
                decreases queued(self.engine(), Some(tracker)).len(),
            {
                let popped = self.engine.pop_event(tracker);
                match popped {
                    Some(value) => {
                        let stepped = apply_beat_event(self.playback_state, value);
                        self.playback_state = stepped.0;
                        render = render || stepped.1;
                    },
                    None => {
                        break ;
                    },
                }
            }
        }
        let ghost midway = *self;
        if let Some(sequence) = self.loop_sequence {
            proof {
                assert(fill_values == queued(self.engine(), Some(sequence)));
            }
            loop
                invariant
                    self.wf(),
                    self.beat_tracker() == old(self).beat_tracker(),
                    self.loop_sequence() == old(self).loop_sequence(),
                    self.loop_sequence() == Some(sequence),
                    self.sounds() == old(self).sounds(),
                    self.engine().clock() == old(self).engine().clock(),
                    fill_values == queued(midway.engine(), Some(sequence)),
                    queued(self.engine(), self.beat_tracker()) == queued(
                        midway.engine(),
                        midway.beat_tracker(),
                    ),
                    forall|g: InstanceHandle|
                        #[trigger] self.engine().live(g) == midway.engine().live(g),
                    forall|g: InstanceHandle|
                        g != sequence && midway.engine().live(g) ==> #[trigger] self.engine().inst(
                            g,
                        ) == midway.engine().inst(g),
                    ({
                        let rem = queued(self.engine(), Some(sequence));
                        let phase1 = fold_beat_events(old(self).state(), beat_values);
                        let before = fold_fill_events(midway.state(), fill_values);
                        let ahead = fold_fill_events(self.state(), rem);
                        &&& before.0 == ahead.0
                        &&& (phase1.1 || before.1) == (render || ahead.1)
                    }),
                    midway.state() == fold_beat_events(old(self).state(), beat_values).0,
                ensures
                    queued(self.engine(), Some(sequence)) == Seq::<u64>::empty(),
                decreases queued(self.engine(), Some(sequence)).len(),
            {
                let popped = self.engine.pop_event(sequence);
                match popped {
                    Some(value) => {
                        let stepped = apply_fill_event(self.playback_state, value);
                        self.playback_state = stepped.0;
                        render = render || stepped.1;
                    },
                    None => {
                        break ;
                    },
                }
            }
        }
        render
    }
}

} // verus!
