use tempo_sequencer::drum_fill::Beat;
use tempo_sequencer::drum_fill::DrumFill;
use tempo_sequencer::drum_fill::DrumFillEvent;
use tempo_sequencer::drum_fill::DrumFillMachine;
use tempo_sequencer::drum_fill::DrumSounds;
use tempo_sequencer::drum_fill::PlaybackState;
use tempo_sequencer::program::Action;

const LOOP_SOUND: u64 = 100;
const FILL_2B: u64 = 102;
const FILL_3B: u64 = 103;
const FILL_4B: u64 = 104;

fn sounds() -> DrumSounds {
    DrumSounds { loop_sound: LOOP_SOUND, fill_two: FILL_2B, fill_three: FILL_3B, fill_four: FILL_4B }
}

// One beat at 128 beats per minute, in microseconds.
const BEAT_US: u64 = 468_750;

#[test]
fn fill_lookup_is_fixed_per_beat() {
    assert_eq!(Beat::One.fill(), DrumFill::ThreeBeat);
    assert_eq!(Beat::Two.fill(), DrumFill::TwoBeat);
    assert_eq!(Beat::Three.fill(), DrumFill::FourBeat);
    assert_eq!(Beat::Four.fill(), DrumFill::FourBeat);
}

#[test]
fn fill_lengths_and_start_intervals() {
    assert_eq!(DrumFill::TwoBeat.length(), 2);
    assert_eq!(DrumFill::ThreeBeat.length(), 3);
    assert_eq!(DrumFill::FourBeat.length(), 4);
    assert_eq!(DrumFill::TwoBeat.start_interval(), 1000);
    assert_eq!(DrumFill::ThreeBeat.start_interval(), 1000);
    assert_eq!(DrumFill::FourBeat.start_interval(), 4000);
}

#[test]
fn beats_have_positions_and_round_tripping_event_values() {
    assert_eq!(Beat::One.as_usize(), 0);
    assert_eq!(Beat::Two.as_usize(), 1);
    assert_eq!(Beat::Three.as_usize(), 2);
    assert_eq!(Beat::Four.as_usize(), 3);
    for b in [Beat::One, Beat::Two, Beat::Three, Beat::Four] {
        assert_eq!(Beat::from_event_value(b.event_value()), Some(b));
    }
    assert_eq!(Beat::from_event_value(0), None);
    assert_eq!(Beat::from_event_value(5), None);
    for e in [DrumFillEvent::Start, DrumFillEvent::Finish] {
        assert_eq!(DrumFillEvent::from_event_value(e.event_value()), Some(e));
    }
    assert_eq!(DrumFillEvent::from_event_value(3), None);
}

#[test]
fn playback_state_labels() {
    assert_eq!(PlaybackState::Stopped.to_string(), "Stopped");
    assert_eq!(PlaybackState::PlayingLoop(Beat::One).to_string(), "Looping");
    assert_eq!(
        PlaybackState::QueueingFill(Beat::Two, DrumFill::TwoBeat).to_string(),
        "Queueing 2-beat drum fill"
    );
    assert_eq!(
        PlaybackState::PlayingFill(Beat::Four, DrumFill::ThreeBeat).to_string(),
        "Playing 3-beat drum fill"
    );
    assert_eq!(
        PlaybackState::QueueingFill(Beat::One, DrumFill::FourBeat).to_string(),
        "Queueing 4-beat drum fill"
    );
}

#[test]
fn current_beat_tracks_every_running_state() {
    assert_eq!(PlaybackState::Stopped.current_beat(), None);
    assert_eq!(PlaybackState::PlayingLoop(Beat::Three).current_beat(), Some(Beat::Three));
    assert_eq!(
        PlaybackState::QueueingFill(Beat::Two, DrumFill::TwoBeat).current_beat(),
        Some(Beat::Two)
    );
    assert_eq!(
        PlaybackState::PlayingFill(Beat::Four, DrumFill::FourBeat).current_beat(),
        Some(Beat::Four)
    );
}

#[test]
fn beats_arrive_in_order_exactly_one_beat_apart() {
    let mut m = DrumFillMachine::new(128_000, sounds());
    m.play_click();
    assert_eq!(m.current_state(), PlaybackState::PlayingLoop(Beat::One));

    // Beat one arrives at beat zero, with the loop's play request.
    let actions = m.tick(0);
    assert_eq!(actions, vec![Action::Play(LOOP_SOUND, tempo_sequencer::program::PlaySettings::plain())]);
    assert!(m.pop_events());
    assert_eq!(m.current_state(), PlaybackState::PlayingLoop(Beat::One));

    // A hair before the next beat: nothing.
    m.tick(BEAT_US - 1);
    assert!(!m.pop_events());
    assert_eq!(m.current_state(), PlaybackState::PlayingLoop(Beat::One));

    // On the beat: the next beat value, and so on, cyclically.
    m.tick(1);
    assert!(m.pop_events());
    assert_eq!(m.current_state(), PlaybackState::PlayingLoop(Beat::Two));
    m.tick(BEAT_US);
    m.pop_events();
    assert_eq!(m.current_state(), PlaybackState::PlayingLoop(Beat::Three));
    m.tick(BEAT_US);
    m.pop_events();
    assert_eq!(m.current_state(), PlaybackState::PlayingLoop(Beat::Four));
    m.tick(BEAT_US);
    m.pop_events();
    assert_eq!(m.current_state(), PlaybackState::PlayingLoop(Beat::One));
}

#[test]
fn drum_fill_scenario_end_to_end() {
    let mut m = DrumFillMachine::new(128_000, sounds());
    m.play_click();

    // Reach the second beat of the bar.
    m.tick(0);
    m.pop_events();
    m.tick(BEAT_US);
    m.pop_events();
    assert_eq!(m.current_state(), PlaybackState::PlayingLoop(Beat::Two));

    // Request the fill: on beat two that is the two-beat fill.
    m.play_fill_click();
    assert_eq!(
        m.current_state(),
        PlaybackState::QueueingFill(Beat::Two, DrumFill::TwoBeat)
    );

    // Half a beat on, the fill's start interval is reached: the old loop
    // is stopped, the fill sound starts, and the start event arrives.
    let actions = m.tick(BEAT_US / 2);
    assert_eq!(actions.len(), 2);
    assert!(matches!(actions[0], Action::Stop(_, 0)));
    assert!(matches!(actions[1], Action::Play(FILL_2B, _)));
    assert!(m.pop_events());
    assert_eq!(
        m.current_state(),
        PlaybackState::PlayingFill(Beat::Two, DrumFill::TwoBeat)
    );

    // The beat display keeps tracking beats while the fill plays.
    m.tick(BEAT_US / 2);
    m.pop_events();
    assert_eq!(
        m.current_state(),
        PlaybackState::PlayingFill(Beat::Three, DrumFill::TwoBeat)
    );

    // At the next bar the fill finishes and the loop resumes.
    let actions = m.tick(2 * BEAT_US);
    assert!(actions.contains(&Action::Play(LOOP_SOUND, tempo_sequencer::program::PlaySettings::plain())));
    assert!(m.pop_events());
    assert_eq!(m.current_state(), PlaybackState::PlayingLoop(Beat::One));
}

#[test]
fn fill_on_a_late_beat_is_the_four_beat_fill() {
    let mut m = DrumFillMachine::new(128_000, sounds());
    m.play_click();
    m.tick(0);
    m.tick(BEAT_US);
    m.tick(BEAT_US);
    m.pop_events();
    assert_eq!(m.current_state(), PlaybackState::PlayingLoop(Beat::Three));

    m.play_fill_click();
    assert_eq!(
        m.current_state(),
        PlaybackState::QueueingFill(Beat::Three, DrumFill::FourBeat)
    );

    // The four-beat fill waits for the next bar boundary.
    let actions = m.tick(BEAT_US);
    assert_eq!(actions.len(), 0);
    m.pop_events();
    assert_eq!(
        m.current_state(),
        PlaybackState::QueueingFill(Beat::Four, DrumFill::FourBeat)
    );
    let actions = m.tick(BEAT_US);
    assert!(actions.iter().any(|a| matches!(a, Action::Play(FILL_4B, _))));
    m.pop_events();
    // The four-beat fill starts on the bar boundary, and its finish
    // interval is the bar as well: start and finish both land on this
    // boundary, so the state passes through the fill and back to the loop
    // within one poll, on beat one of the new bar.
    assert_eq!(m.current_state(), PlaybackState::PlayingLoop(Beat::One));
}

#[test]
fn stopping_playback_clears_everything() {
    let mut m = DrumFillMachine::new(128_000, sounds());
    m.play_click();
    m.tick(0);
    m.tick(BEAT_US);

    // The second click stops engine-wide playback.
    m.play_click();
    assert_eq!(m.current_state(), PlaybackState::Stopped);

    // Draining events afterwards yields nothing at all.
    assert!(!m.pop_events());
    assert_eq!(m.current_state(), PlaybackState::Stopped);

    // A fill request while stopped does nothing.
    m.play_fill_click();
    assert_eq!(m.current_state(), PlaybackState::Stopped);
}

#[test]
fn playback_restarts_cleanly_from_beat_one() {
    let mut m = DrumFillMachine::new(128_000, sounds());
    m.play_click();
    m.tick(0);
    m.tick(3 * BEAT_US);
    m.pop_events();
    m.play_click();
    assert_eq!(m.current_state(), PlaybackState::Stopped);

    m.play_click();
    assert_eq!(m.current_state(), PlaybackState::PlayingLoop(Beat::One));
    m.tick(0);
    assert!(m.pop_events());
    assert_eq!(m.current_state(), PlaybackState::PlayingLoop(Beat::One));
}
