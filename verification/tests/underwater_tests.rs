use tempo_sequencer::program::Action;
use tempo_sequencer::program::DynamicValue;
use tempo_sequencer::program::ParameterMapping;
use tempo_sequencer::program::PlaySettings;
use tempo_sequencer::underwater::ParameterCommand;
use tempo_sequencer::underwater::UnderwaterMachine;
use tempo_sequencer::underwater::UnderwaterSounds;

const BASS: u64 = 1;
const PAD: u64 = 2;
const LEAD: u64 = 3;
const DRUMS: u64 = 4;
const PARAMETER: u64 = 7;

fn machine() -> UnderwaterMachine {
    UnderwaterMachine::new(
        85_000,
        UnderwaterSounds { bass: BASS, pad: PAD, lead: LEAD, drums: DRUMS },
        PARAMETER,
    )
}

#[test]
fn starting_playback_requests_all_four_stems_with_their_mappings() {
    let mut m = machine();
    assert!(!m.is_playing());
    let fade = m.toggle_play();
    assert_eq!(fade, None);
    assert!(m.is_playing());

    let actions = m.tick(0);
    assert_eq!(
        actions,
        vec![
            Action::Play(
                DRUMS,
                PlaySettings {
                    volume: DynamicValue::Parameter(
                        PARAMETER,
                        ParameterMapping {
                            input_min: 0,
                            input_max: 1000,
                            output_min: 1000,
                            output_max: 0,
                        },
                    ),
                },
            ),
            Action::Play(BASS, PlaySettings::plain()),
            Action::Play(
                PAD,
                PlaySettings {
                    volume: DynamicValue::Parameter(
                        PARAMETER,
                        ParameterMapping {
                            input_min: 0,
                            input_max: 1000,
                            output_min: 0,
                            output_max: 1000,
                        },
                    ),
                },
            ),
            Action::Play(LEAD, PlaySettings::plain()),
        ]
    );
}

#[test]
fn stopping_playback_returns_the_fade() {
    let mut m = machine();
    m.toggle_play();
    m.tick(0);
    let fade = m.toggle_play();
    assert!(matches!(fade, Some(Action::Stop(_, 1000))));
    assert!(!m.is_playing());
}

#[test]
fn submerging_and_resurfacing_move_the_parameter() {
    let mut m = machine();
    assert!(!m.is_underwater());

    let cmd = m.toggle_submerge();
    assert_eq!(
        cmd,
        ParameterCommand { parameter: PARAMETER, target: 1000, tween_ms: 4000 }
    );
    assert!(m.is_underwater());

    let cmd = m.toggle_submerge();
    assert_eq!(
        cmd,
        ParameterCommand { parameter: PARAMETER, target: 0, tween_ms: 4000 }
    );
    assert!(!m.is_underwater());
}

#[test]
fn submerge_is_independent_of_playback() {
    let mut m = machine();
    let cmd = m.toggle_submerge();
    assert_eq!(cmd.target, 1000);
    m.toggle_play();
    assert!(m.is_playing());
    assert!(m.is_underwater());
}
