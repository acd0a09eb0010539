use tempo_sequencer::instance::Instance;
use tempo_sequencer::program::Action;
use tempo_sequencer::program::PlaySettings;
use tempo_sequencer::program::Program;
use tempo_sequencer::program::SequenceBuilder;

fn wait_then_emit(wait_mb: u64, value: u64) -> Program {
    let mut b = SequenceBuilder::new();
    b.wait(wait_mb);
    b.emit(value);
    b.build().unwrap()
}

fn interval_then_emit(interval_mb: u64, value: u64) -> Program {
    let mut b = SequenceBuilder::new();
    b.wait_for_interval(interval_mb);
    b.emit(value);
    b.build().unwrap()
}

#[test]
fn wait_beats_never_fires_early() {
    let mut inst = Instance::new(wait_then_emit(1000, 7), 0, 8);
    inst.tick(999);
    assert_eq!(inst.event_count(), 0);
    assert!(!inst.is_terminated());
}

#[test]
fn wait_beats_fires_when_target_is_crossed() {
    let mut inst = Instance::new(wait_then_emit(1000, 7), 0, 8);
    inst.tick(999);
    inst.tick(1000);
    assert_eq!(inst.pop_event(), Some(7));
    assert!(inst.is_terminated());
}

#[test]
fn wait_beats_is_relative_to_the_start_offset() {
    let mut inst = Instance::new(wait_then_emit(1000, 7), 500, 8);
    inst.tick(1499);
    assert_eq!(inst.event_count(), 0);
    inst.tick(1500);
    assert_eq!(inst.pop_event(), Some(7));
}

#[test]
fn interval_wait_fires_on_a_clock_multiple_not_the_start_time() {
    // Two instances of the same one-beat-interval program, started at
    // different clock positions, both fire on exact beat multiples.
    let mut early = Instance::new(interval_then_emit(1000, 5), 0, 8);
    let mut late = Instance::new(interval_then_emit(1000, 5), 700, 8);

    early.tick(0);
    assert_eq!(early.pop_event(), Some(5));

    late.tick(999);
    assert_eq!(late.event_count(), 0);
    late.tick(1000);
    assert_eq!(late.pop_event(), Some(5));
}

#[test]
fn a_stalled_tick_drains_every_due_step_in_program_order() {
    let mut b = SequenceBuilder::new();
    b.emit(1);
    b.wait(1000);
    b.emit(2);
    b.wait(1000);
    b.emit(3);
    let mut inst = Instance::new(b.build().unwrap(), 0, 8);
    inst.tick(1_000_000);
    assert_eq!(inst.event_count(), 3);
    assert_eq!(inst.pop_event(), Some(1));
    assert_eq!(inst.pop_event(), Some(2));
    assert_eq!(inst.pop_event(), Some(3));
    assert!(inst.is_terminated());
}

#[test]
fn looping_emits_once_per_beat_with_no_drift() {
    // Align to the next beat, then emit the beat number every beat.
    let mut b = SequenceBuilder::new();
    b.wait_for_interval(1000);
    b.start_loop();
    b.emit(1);
    b.wait(1000);
    b.emit(2);
    b.wait(1000);
    b.emit(3);
    b.wait(1000);
    b.emit(4);
    b.wait(1000);
    let program = b.build().unwrap();

    // Ten and a half beats in one stalled tick: eleven emissions, at beats
    // zero through ten, cycling one to four.
    let mut inst = Instance::new(program, 0, 64);
    inst.tick(10_500);
    let mut got = Vec::new();
    while let Some(v) = inst.pop_event() {
        got.push(v);
    }
    assert_eq!(got, vec![1, 2, 3, 4, 1, 2, 3, 4, 1, 2, 3]);
}

#[test]
fn tick_granularity_does_not_change_the_outcome() {
    let mut b = SequenceBuilder::new();
    b.wait_for_interval(1000);
    b.start_loop();
    b.emit(1);
    b.wait(1000);
    b.emit(2);
    b.wait(1000);
    b.emit(3);
    b.wait(1000);
    b.emit(4);
    b.wait(1000);
    let program = b.build().unwrap();

    let mut coarse = Instance::new(program, 0, 64);
    coarse.tick(10_101);

    let mut b2 = SequenceBuilder::new();
    b2.wait_for_interval(1000);
    b2.start_loop();
    b2.emit(1);
    b2.wait(1000);
    b2.emit(2);
    b2.wait(1000);
    b2.emit(3);
    b2.wait(1000);
    b2.emit(4);
    b2.wait(1000);
    let program2 = b2.build().unwrap();

    let mut fine = Instance::new(program2, 0, 64);
    let mut now: u64 = 0;
    while now < 10_101 {
        now += 777;
        if now > 10_101 {
            now = 10_101;
        }
        fine.tick(now);
    }

    let mut coarse_events = Vec::new();
    while let Some(v) = coarse.pop_event() {
        coarse_events.push(v);
    }
    let mut fine_events = Vec::new();
    while let Some(v) = fine.pop_event() {
        fine_events.push(v);
    }
    assert_eq!(coarse_events, fine_events);
}

#[test]
fn loop_iterations_stay_phase_aligned_over_many_passes() {
    // One emission per four-beat loop pass.  Ticking beat by beat, a new
    // emission appears exactly on the beats that are multiples of four —
    // the same bar phase on the fifth pass as on the first, no drift.
    let mut b = SequenceBuilder::new();
    b.wait_for_interval(1000);
    b.start_loop();
    b.emit(9);
    b.wait(4000);
    let mut inst = Instance::new(b.build().unwrap(), 0, 64);

    let mut total = 0u64;
    for beat in 0..21u64 {
        inst.tick(beat * 1000);
        while inst.pop_event().is_some() {
            total += 1;
        }
        assert_eq!(total, beat / 4 + 1);
    }
    assert_eq!(total, 6);
}

#[test]
fn play_and_stop_steps_come_back_as_actions_in_order() {
    let mut b = SequenceBuilder::new();
    b.play(11, PlaySettings::plain());
    b.emit(1);
    b.play(22, PlaySettings::plain());
    let mut inst = Instance::new(b.build().unwrap(), 0, 8);
    let actions = inst.tick(0);
    assert_eq!(actions.len(), 2);
    assert!(matches!(actions[0], Action::Play(11, _)));
    assert!(matches!(actions[1], Action::Play(22, _)));
    assert_eq!(inst.pop_event(), Some(1));
}

#[test]
fn terminated_instance_ignores_further_ticks_but_drains_its_queue() {
    let mut inst = Instance::new(wait_then_emit(100, 8), 0, 8);
    inst.tick(100);
    assert!(inst.is_terminated());
    inst.tick(10_000);
    assert_eq!(inst.event_count(), 1);
    assert_eq!(inst.pop_event(), Some(8));
    assert_eq!(inst.pop_event(), None);
}

#[test]
fn time_never_moves_backwards() {
    let mut inst = Instance::new(wait_then_emit(1000, 7), 0, 8);
    inst.tick(2000);
    // An out-of-order smaller beat count neither un-fires nor re-fires.
    inst.tick(500);
    assert_eq!(inst.event_count(), 1);
    assert_eq!(inst.pop_event(), Some(7));
}

#[test]
fn queue_overflow_drops_oldest_events() {
    let mut b = SequenceBuilder::new();
    b.start_loop();
    b.emit(1);
    b.wait(1000);
    let mut inst = Instance::new(b.build().unwrap(), 0, 2);
    inst.tick(5_000);
    // Six emissions into a two-slot queue: only the two newest remain.
    assert_eq!(inst.event_count(), 2);
    assert_eq!(inst.overflow_count(), 4);
}
