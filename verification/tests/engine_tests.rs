use tempo_sequencer::engine::Engine;
use tempo_sequencer::handle::InstanceHandle;
use tempo_sequencer::program::Action;
use tempo_sequencer::program::Program;
use tempo_sequencer::program::SequenceBuilder;

fn emitter(value: u64) -> Program {
    let mut b = SequenceBuilder::new();
    b.emit(value);
    b.wait(1000);
    b.emit(value + 1);
    b.build().unwrap()
}

#[test]
fn stopping_a_missing_instance_is_a_benign_no_op() {
    let mut e = Engine::new(120_000);
    let stale = InstanceHandle { index: 0, generation: 0 };
    // Nothing registered: not an error, just "nothing was there".
    assert!(!e.stop_instance(stale));

    let h = e.start_sequence(emitter(1), 8);
    assert!(e.stop_instance(h));
    // Stopping the same instance again is a no-op reporting "not found".
    assert!(!e.stop_instance(h));
    assert!(!e.is_live(h));
}

#[test]
fn a_stop_step_against_a_finished_instance_is_silent() {
    let mut e = Engine::new(120_000);
    e.start();
    let victim = e.start_sequence(emitter(1), 8);
    assert!(e.stop_instance(victim));

    // A sequence that stops the now-gone instance and then carries on.
    let mut b = SequenceBuilder::new();
    b.stop_other(victim, 0);
    b.emit(9);
    let h = e.start_sequence(b.build().unwrap(), 8);
    let actions = e.tick(0);
    assert_eq!(actions.len(), 1);
    assert!(matches!(actions[0], Action::Stop(_, 0)));
    assert_eq!(e.pop_event(h), Some(9));
}

#[test]
fn one_sequence_stops_another_within_the_same_pass() {
    let mut e = Engine::new(120_000);
    e.start();
    let victim = e.start_sequence(emitter(1), 8);
    let mut b = SequenceBuilder::new();
    b.stop_other(victim, 500);
    let _assassin = e.start_sequence(b.build().unwrap(), 8);

    assert!(e.is_live(victim));
    let actions = e.tick(0);
    assert!(actions.contains(&Action::Stop(victim, 500)));
    assert!(!e.is_live(victim));
}

#[test]
fn stop_all_removes_every_instance_and_their_events() {
    let mut e = Engine::new(120_000);
    e.start();
    let a = e.start_sequence(emitter(1), 8);
    let b = e.start_sequence(emitter(10), 8);
    e.tick(0);
    assert!(e.is_live(a) && e.is_live(b));

    e.stop_all();
    assert!(!e.is_live(a));
    assert!(!e.is_live(b));
    // Draining the queues afterwards yields nothing.
    assert_eq!(e.pop_event(a), None);
    assert_eq!(e.pop_event(b), None);
    assert_eq!(e.elapsed_millibeats(), 0);
}

#[test]
fn retired_handles_never_alias_a_reused_slot() {
    let mut e = Engine::new(120_000);
    let first = e.start_sequence(emitter(1), 8);
    e.stop_instance(first);
    let second = e.start_sequence(emitter(50), 8);
    // The slot may be reused, but the retired handle resolves to nothing.
    assert_ne!(first, second);
    assert!(!e.is_live(first));
    assert!(e.is_live(second));
    e.tick(0);
    assert_eq!(e.pop_event(first), None);
    assert_eq!(e.pop_event(second), Some(50));
}

#[test]
fn finished_instances_are_collected_once_drained() {
    let mut e = Engine::new(120_000);
    e.start();
    let h = e.start_sequence(emitter(3), 8);
    e.tick(500_000);
    // Terminated, but its events are still there to drain.
    assert!(e.is_live(h));
    assert_eq!(e.pop_event(h), Some(3));
    assert_eq!(e.pop_event(h), Some(4));
    assert_eq!(e.pop_event(h), None);
    // The next pass collects the drained, terminated entry.
    e.tick(0);
    assert!(!e.is_live(h));
    assert_eq!(e.pop_event(h), None);
}

#[test]
fn events_survive_until_polled_after_termination() {
    let mut e = Engine::new(120_000);
    e.start();
    let h = e.start_sequence(emitter(3), 8);
    // Two passes: the instance ends in the first, keeps its queue through
    // the second because it was never drained.
    e.tick(500_000);
    e.tick(500_000);
    assert!(e.is_live(h));
    assert_eq!(e.pop_event(h), Some(3));
    assert_eq!(e.pop_event(h), Some(4));
}
