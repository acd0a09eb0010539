use tempo_sequencer::handle::InstanceHandle;
use tempo_sequencer::program::PlaySettings;
use tempo_sequencer::program::ProgramError;
use tempo_sequencer::program::SequenceBuilder;
use tempo_sequencer::program::Step;

#[test]
fn builder_freezes_steps_in_order() {
    let mut b = SequenceBuilder::new();
    b.wait(1000);
    b.emit(7);
    b.play(42, PlaySettings::plain());
    b.stop_other(InstanceHandle { index: 3, generation: 1 }, 250);
    let p = b.build().unwrap();
    assert_eq!(p.step_count(), 4);
    assert!(matches!(p.step_at(0), Step::WaitBeats(1000)));
    assert!(matches!(p.step_at(1), Step::EmitEvent(7)));
    assert!(matches!(p.step_at(2), Step::PlaySound(42, _)));
    assert!(matches!(p.step_at(3), Step::StopInstance(_, 250)));
    assert_eq!(p.get_loop_point(), None);
}

#[test]
fn builder_records_loop_point() {
    let mut b = SequenceBuilder::new();
    b.wait_for_interval(1000);
    b.start_loop();
    b.emit(1);
    b.wait(2000);
    let p = b.build().unwrap();
    assert_eq!(p.get_loop_point(), Some(1));
}

#[test]
fn zero_interval_is_rejected() {
    let mut b = SequenceBuilder::new();
    b.emit(1);
    b.wait_for_interval(0);
    assert_eq!(b.build().unwrap_err(), ProgramError::ZeroInterval);
}

#[test]
fn loop_with_no_subsequent_steps_is_rejected() {
    let mut b = SequenceBuilder::new();
    b.emit(1);
    b.wait(1000);
    b.start_loop();
    assert_eq!(b.build().unwrap_err(), ProgramError::EmptyLoop);
}

#[test]
fn loop_that_consumes_no_time_is_rejected() {
    let mut b = SequenceBuilder::new();
    b.start_loop();
    b.emit(1);
    b.wait(0);
    assert_eq!(b.build().unwrap_err(), ProgramError::UnproductiveLoop);
}

#[test]
fn loop_with_positive_wait_is_accepted() {
    let mut b = SequenceBuilder::new();
    b.start_loop();
    b.emit(1);
    b.wait(1);
    assert!(b.build().is_ok());
}

#[test]
fn empty_program_builds() {
    let b = SequenceBuilder::new();
    let p = b.build().unwrap();
    assert_eq!(p.step_count(), 0);
}
