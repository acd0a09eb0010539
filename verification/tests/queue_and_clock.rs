use tempo_sequencer::clock::Clock;
use tempo_sequencer::queue::EventQueue;

#[test]
fn queue_is_fifo() {
    let mut q = EventQueue::new(8);
    assert!(q.is_empty());
    q.push(10);
    q.push(20);
    q.push(30);
    assert_eq!(q.len(), 3);
    assert_eq!(q.pop(), Some(10));
    assert_eq!(q.pop(), Some(20));
    assert_eq!(q.pop(), Some(30));
    assert_eq!(q.pop(), None);
    assert!(q.is_empty());
}

#[test]
fn queue_full_drops_oldest_and_counts() {
    let mut q = EventQueue::new(2);
    q.push(1);
    q.push(2);
    q.push(3);
    assert_eq!(q.overflow_count(), 1);
    assert_eq!(q.pop(), Some(2));
    assert_eq!(q.pop(), Some(3));
    assert_eq!(q.pop(), None);
}

#[test]
fn queue_pop_on_empty_is_none_and_harmless() {
    let mut q = EventQueue::new(1);
    assert_eq!(q.pop(), None);
    q.push(5);
    assert_eq!(q.pop(), Some(5));
    assert_eq!(q.pop(), None);
    assert_eq!(q.overflow_count(), 0);
}

#[test]
fn clock_converts_time_to_beats_exactly() {
    // 128 beats per minute: one beat lasts 468750 microseconds.
    let mut c = Clock::new(128_000);
    c.start();
    c.advance(468_750);
    assert_eq!(c.elapsed_millibeats(), 1000);
    c.advance(234_375);
    assert_eq!(c.elapsed_millibeats(), 1500);
}

#[test]
fn clock_stopped_does_not_advance() {
    let mut c = Clock::new(120_000);
    c.advance(1_000_000);
    assert_eq!(c.elapsed_millibeats(), 0);
    assert!(!c.is_running());
}

#[test]
fn clock_stop_resets_to_zero() {
    let mut c = Clock::new(120_000);
    c.start();
    c.advance(500_000);
    assert_eq!(c.elapsed_millibeats(), 1000);
    c.stop();
    assert_eq!(c.elapsed_millibeats(), 0);
    c.start();
    assert_eq!(c.elapsed_millibeats(), 0);
}

#[test]
fn clock_start_while_running_keeps_position() {
    let mut c = Clock::new(120_000);
    c.start();
    c.advance(500_000);
    c.start();
    assert_eq!(c.elapsed_millibeats(), 1000);
}

#[test]
fn clock_tempo_change_keeps_elapsed_beats() {
    // One beat at 128 bpm, then one beat at 256 bpm: two beats in all.
    let mut c = Clock::new(128_000);
    c.start();
    c.advance(468_750);
    assert_eq!(c.elapsed_millibeats(), 1000);
    c.set_tempo(256_000);
    assert_eq!(c.elapsed_millibeats(), 1000);
    c.advance(234_375);
    assert_eq!(c.elapsed_millibeats(), 2000);
    assert_eq!(c.tempo(), 256_000);
}
