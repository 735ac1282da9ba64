use std::time::Duration;
use std::time::Instant;
use timelapse::{RecordingSink, TimeLapse};

/// Busy-waits for at least `ms` milliseconds.
fn spin(ms: u64) {
    let from = Instant::now();
    while from.elapsed() < Duration::from_millis(ms) {}
}

#[test]
fn test_profiler_macros() {
    let mut sink = RecordingSink::new();
    let the_profile = TimeLapse::new();
    spin(100);
    assert!(the_profile.elapsed().as_millis() >= 100);
    the_profile.log(&mut sink, "the_profile");
    assert_eq!(sink.len(), 1);
    assert!(sink.message_at(0).starts_with("TimeLapse the_profile - "));
}
