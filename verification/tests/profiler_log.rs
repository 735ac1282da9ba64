use std::time::Duration;
use std::time::Instant;
use timelapse::{LogLevel, RecordingSink, TimeLapse};

/// Busy-waits for at least `ms` milliseconds.
fn spin(ms: u64) {
    let from = Instant::now();
    while from.elapsed() < Duration::from_millis(ms) {}
}

#[test]
fn test_profiler() {
    let mut sink = RecordingSink::new();
    let profiler = TimeLapse::new();
    spin(100);
    assert!(profiler.elapsed().as_millis() >= 100);
    profiler.log(&mut sink, "test");
    assert_eq!(sink.len(), 1);
    assert!(sink.level_at(0) == LogLevel::Info);
    assert!(sink.message_at(0).contains("test"));
}

#[test]
fn test_log_emits_one_full_record() {
    let mut sink = RecordingSink::new();
    let profiler = TimeLapse::new();
    profiler.log(&mut sink, "section");
    assert_eq!(sink.len(), 1);
    let message = sink.message_at(0);
    assert!(message.starts_with("TimeLapse section - Elapsed time: "));
    assert!(
        message.ends_with("ns")
            || message.ends_with("us")
            || message.ends_with("ms")
            || message.ends_with("s")
    );
}

#[test]
fn test_each_log_call_emits_exactly_one_record() {
    let mut sink = RecordingSink::new();
    let profiler = TimeLapse::new();
    profiler.log(&mut sink, "first");
    profiler.log(&mut sink, "second");
    assert_eq!(sink.len(), 2);
    assert!(sink.message_at(0).contains("first"));
    assert!(sink.message_at(1).contains("second"));
}

#[test]
fn test_log_at_keeps_the_chosen_level() {
    let mut sink = RecordingSink::new();
    let profiler = TimeLapse::new();
    profiler.log_at(&mut sink, LogLevel::Error, "err_section");
    profiler.log_at(&mut sink, LogLevel::Warn, "warn_section");
    profiler.log_at(&mut sink, LogLevel::Debug, "dbg_section");
    profiler.log_at(&mut sink, LogLevel::Trace, "trace_section");
    assert_eq!(sink.len(), 4);
    assert!(sink.level_at(0) == LogLevel::Error);
    assert!(sink.level_at(1) == LogLevel::Warn);
    assert!(sink.level_at(2) == LogLevel::Debug);
    assert!(sink.level_at(3) == LogLevel::Trace);
    assert!(sink.message_at(3).contains("trace_section"));
}
