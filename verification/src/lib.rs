//! A small profiler for measuring elapsed time.
//!
//! A [`TimeLapse`] captures a monotonic start instant when it is created and
//! reports the time elapsed since then.  It can be reset, rendered as text in
//! two distinct forms, and it can emit its measurement as one record through
//! the process-wide logging sink or directly to standard output.

pub mod profiler;
pub mod render;

pub use profiler::LogLevel;
pub use profiler::LogSink;
pub use profiler::RecordingSink;
pub use profiler::TimeLapse;
