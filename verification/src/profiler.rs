//! The [`TimeLapse`] profiler: a single monotonic start instant with
//! elapsed-time queries, reset, text renderings and log emission.

use crate::render::{
    debug_message, debug_text, default_message, default_text, log_message, log_text,
};
use std::io::Write;
use vstd::prelude::*;

verus! {

#[verifier::external_type_specification]
#[verifier::external_body]
pub struct ExInstant(std::time::Instant);

/// Relies on `core::time::Duration::as_nanos`: the duration's whole count of
/// nanoseconds, which always fits in a `u128`.  No more is assumed of it.
pub assume_specification[ core::time::Duration::as_nanos ](d: &core::time::Duration) -> u128;

/// Relies on `std::time::Instant::now`: reads the monotonic clock.  Nothing is
/// assumed of the instant it returns.
#[verifier::external_body]
fn instant_now() -> std::time::Instant {
    std::time::Instant::now()
}

/// Relies on `std::time::Instant::elapsed`: the time from the instant to now,
/// saturating at zero.  Nothing is assumed of the duration it returns.
#[verifier::external_body]
fn instant_elapsed(i: &std::time::Instant) -> core::time::Duration {
    i.elapsed()
}

/// Relies on `std::io::Stdout::write_fmt` through `writeln`: writes the
/// message and a newline to standard output, ignoring write errors.
#[verifier::external_body]
fn print_line(msg: &str) {
    let _ = writeln!(std::io::stdout(), "{}", msg);
}

/// The severity of an emitted log record, from the highest to the lowest.
#[derive(Clone, Copy, PartialEq, Eq, Structural)]
pub enum LogLevel {
    Error,
    Warn,
    Info,
    Debug,
    Trace,
}

/// A destination for the profiler's log records.
///
/// The surrounding application supplies an implementation, typically one that
/// forwards each record to its process-wide logging facility; a sink that is
/// never given to anything simply receives nothing.  A sink's abstract state
/// is the sequence of records it has received, each a severity paired with a
/// message.
pub trait LogSink {
    /// The records this sink has received so far.  An implementation written
    /// for verified callers overrides this with its own state, as
    /// [`RecordingSink`] does; an unverified one outside this crate may leave
    /// the default in place.
    open spec fn records(&self) -> Seq<(LogLevel, Seq<char>)> {
        Seq::empty()
    }

    /// Accepts one record.
    fn emit(&mut self, level: LogLevel, message: &str)
        ensures
            final(self).records() == old(self).records().push((level, message@)),
    ;
}

/// A sink that keeps every record it is handed, for inspection afterwards.
pub struct RecordingSink {
    entries: Vec<(LogLevel, String)>,
}

impl RecordingSink {
    /// Creates an empty sink.
    pub fn new() -> (s: RecordingSink)
        ensures
            s.records() == Seq::<(LogLevel, Seq<char>)>::empty(),
    {
        let s = RecordingSink { entries: Vec::new() };
        proof {
            assert(s.records() =~= Seq::<(LogLevel, Seq<char>)>::empty());
        }
        s
    }

    /// The number of records received.
    pub fn len(&self) -> (n: usize)
        ensures
            n == self.records().len(),
    {
        self.entries.len()
    }

    /// The severity of the record at `i`.
    pub fn level_at(&self, i: usize) -> (l: LogLevel)
        requires
            i < self.records().len(),
        ensures
            l == self.records()[i as int].0,
    {
        self.entries[i].0
    }

    /// The message of the record at `i`.
    pub fn message_at(&self, i: usize) -> (m: &String)
        requires
            i < self.records().len(),
        ensures
            m@ == self.records()[i as int].1,
    {
        &self.entries[i].1
    }
}

impl LogSink for RecordingSink {
    closed spec fn records(&self) -> Seq<(LogLevel, Seq<char>)> {
        self.entries@.map_values(|r: (LogLevel, String)| (r.0, r.1@))
    }

    fn emit(&mut self, level: LogLevel, message: &str) {
        self.entries.push((level, message.to_owned()));
        proof {
            assert(self.records() =~= old(self).records().push((level, message@)));
        }
    }
}

/// Measures elapsed time from the monotonic instant captured at its creation
/// or at its last reset.
pub struct TimeLapse {
    start_time: std::time::Instant,
}

impl TimeLapse {
    /// Creates a new profiler, starting the measurement immediately.
    pub fn new() -> TimeLapse {
        TimeLapse { start_time: instant_now() }
    }

    /// Returns the time elapsed since this profiler was created or last reset.
    pub fn elapsed(&self) -> core::time::Duration {
        instant_elapsed(&self.start_time)
    }

    /// Returns the elapsed time as a whole count of nanoseconds.
    pub fn elapsed_nanos(&self) -> u128 {
        self.elapsed().as_nanos()
    }

    /// Restarts the measurement from the current monotonic instant.
    pub fn reset(&mut self) {
        self.start_time = instant_now();
    }

    /// Hands the sink exactly one informational record whose message names
    /// `name` and renders the elapsed time at the moment of the call.
    pub fn log<S: LogSink>(&self, sink: &mut S, name: &str)
        ensures
            exists|n: nat|
                final(sink).records() == old(sink).records().push(
                    (LogLevel::Info, log_text(name@, n)),
                ),
    {
        self.log_at(sink, LogLevel::Info, name)
    }

    /// Hands the sink exactly one record at the chosen severity, with the
    /// same message as [`TimeLapse::log`].
    pub fn log_at<S: LogSink>(&self, sink: &mut S, level: LogLevel, name: &str)
        ensures
            exists|n: nat|
                final(sink).records() == old(sink).records().push((level, log_text(name@, n))),
    {
        let nanos = self.elapsed_nanos();
        let msg = log_message(name, nanos);
        sink.emit(level, msg.as_str());
    }

    /// Writes the same message as [`TimeLapse::log`] directly to standard
    /// output, bypassing any sink.
    pub fn log_print(&self, name: &str) {
        let nanos = self.elapsed_nanos();
        let msg = log_message(name, nanos);
        print_line(msg.as_str());
    }

    /// Renders this profiler as `Elapsed time: <duration>`.
    pub fn render_default(&self) -> (s: String)
        ensures
            exists|n: nat| s@ == default_text(n),
    {
        default_message(self.elapsed_nanos())
    }

    /// Renders this profiler as `TimeLapse { elapsed: <duration> }`.
    pub fn render_debug(&self) -> (s: String)
        ensures
            exists|n: nat| s@ == debug_text(n),
    {
        debug_message(self.elapsed_nanos())
    }
}

impl Default for TimeLapse {
    /// Equivalent to [`TimeLapse::new`].
    fn default() -> TimeLapse {
        TimeLapse::new()
    }
}

} // verus!
