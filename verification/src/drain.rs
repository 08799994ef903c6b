//! The output drain's signal extraction: classifying each log line the
//! process writes against a small fixed set of markers, and counting
//! dependency-loading lines. One reader per output stream drives its own
//! `DrainState`; every line is also forwarded to the observer unmodified,
//! which is the caller's I/O and not decided here.

use vstd::prelude::*;

verus! {

use crate::text::{contains_seq, contains_str};

/// Which output stream a line arrived on.
#[derive(Clone, Copy, Debug, PartialEq, Eq, Structural)]
pub enum StreamSource {
    Stdout,
    Stderr,
}

/// The line announces that the service is listening: it is a readiness
/// signal, whichever stream it arrived on.
pub open spec fn line_signals_ready(line: Seq<char>) -> bool {
    contains_seq(line, "Listening on"@)
}

/// The line reports a dependency being loaded. Only the error-classified
/// stream carries these reports.
pub open spec fn line_loads_package(line: Seq<char>, source: StreamSource) -> bool {
    source is Stderr && (contains_seq(line, "Loading required package:"@) || contains_seq(
        line,
        "Attaching package:"@,
    ))
}

/// What one line yielded: a readiness signal to push, and, when the line
/// reported a dependency being loaded, the loaded-count to report as
/// progress.
pub struct LineOutcome {
    pub ready: bool,
    pub progress: Option<u64>,
}

/// Per-reader extraction state: how many dependency-loading lines this
/// stream has reported so far.
#[derive(Clone, Copy, Debug)]
pub struct DrainState {
    pub loaded: u64,
}

impl DrainState {
    /// A reader that has seen no lines yet.
    pub fn new() -> (r: DrainState)
        ensures
            r.loaded == 0,
    {
        DrainState { loaded: 0 }
    }

    /// Classifies one line. A line may match more than one marker; each
    /// match fires its own effect: the readiness flag is set exactly when
    /// the line signals readiness, and the loading counter steps and
    /// reports exactly when the line loads a dependency.
    pub fn observe_line(&mut self, line: &str, source: StreamSource) -> (r: LineOutcome)
        requires
            old(self).loaded < u64::MAX,
        ensures
            r.ready == line_signals_ready(line@),
            line_loads_package(line@, source) ==> final(self).loaded == old(self).loaded + 1
                && r.progress == Some(final(self).loaded),
            !line_loads_package(line@, source) ==> *final(self) == *old(self) && r.progress
                is None,
    {
        let ready = contains_str(line, "Listening on");
        let loads = match source {
            StreamSource::Stderr => contains_str(line, "Loading required package:")
                || contains_str(line, "Attaching package:"),
            StreamSource::Stdout => false,
        };
        if loads {
            self.loaded = self.loaded + 1;
            LineOutcome { ready, progress: Some(self.loaded) }
        } else {
            LineOutcome { ready, progress: None }
        }
    }
}

} // verus!
