use vstd::prelude::*;

verus! {

/// Where log lines go.
#[derive(Debug, Clone, Copy, PartialEq, Eq, Structural)]
pub enum LogSink {
    /// To standard error.
    Stderr,
    /// Nowhere.
    Silent,
}

impl LogSink {
    /// Logs go to standard error when the launcher was started from a
    /// terminal, that is when standard output or standard error is one;
    /// otherwise they are dropped.
    pub fn detect(stdout_is_terminal: bool, stderr_is_terminal: bool) -> (sink: LogSink)
        ensures
            sink == if stdout_is_terminal || stderr_is_terminal {
                LogSink::Stderr
            } else {
                LogSink::Silent
            },
    {
        if stdout_is_terminal || stderr_is_terminal {
            LogSink::Stderr
        } else {
            LogSink::Silent
        }
    }

    /// Whether a log line is written.
    pub fn writes(self) -> (writes: bool)
        ensures
            writes == (self == LogSink::Stderr),
    {
        match self {
            LogSink::Stderr => true,
            LogSink::Silent => false,
        }
    }
}

} // verus!
