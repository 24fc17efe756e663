//! The pipeline's error taxonomy. Every fatal condition of the core maps to
//! exactly one of these variants; degraded-input conditions (a missing
//! duration, an unknown frame count) are `None`s elsewhere, never errors.

use vstd::prelude::*;

verus! {

/// What can go fatally wrong in the frame pipeline.
#[derive(Debug)]
pub enum PipelineError {
    /// An external binary could not be started.
    Launch(String),
    /// End of stream arrived in the middle of a fixed-size frame.
    TruncatedStream { got: usize, expected: usize },
    /// A conversion input buffer is smaller than the format requires.
    Size { got: usize, expected: usize },
    /// An external process exited with a non-zero status; carries the captured
    /// tail of its diagnostic stream.
    ExternalProcess(String),
    /// A read or write on a pipe failed, or a probe could not be parsed.
    Io(String),
}

impl PipelineError {
    /// Which variant this is, as a stable label for operators and tests.
    pub fn kind(&self) -> (r: &'static str)
        ensures
            r@ == match self {
                PipelineError::Launch(_) => "launch"@,
                PipelineError::TruncatedStream { .. } => "truncated stream"@,
                PipelineError::Size { .. } => "size"@,
                PipelineError::ExternalProcess(_) => "external process"@,
                PipelineError::Io(_) => "io"@,
            },
    {
        match self {
            PipelineError::Launch(_) => "launch",
            PipelineError::TruncatedStream { .. } => "truncated stream",
            PipelineError::Size { .. } => "size",
            PipelineError::ExternalProcess(_) => "external process",
            PipelineError::Io(_) => "io",
        }
    }
}

} // verus!
