//! What one invocation of the build command leaves behind.

use vstd::prelude::*;

verus! {

/// How one invocation of the build command ended, and what it printed.
#[derive(Debug, Clone, PartialEq, Eq)]
pub struct BuildOutcome {
    /// Whether the command reported success.
    pub success: bool,
    /// The exit code, where the command ended with one.
    pub code: Option<i32>,
    /// Everything the command wrote to its standard output.
    pub stdout: Vec<u8>,
    /// Everything the command wrote to its standard error.
    pub stderr: Vec<u8>,
}

/// The status line that reports an outcome on the console.
#[derive(Debug, Clone, Copy, PartialEq, Eq)]
pub enum StatusLine {
    /// The build succeeded.
    Succeeded,
    /// The build failed, with this exit code if it has one.
    Failed(Option<i32>),
}

impl BuildOutcome {
    /// The status line for this outcome. A build that did not succeed is
    /// reported with its code; it is an outcome like any other, not an
    /// error.
    pub fn status_line(&self) -> (line: StatusLine)
        ensures
            line == (if self.success {
                StatusLine::Succeeded
            } else {
                StatusLine::Failed(self.code)
            }),
    {
        if self.success {
            StatusLine::Succeeded
        } else {
            StatusLine::Failed(self.code)
        }
    }
}

} // verus!
