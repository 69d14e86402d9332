//! Exit statuses.

use vstd::prelude::*;

verus! {

/// How the process ends. The statuses are listed by growing severity, and the
/// exit code of a status is its place in that list.
#[derive(Debug, Clone, Copy, PartialEq, Eq, Structural)]
pub enum ExitStatus {
    /// A commit was found and reported.
    Success,
    /// No commit was found; nothing else went wrong.
    NonFatal,
    /// The search could not be carried out.
    Fatal,
    /// The external viewer could not be run to its end.
    ExternalProgramFailed,
}

impl ExitStatus {
    /// The exit code of a status, as a number.
    pub open spec fn spec_code(self) -> int {
        match self {
            ExitStatus::Success => 0,
            ExitStatus::NonFatal => 1,
            ExitStatus::Fatal => 2,
            ExitStatus::ExternalProgramFailed => 3,
        }
    }

    /// The exit code of this status.
    pub fn code(self) -> (code: i32)
        ensures
            code == self.spec_code(),
    {
        match self {
            ExitStatus::Success => 0,
            ExitStatus::NonFatal => 1,
            ExitStatus::Fatal => 2,
            ExitStatus::ExternalProgramFailed => 3,
        }
    }
}

} // verus!
