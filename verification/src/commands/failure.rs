//! How a command on an environment ends badly.

use vstd::prelude::*;

use crate::error::PristError;

verus! {

/// Why a command on an environment ended badly.
#[derive(Debug)]
pub enum CommandFailure {
    /// There is no environment of this name.
    NotFound(String),
    /// No environment can be called so.
    BadName(String),
    /// The current directory is not known.
    NoDirectory(String),
    /// The system failed in some other way.
    System(String),
    /// The system gave no answer.
    Unanswered,
}

impl CommandFailure {
    /// It is reported as the error `r`.
    pub open spec fn told_as(self, r: PristError) -> bool {
        match self {
            CommandFailure::NotFound(name) => r == PristError::EnvNotFound(name),
            CommandFailure::BadName(name) => r matches PristError::Other(m) && m@
                == "invalid env name '"@ + name@ + "'"@,
            CommandFailure::NoDirectory(e) => r matches PristError::Other(m) && m@ == "cwd: "@
                + e@,
            CommandFailure::System(e) => r == PristError::Other(e),
            CommandFailure::Unanswered => r matches PristError::Other(m) && m@ == "no answer"@,
        }
    }

    /// The error that is reported.
    pub fn error(self) -> (r: PristError)
        ensures
            self.told_as(r),
    {
        match self {
            CommandFailure::NotFound(name) => PristError::EnvNotFound(name),
            CommandFailure::BadName(name) => PristError::msg(
                "invalid env name '".to_string().concat(name.as_str()).concat("'"),
            ),
            CommandFailure::NoDirectory(e) => PristError::msg(
                "cwd: ".to_string().concat(e.as_str()),
            ),
            CommandFailure::System(e) => PristError::msg(e),
            CommandFailure::Unanswered => PristError::msg("no answer".to_string()),
        }
    }
}

} // verus!
