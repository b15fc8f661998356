//! The library's error type.
//!
//! Every failure the engine can decide on is one of these variants; lower
//! failures are wrapped, not swallowed.  Cleanup failures carry a distinct
//! exit code so that scripts can tell a partial cleanup from a command
//! that could not start.

use vstd::prelude::*;

use crate::command::opt_view;

verus! {

/// The dispatcher step to which a process failure belongs.
#[derive(Clone, Copy, PartialEq, Eq, Structural, Debug)]
pub enum DispatchStepKind {
    /// Installing a missing module before running it.
    Install,
    /// Running the requested module itself.
    Invoke,
}

/// Everything that can go wrong in the engine.
#[derive(Debug)]
pub enum HuakError {
    /// No environment was found within the search bound; carries the
    /// directory the search started from.
    VenvNotFound { from: String },
    /// The environment path has no parent directory or no usable final
    /// component, so no creation command can be formed.
    InvalidPath,
    /// The external environment-creation command failed.
    CreationFailed { cause: Option<String> },
    /// An external process run by the dispatcher failed, tagged with the
    /// step it belonged to.
    ProcessFailed { step: DispatchStepKind, cause: Option<String> },
    /// One or more cleanup deletions or glob walks failed; carries only
    /// the most recently observed cause.
    CleanupFailed { cause: Option<String> },
}

/// Mathematical image of a `HuakError`.
pub enum HuakErrorView {
    VenvNotFound { from: Seq<char> },
    InvalidPath,
    CreationFailed { cause: Option<Seq<char>> },
    ProcessFailed { step: DispatchStepKind, cause: Option<Seq<char>> },
    CleanupFailed { cause: Option<Seq<char>> },
}

impl View for HuakError {
    type V = HuakErrorView;

    open spec fn view(&self) -> HuakErrorView {
        match self {
            HuakError::VenvNotFound { from } => HuakErrorView::VenvNotFound { from: from@ },
            HuakError::InvalidPath => HuakErrorView::InvalidPath,
            HuakError::CreationFailed { cause } => HuakErrorView::CreationFailed {
                cause: opt_view(*cause),
            },
            HuakError::ProcessFailed { step, cause } => HuakErrorView::ProcessFailed {
                step: *step,
                cause: opt_view(*cause),
            },
            HuakError::CleanupFailed { cause } => HuakErrorView::CleanupFailed {
                cause: opt_view(*cause),
            },
        }
    }
}

/// Exit code owed to an error: cleanup failures are distinguished from
/// every other failure.
pub open spec fn exit_code_spec(e: HuakErrorView) -> int {
    match e {
        HuakErrorView::CleanupFailed { .. } => 2,
        _ => 1,
    }
}

/// The user-visible description of an error, with the underlying cause
/// appended where one was observed.
pub open spec fn message_spec(e: HuakErrorView) -> Seq<char> {
    match e {
        HuakErrorView::VenvNotFound { from } => ("could not find venv from ")@ + from,
        HuakErrorView::InvalidPath => ("invalid venv path")@,
        HuakErrorView::CreationFailed { cause } => match cause {
            Option::Some(c) => ("failed to create venv: ")@ + c,
            Option::None => ("failed to create venv")@,
        },
        HuakErrorView::ProcessFailed { step, cause } => {
            let what = match step {
                DispatchStepKind::Install => ("failed to install package")@,
                DispatchStepKind::Invoke => ("failed to run command")@,
            };
            match cause {
                Option::Some(c) => what + (": ")@ + c,
                Option::None => what,
            }
        },
        HuakErrorView::CleanupFailed { cause } => match cause {
            Option::Some(c) => ("failed to clean: ")@ + c,
            Option::None => ("failed to clean")@,
        },
    }
}

impl HuakError {
    /// The process exit status this error calls for.
    pub fn exit_code(&self) -> (r: i32)
        ensures
            r == exit_code_spec(self@),
    {
        match self {
            HuakError::CleanupFailed { .. } => 2,
            _ => 1,
        }
    }

    /// The user-visible description of this error.
    pub fn message(&self) -> (r: String)
        ensures
            r@ == message_spec(self@),
    {
        match self {
            HuakError::VenvNotFound { from } => {
                let mut r = "could not find venv from ".to_owned();
                r.append(from.as_str());
                r
            },
            HuakError::InvalidPath => "invalid venv path".to_owned(),
            HuakError::CreationFailed { cause } => match cause {
                Option::Some(c) => {
                    let mut r = "failed to create venv: ".to_owned();
                    r.append(c.as_str());
                    r
                },
                Option::None => "failed to create venv".to_owned(),
            },
            HuakError::ProcessFailed { step, cause } => {
                let mut r = match step {
                    DispatchStepKind::Install => "failed to install package".to_owned(),
                    DispatchStepKind::Invoke => "failed to run command".to_owned(),
                };
                match cause {
                    Option::Some(c) => {
                        r.append(": ");
                        r.append(c.as_str());
                        r
                    },
                    Option::None => r,
                }
            },
            HuakError::CleanupFailed { cause } => match cause {
                Option::Some(c) => {
                    let mut r = "failed to clean: ".to_owned();
                    r.append(c.as_str());
                    r
                },
                Option::None => "failed to clean".to_owned(),
            },
        }
    }
}

} // verus!
