//! Shell-style exit codes for the ways in which a launched process can end.

use crate::text::text_view;
use vstd::prelude::*;

verus! {

/// Offset that shells add to a signal's number to form an exit code.
pub const SIGNAL_OFFSET: i32 = 128;

/// Exit code of a command that could not be found.
pub const NOT_FOUND_CODE: i32 = 127;

/// Exit code of a command that could not be executed.
pub const NOT_EXECUTABLE_CODE: i32 = 126;

/// Why a launch failed, as far as the exit code depends on it.
#[derive(Clone, Copy, Debug, PartialEq, Eq, Structural)]
pub enum LaunchErrorKind {
    NotFound,
    PermissionDenied,
    Other,
}

/// What the operating system reports of a process that has terminated.
#[derive(Clone, Copy, Debug, PartialEq, Eq, Structural)]
pub struct ExitState {
    /// The exit code, if the process exited by itself.
    pub code: Option<i32>,
    /// The signal that terminated the process, if one did.
    pub signal: Option<i32>,
}

/// A failure to launch a process at all.
#[derive(Clone, Debug, PartialEq, Eq)]
pub struct LaunchError {
    pub kind: LaunchErrorKind,
    /// The failure in words.
    pub message: String,
}

/// What a launch returns: the state in which the process ended, or the
/// failure to launch it.
pub type LaunchResult = Result<ExitState, LaunchError>;

/// The raw result of one launch attempt.
#[derive(Clone, Debug, PartialEq, Eq)]
pub enum ProcessOutcome {
    /// The process exited with this code.
    Exited(i32),
    /// The process was terminated by this signal.
    Signaled(i32),
    /// The process has terminated, with neither an exit code nor a signal.
    Unknown,
    /// The process could not be launched.
    LaunchFailed(LaunchErrorKind, String),
}

/// An exit code together with a message for the log, if there is one.
#[derive(Clone, Debug, PartialEq, Eq)]
pub struct ResolvedStatus {
    pub code: i32,
    pub diagnostic: Option<String>,
}

/// An outcome for which no exit code exists.
#[derive(Clone, Debug, PartialEq, Eq)]
pub enum UnresolvedStatus {
    /// The process ended with neither an exit code nor a signal.
    UnknownExit,
    /// The launch failed for a reason that stands for no exit code.
    LaunchFailed(String),
}

/// Why an outcome has no exit code, in words.
pub open spec fn unresolved_text(error: UnresolvedView) -> Seq<char> {
    match error {
        UnresolvedView::UnknownExit => "Unkonwn exit code"@,
        UnresolvedView::LaunchFailed(message) => message,
    }
}

impl UnresolvedStatus {
    /// Why the outcome has no exit code, in words.
    pub fn message(&self) -> (text: String)
        ensures
            text@ == unresolved_text(self@),
    {
        match self {
            UnresolvedStatus::UnknownExit => "Unkonwn exit code".to_owned(),
            UnresolvedStatus::LaunchFailed(message) => message.clone(),
        }
    }
}

/// Mathematical value of a `ResolvedStatus`.
pub struct ResolvedView {
    pub code: int,
    pub diagnostic: Option<Seq<char>>,
}

/// Mathematical value of an `UnresolvedStatus`.
pub enum UnresolvedView {
    UnknownExit,
    LaunchFailed(Seq<char>),
}

/// Mathematical value of a `ProcessOutcome`.
pub enum OutcomeView {
    Exited(int),
    Signaled(int),
    Unknown,
    LaunchFailed(LaunchErrorKind, Seq<char>),
}

impl View for ResolvedStatus {
    type V = ResolvedView;

    open spec fn view(&self) -> ResolvedView {
        ResolvedView {
            code: self.code as int,
            diagnostic: text_view(self.diagnostic),
        }
    }
}

impl View for UnresolvedStatus {
    type V = UnresolvedView;

    open spec fn view(&self) -> UnresolvedView {
        match self {
            UnresolvedStatus::UnknownExit => UnresolvedView::UnknownExit,
            UnresolvedStatus::LaunchFailed(m) => UnresolvedView::LaunchFailed(m@),
        }
    }
}

impl View for ProcessOutcome {
    type V = OutcomeView;

    open spec fn view(&self) -> OutcomeView {
        match self {
            ProcessOutcome::Exited(c) => OutcomeView::Exited(*c as int),
            ProcessOutcome::Signaled(s) => OutcomeView::Signaled(*s as int),
            ProcessOutcome::Unknown => OutcomeView::Unknown,
            ProcessOutcome::LaunchFailed(k, m) => OutcomeView::LaunchFailed(*k, m@),
        }
    }
}

/// The exit code that stands for an outcome, by the convention of the shells:
/// the exit code itself, a signal's number plus 128, 127 for a command that
/// was not found and 126 for one that may not be executed. Nothing stands for
/// the other outcomes.
pub open spec fn resolve(outcome: OutcomeView) -> Result<ResolvedView, UnresolvedView> {
    match outcome {
        OutcomeView::Exited(code) => Ok(ResolvedView { code, diagnostic: None }),
        OutcomeView::Signaled(signal) => Ok(
            ResolvedView { code: signal + 128, diagnostic: None },
        ),
        OutcomeView::Unknown => Err(UnresolvedView::UnknownExit),
        OutcomeView::LaunchFailed(LaunchErrorKind::NotFound, message) => Ok(
            ResolvedView { code: 127, diagnostic: Some(message) },
        ),
        OutcomeView::LaunchFailed(LaunchErrorKind::PermissionDenied, message) => Ok(
            ResolvedView { code: 126, diagnostic: Some(message) },
        ),
        OutcomeView::LaunchFailed(LaunchErrorKind::Other, message) => Err(
            UnresolvedView::LaunchFailed(message),
        ),
    }
}

/// Whether the exit code of an outcome, where it has one, fits in an `i32`.
pub open spec fn representable(outcome: OutcomeView) -> bool {
    match outcome {
        OutcomeView::Signaled(signal) => signal + 128 <= i32::MAX,
        _ => true,
    }
}

/// Mathematical value of the result of a resolution.
pub open spec fn resolution_view(r: Result<ResolvedStatus, UnresolvedStatus>) -> Result<
    ResolvedView,
    UnresolvedView,
> {
    match r {
        Ok(s) => Ok(s@),
        Err(e) => Err(e@),
    }
}

/// Resolution of a value into an exit code and an optional message.
pub trait ExitCodeExt {
    /// The outcome that the value stands for.
    spec fn outcome(&self) -> OutcomeView;

    /// Resolves the receiver into an exit code and an optional message.
    fn exit_code(&self) -> (r: Result<ResolvedStatus, UnresolvedStatus>)
        requires
            representable(self.outcome()),
        ensures
            resolution_view(r) == resolve(self.outcome()),
    ;
}

/// The outcome that a terminated process stands for: an exit, if it has an
/// exit code; else a death by signal, if it has a signal.
pub open spec fn exit_outcome(state: ExitState) -> OutcomeView {
    match state.code {
        Some(code) => OutcomeView::Exited(code as int),
        None => match state.signal {
            Some(signal) => OutcomeView::Signaled(signal as int),
            None => OutcomeView::Unknown,
        },
    }
}

/// The outcome that a launch stands for.
pub open spec fn launch_outcome(result: LaunchResult) -> OutcomeView {
    match result {
        Ok(state) => exit_outcome(state),
        Err(error) => OutcomeView::LaunchFailed(error.kind, error.message@),
    }
}

impl ProcessOutcome {
    /// The outcome of a launch.
    pub fn from_launch(result: LaunchResult) -> (outcome: ProcessOutcome)
        ensures
            outcome@ == launch_outcome(result),
    {
        match result {
            Ok(state) => match state.code {
                Some(code) => ProcessOutcome::Exited(code),
                None => match state.signal {
                    Some(signal) => ProcessOutcome::Signaled(signal),
                    None => ProcessOutcome::Unknown,
                },
            },
            Err(error) => ProcessOutcome::LaunchFailed(error.kind, error.message),
        }
    }
}

impl ExitCodeExt for ExitState {
    open spec fn outcome(&self) -> OutcomeView {
        exit_outcome(*self)
    }

    fn exit_code(&self) -> (r: Result<ResolvedStatus, UnresolvedStatus>) {
        ProcessOutcome::from_launch(Ok(*self)).exit_code()
    }
}

impl ExitCodeExt for LaunchError {
    open spec fn outcome(&self) -> OutcomeView {
        OutcomeView::LaunchFailed(self.kind, self.message@)
    }

    fn exit_code(&self) -> (r: Result<ResolvedStatus, UnresolvedStatus>) {
        ProcessOutcome::LaunchFailed(self.kind, self.message.clone()).exit_code()
    }
}

impl ExitCodeExt for ProcessOutcome {
    open spec fn outcome(&self) -> OutcomeView {
        self@
    }

    fn exit_code(&self) -> (r: Result<ResolvedStatus, UnresolvedStatus>) {
        match self {
            ProcessOutcome::Exited(code) => Ok(ResolvedStatus { code: *code, diagnostic: None }),
            ProcessOutcome::Signaled(signal) => Ok(
                ResolvedStatus { code: *signal + SIGNAL_OFFSET, diagnostic: None },
            ),
            ProcessOutcome::Unknown => Err(UnresolvedStatus::UnknownExit),
            ProcessOutcome::LaunchFailed(kind, message) => match kind {
                LaunchErrorKind::NotFound => Ok(
                    ResolvedStatus { code: NOT_FOUND_CODE, diagnostic: Some(message.clone()) },
                ),
                LaunchErrorKind::PermissionDenied => Ok(
                    ResolvedStatus {
                        code: NOT_EXECUTABLE_CODE,
                        diagnostic: Some(message.clone()),
                    },
                ),
                LaunchErrorKind::Other => Err(UnresolvedStatus::LaunchFailed(message.clone())),
            },
        }
    }
}

/// Resolution has no state: two resolutions of one outcome give the same
/// status, or the same failure.
pub proof fn lemma_resolution_is_repeatable(
    outcome: OutcomeView,
    first: Result<ResolvedStatus, UnresolvedStatus>,
    second: Result<ResolvedStatus, UnresolvedStatus>,
)
    requires
        resolution_view(first) == resolve(outcome),
        resolution_view(second) == resolve(outcome),
    ensures
        resolution_view(first) == resolution_view(second),
{
}

} // verus!
