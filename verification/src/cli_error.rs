//! The errors that end the program before or instead of the command.

use crate::exit_code_ext::{unresolved_text, UnresolvedStatus, UnresolvedView};
use crate::getopts_specs::{fail_message, fail_text, fail_view, FailView};
use getopts::Fail;
use vstd::prelude::*;
use vstd::string::*;

verus! {

/// Exit code for failures of the program itself, not of the command it runs.
pub const ERR_EXIT_STATUS: i32 = 125;

/// Every error that can reach the command line.
#[derive(Debug, PartialEq)]
pub enum CliError {
    /// The command ended in a way that has no exit code.
    Io(UnresolvedStatus),
    /// The arguments do not fit the options.
    Arguments(Fail),
    /// The argument of an option does not denote a value.
    InvalidArgumentValue(String),
}

/// Mathematical value of a `CliError`.
pub enum CliErrorView {
    Io(UnresolvedView),
    Arguments(FailView),
    InvalidArgumentValue(Seq<char>),
}

impl View for CliError {
    type V = CliErrorView;

    open spec fn view(&self) -> CliErrorView {
        match self {
            CliError::Io(e) => CliErrorView::Io(e@),
            CliError::Arguments(f) => CliErrorView::Arguments(fail_view(*f)),
            CliError::InvalidArgumentValue(s) => CliErrorView::InvalidArgumentValue(s@),
        }
    }
}

/// An error in words, for a program that was called as `program`.
pub open spec fn error_text(error: CliErrorView, program: Seq<char>) -> Seq<char> {
    match error {
        CliErrorView::Io(unresolved) => unresolved_text(unresolved),
        CliErrorView::Arguments(fail) => fail_text(fail) + "\nTry '"@ + program + " --help'"@,
        CliErrorView::InvalidArgumentValue(value) => value + " isn't a valid value"@,
    }
}

impl CliError {
    /// The error in words, for a program that was called as `program`.
    pub fn message(&self, program: &str) -> (text: String)
        ensures
            text@ == error_text(self@, program@),
    {
        match self {
            CliError::Io(unresolved) => unresolved.message(),
            CliError::Arguments(fail) => {
                let mut text = fail_message(fail);
                text.append("\nTry '");
                text.append(program);
                text.append(" --help'");
                text
            },
            CliError::InvalidArgumentValue(value) => {
                let mut text = value.clone();
                text.append(" isn't a valid value");
                text
            },
        }
    }

    /// The exit code of the program when it ends with this error.
    pub fn exit_code(&self) -> (code: i32)
        ensures
            code == ERR_EXIT_STATUS,
    {
        ERR_EXIT_STATUS
    }
}

} // verus!
