//! Runs a command again and again until its exit status is acceptable or a
//! timeout has passed: the rules that decide, after each attempt, whether to
//! stop, and which exit status to report.

pub mod cli;
pub mod cli_error;
pub mod duration;
pub mod exit_code_ext;
pub mod getopts_specs;
pub mod numbers;
pub mod text;

use crate::duration::duration_nanos;
use crate::exit_code_ext::{
    resolve, representable, ExitCodeExt, OutcomeView, ProcessOutcome, ResolvedStatus,
    UnresolvedStatus, UnresolvedView,
};
use crate::text::text_view;
use std::time::Duration;
use vstd::prelude::*;

verus! {

/// A command together with the policy by which it is run again.
#[derive(Debug, PartialEq)]
pub struct RetryCommand {
    program: String,
    args: Vec<String>,
    retry_delay: Duration,
    retry_timeout: Duration,
    retry_until: Vec<i32>,
    retry_on: Option<Vec<i32>>,
    rewrite: Vec<(i32, i32)>,
}

/// Mathematical value of a `RetryCommand`.
pub struct RetryView {
    /// The executable.
    pub program: Seq<char>,
    /// Its arguments.
    pub args: Seq<Seq<char>>,
    /// Nanoseconds to wait before the next attempt.
    pub retry_delay: nat,
    /// Nanoseconds after which no further attempt is started.
    pub retry_timeout: nat,
    /// The exit codes that end the run at once.
    pub retry_until: Seq<i32>,
    /// The only exit codes that are worth another attempt, if that is restricted.
    pub retry_on: Option<Seq<i32>>,
    /// The pairs by which the final exit code is replaced, in the order given.
    pub rewrite: Seq<(i32, i32)>,
}

/// What to do after an attempt.
#[derive(Debug, PartialEq)]
pub enum Step {
    /// The run is over, with this exit code.
    Done { code: i32, diagnostic: Option<String> },
    /// Wait for `delay`, then launch the command again.
    Retry { delay: Duration, diagnostic: Option<String> },
}

/// Mathematical value of a `Step`.
pub enum StepView {
    Done { code: int, diagnostic: Option<Seq<char>> },
    Retry { delay: nat, diagnostic: Option<Seq<char>> },
}

impl View for Step {
    type V = StepView;

    open spec fn view(&self) -> StepView {
        match self {
            Step::Done { code, diagnostic } => StepView::Done {
                code: *code as int,
                diagnostic: text_view(*diagnostic),
            },
            Step::Retry { delay, diagnostic } => StepView::Retry {
                delay: duration_nanos(*delay),
                diagnostic: text_view(*diagnostic),
            },
        }
    }
}

/// Mathematical value of the result of `RetryCommand::after_attempt`.
pub open spec fn step_view(r: Result<Step, UnresolvedStatus>) -> Result<StepView, UnresolvedView> {
    match r {
        Ok(s) => Ok(s@),
        Err(e) => Err(e@),
    }
}

/// Whether `code` is one of `codes`.
pub open spec fn in_codes(codes: Seq<i32>, code: int) -> bool {
    exists|i: int| 0 <= i < codes.len() && codes[i] == code
}

/// Whether the run ends after an attempt that gave `code`, `elapsed`
/// nanoseconds after the run began. An accepted code ends it; so does a code
/// that is not worth another attempt; so does the timeout. In this order.
pub open spec fn stops(policy: RetryView, code: int, elapsed: nat) -> bool {
    ||| in_codes(policy.retry_until, code)
    ||| (policy.retry_on matches Some(on) && !in_codes(on, code))
    ||| elapsed >= policy.retry_timeout
}

/// The exit code that `table` puts in the place of `code`: the second part of
/// the last pair whose first part is `code`, and `code` itself if there is no
/// such pair.
pub open spec fn rewritten(table: Seq<(i32, i32)>, code: int) -> int
    decreases table.len(),
{
    if table.len() == 0 {
        code
    } else if table.last().0 == code {
        table.last().1 as int
    } else {
        rewritten(table.drop_last(), code)
    }
}

/// What follows an attempt with this outcome, `elapsed` nanoseconds after
/// the run began: a failure if the outcome has no exit code; else the end of
/// the run, with the exit code rewritten, if the policy stops; else a wait.
pub open spec fn next_step(policy: RetryView, outcome: OutcomeView, elapsed: nat) -> Result<
    StepView,
    UnresolvedView,
> {
    match resolve(outcome) {
        Err(e) => Err(e),
        Ok(status) => if stops(policy, status.code, elapsed) {
            Ok(
                StepView::Done {
                    code: rewritten(policy.rewrite, status.code),
                    diagnostic: status.diagnostic,
                },
            )
        } else {
            Ok(StepView::Retry { delay: policy.retry_delay, diagnostic: status.diagnostic })
        },
    }
}

/// The policy of a command that is run once: no timeout, no delay, success
/// on exit code 0, every other code worth another attempt, nothing rewritten.
pub open spec fn default_policy(program: Seq<char>, args: Seq<Seq<char>>) -> RetryView {
    RetryView {
        program,
        args,
        retry_delay: 0,
        retry_timeout: 0,
        retry_until: seq![0i32],
        retry_on: None,
        rewrite: Seq::empty(),
    }
}

/// Whether `code` occurs in `codes`.
fn contains_code(codes: &Vec<i32>, code: i32) -> (found: bool)
    ensures
        found == in_codes(codes@, code as int),
{
    let mut i: usize = 0;
    while i < codes.len()
        invariant
            i <= codes.len(),
            forall|j: int| 0 <= j < i ==> codes@[j] != code,
        decreases codes.len() - i,
    {
        if codes[i] == code {
            return true;
        }
        i += 1;
    }
    false
}

impl View for RetryCommand {
    type V = RetryView;

    closed spec fn view(&self) -> RetryView {
        RetryView {
            program: self.program@,
            args: self.args.deep_view(),
            retry_delay: duration_nanos(self.retry_delay),
            retry_timeout: duration_nanos(self.retry_timeout),
            retry_until: self.retry_until@,
            retry_on: match self.retry_on {
                Some(on) => Some(on@),
                None => None,
            },
            rewrite: self.rewrite@,
        }
    }
}

impl RetryCommand {
    /// A command that is run once, unless the policy is changed.
    pub fn new(program: String, args: Vec<String>) -> (command: RetryCommand)
        ensures
            command@ == default_policy(program@, args.deep_view()),
    {
        let command = RetryCommand {
            program,
            args,
            retry_timeout: Duration::from_secs(0),
            retry_until: vec![0],
            retry_on: None,
            retry_delay: Duration::from_secs(0),
            rewrite: Vec::new(),
        };
        proof {
            assert(command@.retry_until =~= seq![0i32]);
        }
        command
    }

    /// Sets the time after which no further attempt is started.
    pub fn retry_timeout(&mut self, value: Duration) -> (this: &mut Self)
        ensures
            this@ == (RetryView { retry_timeout: duration_nanos(value), ..old(self)@ }),
            *final(self) == *final(this),
    {
        self.retry_timeout = value;
        self
    }

    /// Sets the time to wait before each further attempt.
    pub fn retry_delay(&mut self, value: Duration) -> (this: &mut Self)
        ensures
            this@ == (RetryView { retry_delay: duration_nanos(value), ..old(self)@ }),
            *final(self) == *final(this),
    {
        self.retry_delay = value;
        self
    }

    /// Sets the exit codes that end the run at once.
    pub fn retry_until(&mut self, value: Vec<i32>) -> (this: &mut Self)
        ensures
            this@ == (RetryView { retry_until: value@, ..old(self)@ }),
            *final(self) == *final(this),
    {
        self.retry_until = value;
        self
    }

    /// Restricts the exit codes that are worth another attempt.
    pub fn retry_on(&mut self, value: Vec<i32>) -> (this: &mut Self)
        ensures
            this@ == (RetryView { retry_on: Some(value@), ..old(self)@ }),
            *final(self) == *final(this),
    {
        self.retry_on = Some(value);
        self
    }

    /// Sets the pairs by which the final exit code is replaced.
    pub fn rewrite(&mut self, value: Vec<(i32, i32)>) -> (this: &mut Self)
        ensures
            this@ == (RetryView { rewrite: value@, ..old(self)@ }),
            *final(self) == *final(this),
    {
        self.rewrite = value;
        self
    }

    /// The executable.
    pub fn program(&self) -> (program: &String)
        ensures
            program@ == self@.program,
    {
        &self.program
    }

    /// The arguments of the executable.
    pub fn args(&self) -> (args: &Vec<String>)
        ensures
            args.deep_view() == self@.args,
    {
        &self.args
    }

    /// The exit code that is reported in the place of `code`.
    pub fn rewrite_code(&self, code: i32) -> (out: i32)
        ensures
            out == rewritten(self@.rewrite, code as int),
    {
        let mut i: usize = self.rewrite.len();
        proof {
            assert(self.rewrite@.take(i as int) =~= self.rewrite@);
        }
        while i > 0
            invariant
                i <= self.rewrite.len(),
                rewritten(self.rewrite@, code as int) == rewritten(
                    self.rewrite@.take(i as int),
                    code as int,
                ),
            decreases i,
        {
            i -= 1;
            let (from_code, to_code) = self.rewrite[i];
            proof {
                let longer = self.rewrite@.take(i + 1);
                assert(longer.drop_last() =~= self.rewrite@.take(i as int));
            }
            if from_code == code {
                return to_code;
            }
        }
        code
    }

    /// Whether the run ends after an attempt that gave `code`, `elapsed`
    /// after the run began.
    pub fn should_stop(&self, code: i32, elapsed: Duration) -> (stop: bool)
        ensures
            stop == stops(self@, code as int, duration_nanos(elapsed)),
            in_codes(self@.retry_until, code as int) ==> stop,
            (self@.retry_on matches Some(on) && !in_codes(on, code as int)) ==> stop,
    {
        if contains_code(&self.retry_until, code) {
            return true;
        }
        let unwanted = match &self.retry_on {
            Some(retry_on) => !contains_code(retry_on, code),
            None => false,
        };
        unwanted || elapsed.as_nanos() >= self.retry_timeout.as_nanos()
    }

    /// Decides what follows an attempt that ended in `outcome`, `elapsed`
    /// after the run began.
    pub fn after_attempt(&self, outcome: &ProcessOutcome, elapsed: Duration) -> (next: Result<
        Step,
        UnresolvedStatus,
    >)
        requires
            representable(outcome@),
        ensures
            step_view(next) == next_step(self@, outcome@, duration_nanos(elapsed)),
    {
        match outcome.exit_code() {
            Err(e) => Err(e),
            Ok(status) => {
                let ResolvedStatus { code, diagnostic } = status;
                if self.should_stop(code, elapsed) {
                    Ok(Step::Done { code: self.rewrite_code(code), diagnostic })
                } else {
                    Ok(Step::Retry { delay: self.retry_delay, diagnostic })
                }
            },
        }
    }
}

/// A code that is accepted ends the run, whatever the codes that are worth
/// another attempt and whatever the time.
pub proof fn lemma_accepted_code_stops(policy: RetryView, code: int, elapsed: nat)
    requires
        in_codes(policy.retry_until, code),
    ensures
        stops(policy, code, elapsed),
{
}

/// Where the codes that are worth another attempt are restricted, any other
/// code ends the run at once, however much time is left.
pub proof fn lemma_unwanted_code_stops(policy: RetryView, code: int, elapsed: nat)
    requires
        policy.retry_on is Some,
        !in_codes(policy.retry_on->Some_0, code),
        !in_codes(policy.retry_until, code),
    ensures
        stops(policy, code, elapsed),
{
}

/// Without a timeout no attempt is followed by another: the run ends after
/// the first, or fails on it.
pub proof fn lemma_no_timeout_no_retry(policy: RetryView, outcome: OutcomeView, elapsed: nat)
    requires
        policy.retry_timeout == 0,
    ensures
        !(next_step(policy, outcome, elapsed) matches Ok(StepView::Retry { .. })),
{
}

/// By the default policy a command is run once, and its exit code is
/// reported as it is.
pub proof fn lemma_default_policy_runs_once(
    program: Seq<char>,
    args: Seq<Seq<char>>,
    outcome: OutcomeView,
    elapsed: nat,
)
    ensures
        match resolve(outcome) {
            Ok(status) => next_step(default_policy(program, args), outcome, elapsed) == Ok::<
                StepView,
                UnresolvedView,
            >(StepView::Done { code: status.code, diagnostic: status.diagnostic }),
            Err(error) => next_step(default_policy(program, args), outcome, elapsed) == Err::<
                StepView,
                UnresolvedView,
            >(error),
        },
{
}

/// Of several pairs for one code the last one counts.
pub proof fn lemma_last_rewrite_wins(table: Seq<(i32, i32)>, code: int, i: int)
    requires
        0 <= i < table.len(),
        table[i].0 == code,
        forall|j: int| i < j < table.len() ==> table[j].0 != code,
    ensures
        rewritten(table, code) == table[i].1,
    decreases table.len(),
{
    if i < table.len() - 1 {
        lemma_last_rewrite_wins(table.drop_last(), code, i);
    }
}

/// A code for which the table has no pair stays as it is.
pub proof fn lemma_unmatched_code_stays(table: Seq<(i32, i32)>, code: int)
    requires
        forall|j: int| 0 <= j < table.len() ==> table[j].0 != code,
    ensures
        rewritten(table, code) == code,
    decreases table.len(),
{
    if table.len() > 0 {
        lemma_unmatched_code_stays(table.drop_last(), code);
    }
}

} // verus!
