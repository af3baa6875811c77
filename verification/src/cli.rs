//! From the command line to a command and its policy.

use crate::cli_error::{CliError, CliErrorView};
use crate::getopts_specs::{
    all_named, arguments, declare, fail_view, first_argument, free_arguments, matches_view,
    optflag, optmulti, optopt, options_view, parse_outcome, parse_with, usage_text,
    FailView, HasArgument, MatchesView, Occurrence, OptionDecl, OptionsView,
};
use crate::numbers::{numeral_i32, FromArgument};
use crate::text::text_view;
use crate::{RetryCommand, RetryView};
use getopts::{Fail, Matches, Options};
use std::time::Duration;
use vstd::prelude::*;
use vstd::slice::slice_subrange;
use vstd::string::*;

verus! {

/// The name of the program.
pub const NAME: &'static str = "retry";

/// Mathematical value of a result whose error is a `CliError`.
pub open spec fn value_view<T>(r: Result<T, CliError>) -> Result<T, CliErrorView> {
    match r {
        Ok(value) => Ok(value),
        Err(error) => Err(error@),
    }
}

/// Mathematical value of a list that was read, or of the error.
pub open spec fn values_view<T>(r: Result<Vec<T>, CliError>) -> Result<Seq<T>, CliErrorView> {
    match r {
        Ok(values) => Ok(values@),
        Err(error) => Err(error@),
    }
}

/// The value that the argument `s` denotes; where it denotes none, `s` is
/// reported as invalid.
pub open spec fn argument_value<F: FromArgument>(s: Seq<char>) -> Result<F, CliErrorView> {
    match F::denoted(s) {
        Some(value) => Ok(value),
        None => Err(CliErrorView::InvalidArgumentValue(s)),
    }
}

/// The values that the arguments denote, in order; where one denotes none,
/// the first such is reported as invalid.
pub open spec fn argument_values<F: FromArgument>(arguments: Seq<Seq<char>>) -> Result<
    Seq<F>,
    CliErrorView,
>
    decreases arguments.len(),
{
    if arguments.len() == 0 {
        Ok(Seq::empty())
    } else {
        match argument_values::<F>(arguments.drop_last()) {
            Err(error) => Err(error),
            Ok(front) => match argument_value::<F>(arguments.last()) {
                Err(error) => Err(error),
                Ok(value) => Ok(front.push(value)),
            },
        }
    }
}

/// Whether `s` has its only `=` at `k`.
pub open spec fn separates(s: Seq<char>, k: int) -> bool {
    &&& 0 <= k < s.len()
    &&& s[k] == '='
    &&& forall|j: int| 0 <= j < s.len() && j != k ==> s[j] != '='
}

/// The pair of exit codes that `s` denotes: two numerals with one `=`
/// between them. Where `s` does not hold exactly one `=`, `s` is reported as
/// invalid; else the first of the two parts that denotes no exit code.
pub open spec fn rewrite_pair(s: Seq<char>) -> Result<(i32, i32), CliErrorView> {
    if exists|k: int| separates(s, k) {
        let k = choose|k: int| separates(s, k);
        let left = s.subrange(0, k);
        let right = s.subrange(k + 1, s.len() as int);
        match numeral_i32(left) {
            None => Err(CliErrorView::InvalidArgumentValue(left)),
            Some(from) => match numeral_i32(right) {
                None => Err(CliErrorView::InvalidArgumentValue(right)),
                Some(to) => Ok((from, to)),
            },
        }
    } else {
        Err(CliErrorView::InvalidArgumentValue(s))
    }
}

/// The pairs that the arguments denote, in order; where one denotes none,
/// the error of the first such.
pub open spec fn rewrite_pairs(arguments: Seq<Seq<char>>) -> Result<
    Seq<(i32, i32)>,
    CliErrorView,
>
    decreases arguments.len(),
{
    if arguments.len() == 0 {
        Ok(Seq::empty())
    } else {
        match rewrite_pairs(arguments.drop_last()) {
            Err(error) => Err(error),
            Ok(front) => match rewrite_pair(arguments.last()) {
                Err(error) => Err(error),
                Ok(pair) => Ok(front.push(pair)),
            },
        }
    }
}

/// Reads the value of an option.
pub fn parse<F: FromArgument>(string: &str) -> (r: Result<F, CliError>)
    ensures
        value_view(r) == argument_value::<F>(string@),
{
    match F::from_argument(string) {
        Some(value) => Ok(value),
        None => Err(CliError::InvalidArgumentValue(string.to_owned())),
    }
}

/// Reads a pair of exit codes, written `A=B`.
pub fn parse_rewrite(rewrite: &String) -> (r: Result<(i32, i32), CliError>)
    ensures
        value_view(r) == rewrite_pair(rewrite@),
{
    let text = rewrite.as_str();
    let length = text.unicode_len();
    let mut first: usize = length;
    let mut count: usize = 0;
    let mut i: usize = 0;
    while i < length
        invariant
            i <= length,
            length == text@.len(),
            count <= i,
            count == 0 ==> first == length && forall|j: int| 0 <= j < i ==> text@[j] != '=',
            count >= 1 ==> first < i && text@[first as int] == '=' && forall|j: int|
                0 <= j < first ==> text@[j] != '=',
            count == 1 ==> forall|j: int| first < j < i ==> text@[j] != '=',
            count >= 2 ==> exists|j: int| first < j < i && text@[j] == '=',
        decreases length - i,
    {
        if text.get_char(i) == '=' {
            if count == 0 {
                first = i;
            }
            count += 1;
        }
        i += 1;
    }
    if count == 1 {
        proof {
            assert(separates(text@, first as int));
        }
        let from = match parse::<i32>(text.substring_char(0, first)) {
            Ok(code) => code,
            Err(error) => {
                return Err(error);
            },
        };
        let to = match parse::<i32>(text.substring_char(first + 1, length)) {
            Ok(code) => code,
            Err(error) => {
                return Err(error);
            },
        };
        Ok((from, to))
    } else {
        Err(CliError::InvalidArgumentValue(rewrite.clone()))
    }
}

/// Reads the values of an option that was given several times.
pub fn parse_all<F: FromArgument>(strings: &Vec<String>) -> (r: Result<Vec<F>, CliError>)
    ensures
        values_view(r) == argument_values::<F>(strings.deep_view()),
{
    let mut values: Vec<F> = Vec::new();
    let mut i: usize = 0;
    while i < strings.len()
        invariant
            i <= strings.len(),
            argument_values::<F>(strings.deep_view().take(i as int)) == Ok::<
                Seq<F>,
                CliErrorView,
            >(values@),
        decreases strings.len() - i,
    {
        proof {
            let longer = strings.deep_view().take(i + 1);
            assert(longer.drop_last() =~= strings.deep_view().take(i as int));
            lemma_values_fail_for_good::<F>(strings.deep_view(), i + 1);
        }
        match parse::<F>(strings[i].as_str()) {
            Ok(value) => {
                values.push(value);
            },
            Err(error) => {
                return Err(error);
            },
        }
        i += 1;
    }
    proof {
        assert(strings.deep_view().take(i as int) =~= strings.deep_view());
    }
    Ok(values)
}

/// Reads the pairs of an option that was given several times.
pub fn parse_rewrites(strings: &Vec<String>) -> (r: Result<Vec<(i32, i32)>, CliError>)
    ensures
        values_view(r) == rewrite_pairs(strings.deep_view()),
{
    let mut pairs: Vec<(i32, i32)> = Vec::new();
    let mut i: usize = 0;
    while i < strings.len()
        invariant
            i <= strings.len(),
            rewrite_pairs(strings.deep_view().take(i as int)) == Ok::<
                Seq<(i32, i32)>,
                CliErrorView,
            >(pairs@),
        decreases strings.len() - i,
    {
        proof {
            let longer = strings.deep_view().take(i + 1);
            assert(longer.drop_last() =~= strings.deep_view().take(i as int));
            lemma_pairs_fail_for_good(strings.deep_view(), i + 1);
        }
        match parse_rewrite(&strings[i]) {
            Ok(pair) => {
                pairs.push(pair);
            },
            Err(error) => {
                return Err(error);
            },
        }
        i += 1;
    }
    proof {
        assert(strings.deep_view().take(i as int) =~= strings.deep_view());
    }
    Ok(pairs)
}

/// An error among the first `n` arguments is the error of them all.
proof fn lemma_values_fail_for_good<F: FromArgument>(arguments: Seq<Seq<char>>, n: int)
    requires
        0 <= n <= arguments.len(),
    ensures
        argument_values::<F>(arguments.take(n)) is Err ==> argument_values::<F>(arguments)
            == argument_values::<F>(arguments.take(n)),
    decreases arguments.len() - n,
{
    if n < arguments.len() {
        assert(arguments.take(n + 1).drop_last() =~= arguments.take(n));
        lemma_values_fail_for_good::<F>(arguments, n + 1);
    } else {
        assert(arguments.take(n) =~= arguments);
    }
}

/// An error among the first `n` arguments is the error of them all.
proof fn lemma_pairs_fail_for_good(arguments: Seq<Seq<char>>, n: int)
    requires
        0 <= n <= arguments.len(),
    ensures
        rewrite_pairs(arguments.take(n)) is Err ==> rewrite_pairs(arguments) == rewrite_pairs(
            arguments.take(n),
        ),
    decreases arguments.len() - n,
{
    if n < arguments.len() {
        assert(arguments.take(n + 1).drop_last() =~= arguments.take(n));
        lemma_pairs_fail_for_good(arguments, n + 1);
    } else {
        assert(arguments.take(n) =~= arguments);
    }
}

/// The values of the options as they stand on the command line.
#[derive(Clone, Debug, PartialEq, Eq)]
pub struct OptionValues {
    /// The command and its arguments.
    pub free: Vec<String>,
    /// Seconds after which no further attempt is started.
    pub retry_timeout: Option<String>,
    /// Seconds to wait before each further attempt.
    pub retry_delay: Option<String>,
    /// The exit codes that are worth another attempt.
    pub retry_on: Vec<String>,
    /// The exit codes that end the run at once, if any was given.
    pub retry_until: Option<Vec<String>>,
    /// The pairs by which the final exit code is replaced.
    pub rewrite: Vec<String>,
}

/// Mathematical value of an `OptionValues`.
pub struct OptionValuesView {
    pub free: Seq<Seq<char>>,
    pub retry_timeout: Option<Seq<char>>,
    pub retry_delay: Option<Seq<char>>,
    pub retry_on: Seq<Seq<char>>,
    pub retry_until: Option<Seq<Seq<char>>>,
    pub rewrite: Seq<Seq<char>>,
}

impl View for OptionValues {
    type V = OptionValuesView;

    open spec fn view(&self) -> OptionValuesView {
        OptionValuesView {
            free: self.free.deep_view(),
            retry_timeout: text_view(self.retry_timeout),
            retry_delay: text_view(self.retry_delay),
            retry_on: self.retry_on.deep_view(),
            retry_until: match self.retry_until {
                Some(codes) => Some(codes.deep_view()),
                None => None,
            },
            rewrite: self.rewrite.deep_view(),
        }
    }
}

/// Whether the option `name` occurs among `matches`.
pub open spec fn is_given(matches: MatchesView, name: Seq<char>) -> bool {
    matches.given.dom().contains(name) && matches.given[name].len() > 0
}

/// The argument of the first occurrence of the option `name`.
pub open spec fn value_given(matches: MatchesView, name: Seq<char>) -> Option<Seq<char>> {
    if matches.given.dom().contains(name) {
        first_argument(matches.given[name])
    } else {
        None
    }
}

/// The arguments of all occurrences of the option `name`.
pub open spec fn values_given(matches: MatchesView, name: Seq<char>) -> Seq<Seq<char>> {
    if matches.given.dom().contains(name) {
        arguments(matches.given[name])
    } else {
        Seq::empty()
    }
}

/// The values of the options among `matches`.
pub open spec fn read_options(matches: MatchesView) -> OptionValuesView {
    OptionValuesView {
        free: matches.free,
        retry_timeout: value_given(matches, "retry-timeout"@),
        retry_delay: value_given(matches, "retry-delay"@),
        retry_on: values_given(matches, "retry-on"@),
        retry_until: if is_given(matches, "retry-until"@) {
            Some(values_given(matches, "retry-until"@))
        } else {
            None
        },
        rewrite: values_given(matches, "rewrite"@),
    }
}

/// The number of seconds that an optional argument denotes.
pub open spec fn seconds_given(argument: Option<Seq<char>>) -> Result<Option<u64>, CliErrorView> {
    match argument {
        None => Ok(None),
        Some(text) => match argument_value::<u64>(text) {
            Err(error) => Err(error),
            Ok(seconds) => Ok(Some(seconds)),
        },
    }
}

/// The exit codes that optional arguments denote.
pub open spec fn codes_given(arguments: Option<Seq<Seq<char>>>) -> Result<
    Option<Seq<i32>>,
    CliErrorView,
> {
    match arguments {
        None => Ok(None),
        Some(texts) => match argument_values::<i32>(texts) {
            Err(error) => Err(error),
            Ok(codes) => Ok(Some(codes)),
        },
    }
}

/// A number of seconds in nanoseconds; nothing where none was given.
pub open spec fn nanos_given(seconds: Option<u64>) -> nat {
    match seconds {
        Some(s) => (s * 1_000_000_000) as nat,
        None => 0,
    }
}

/// The command and the policy that the values describe: the first free
/// argument is the executable, the others are its arguments, and each option
/// that was given replaces a part of the default policy. The first value that
/// denotes nothing is the error, in the order timeout, delay, retry-on,
/// retry-until, rewrite.
pub open spec fn configured(values: OptionValuesView) -> Result<RetryView, CliErrorView> {
    match seconds_given(values.retry_timeout) {
        Err(error) => Err(error),
        Ok(timeout) => match seconds_given(values.retry_delay) {
            Err(error) => Err(error),
            Ok(delay) => match argument_values::<i32>(values.retry_on) {
                Err(error) => Err(error),
                Ok(on) => match codes_given(values.retry_until) {
                    Err(error) => Err(error),
                    Ok(until) => match rewrite_pairs(values.rewrite) {
                        Err(error) => Err(error),
                        Ok(rewrite) => Ok(
                            RetryView {
                                program: values.free[0],
                                args: values.free.skip(1),
                                retry_timeout: nanos_given(timeout),
                                retry_delay: nanos_given(delay),
                                retry_until: match until {
                                    Some(codes) => codes,
                                    None => seq![0i32],
                                },
                                retry_on: if values.retry_on.len() > 0 {
                                    Some(on)
                                } else {
                                    None
                                },
                                rewrite,
                            },
                        ),
                    },
                },
            },
        },
    }
}

/// Mathematical value of a command that was configured, or of the error.
pub open spec fn command_view(r: Result<RetryCommand, CliError>) -> Result<
    RetryView,
    CliErrorView,
> {
    match r {
        Ok(command) => Ok(command@),
        Err(error) => Err(error@),
    }
}

/// Whether the option `name` occurs among `matches`.
fn option_given(matches: &Matches, name: &str) -> (given: bool)
    ensures
        given == is_given(matches_view(*matches), name@),
{
    matches.opt_defined(name) && matches.opt_present(name)
}

/// The argument of the first occurrence of the option `name`.
fn option_value(matches: &Matches, name: &str) -> (value: Option<String>)
    ensures
        text_view(value) == value_given(matches_view(*matches), name@),
{
    if matches.opt_defined(name) {
        matches.opt_str(name)
    } else {
        None
    }
}

/// The arguments of all occurrences of the option `name`.
fn option_values_of(matches: &Matches, name: &str) -> (values: Vec<String>)
    ensures
        values.deep_view() == values_given(matches_view(*matches), name@),
{
    if matches.opt_defined(name) {
        matches.opt_strs(name)
    } else {
        let none: Vec<String> = Vec::new();
        none
    }
}

/// Takes the values of the options out of `matches`.
pub fn option_values(matches: &Matches) -> (values: OptionValues)
    ensures
        values@ == read_options(matches_view(*matches)),
{
    let retry_until = if option_given(matches, "retry-until") {
        Some(option_values_of(matches, "retry-until"))
    } else {
        None
    };
    OptionValues {
        free: free_arguments(matches),
        retry_timeout: option_value(matches, "retry-timeout"),
        retry_delay: option_value(matches, "retry-delay"),
        retry_on: option_values_of(matches, "retry-on"),
        retry_until,
        rewrite: option_values_of(matches, "rewrite"),
    }
}

/// Reads an optional number of seconds.
fn parse_seconds(argument: &Option<String>) -> (r: Result<Option<u64>, CliError>)
    ensures
        value_view(r) == seconds_given(text_view(*argument)),
{
    match argument {
        None => Ok(None),
        Some(text) => match parse::<u64>(text.as_str()) {
            Err(error) => Err(error),
            Ok(seconds) => Ok(Some(seconds)),
        },
    }
}

/// Builds the command and the policy that the values describe.
pub fn configure(values: &OptionValues) -> (r: Result<RetryCommand, CliError>)
    requires
        values.free.len() >= 1,
    ensures
        command_view(r) == configured(values@),
{
    let program = values.free[0].clone();
    let mut args: Vec<String> = Vec::new();
    let mut i: usize = 1;
    while i < values.free.len()
        invariant
            1 <= i <= values.free.len(),
            args@.len() == i - 1,
            forall|j: int| 0 <= j < args@.len() ==> args@[j]@ == values.free@[j + 1]@,
        decreases values.free.len() - i,
    {
        args.push(values.free[i].clone());
        i += 1;
    }
    proof {
        assert(args.deep_view() =~= values@.free.skip(1));
    }
    let mut command = RetryCommand::new(program, args);
    let timeout = match parse_seconds(&values.retry_timeout) {
        Err(error) => {
            return Err(error);
        },
        Ok(timeout) => timeout,
    };
    if let Some(seconds) = timeout {
        command.retry_timeout(Duration::from_secs(seconds));
    }
    let delay = match parse_seconds(&values.retry_delay) {
        Err(error) => {
            return Err(error);
        },
        Ok(delay) => delay,
    };
    if let Some(seconds) = delay {
        command.retry_delay(Duration::from_secs(seconds));
    }
    let on = match parse_all::<i32>(&values.retry_on) {
        Err(error) => {
            return Err(error);
        },
        Ok(on) => on,
    };
    if values.retry_on.len() > 0 {
        command.retry_on(on);
    }
    if let Some(texts) = &values.retry_until {
        match parse_all::<i32>(texts) {
            Err(error) => {
                return Err(error);
            },
            Ok(until) => {
                command.retry_until(until);
            },
        }
    }
    match parse_rewrites(&values.rewrite) {
        Err(error) => {
            return Err(error);
        },
        Ok(rewrite) => {
            command.rewrite(rewrite);
        },
    }
    Ok(command)
}

/// Builds the command and the policy that the options among `matches` describe.
pub fn from_opts(matches: &Matches) -> (r: Result<RetryCommand, CliError>)
    requires
        matches_view(*matches).free.len() >= 1,
    ensures
        command_view(r) == configured(read_options(matches_view(*matches))),
{
    let values = option_values(matches);
    configure(&values)
}

/// An option with an argument and with a long name only.
pub open spec fn long_option(
    long_name: Seq<char>,
    desc: Seq<char>,
    hint: Seq<char>,
    occur: Occurrence,
) -> OptionDecl {
    OptionDecl {
        short_name: Seq::empty(),
        long_name,
        hint,
        desc,
        hasarg: HasArgument::Yes,
        occur,
    }
}

/// An option without an argument that may be given once.
pub open spec fn flag(short_name: Seq<char>, long_name: Seq<char>, desc: Seq<char>) -> OptionDecl {
    OptionDecl {
        short_name,
        long_name,
        hint: Seq::empty(),
        desc,
        hasarg: HasArgument::No,
        occur: Occurrence::Optional,
    }
}

/// The options of the command line, in the order of the usage text.
pub open spec fn retry_options() -> OptionsView {
    let none = OptionsView { groups: Seq::empty(), stop_at_first_free: false, long_only: false };
    let timeout = long_option(
        "retry-timeout"@,
        "retry up to timeout seconds, then exit with status 127"@,
        "TIMEOUT"@,
        Occurrence::Optional,
    );
    let delay = long_option(
        "retry-delay"@,
        "wait delay seconds between each retry"@,
        "DELAY"@,
        Occurrence::Optional,
    );
    let until = long_option(
        "retry-until"@,
        "retry until the exit code is one of the listed values (default 0)"@,
        "EXITCODE"@,
        Occurrence::Multi,
    );
    let on = long_option(
        "retry-on"@,
        "retry if the exit code is one of the listed values"@,
        "EXITCODE"@,
        Occurrence::Multi,
    );
    let rewrite = long_option(
        "rewrite"@,
        "if the final exit status is a, change it to b; this happens after --retry-on/until processing"@,
        "<A>=<B>"@,
        Occurrence::Multi,
    );
    let help = flag("h"@, "help"@, "display this help and exit"@);
    let version = flag("V"@, "version"@, "output version information and exit"@);
    declare(
        declare(
            declare(
                declare(declare(declare(declare(none, timeout), delay), until), on),
                rewrite,
            ),
            help,
        ),
        version,
    )
}

/// Mathematical value of the result of `parse_args`.
pub open spec fn parsed_view(r: Result<(Options, Matches), Fail>) -> Result<
    MatchesView,
    FailView,
> {
    match r {
        Ok((_, matches)) => Ok(matches_view(matches)),
        Err(fail) => Err(fail_view(fail)),
    }
}

/// Declares the options of the command line.
pub fn declare_options() -> (options: Options)
    ensures
        options_view(options) == retry_options(),
        all_named(options_view(options)),
{
    proof {
        reveal_strlit("");
        reveal_strlit("retry-timeout");
        reveal_strlit("retry-delay");
        reveal_strlit("retry-until");
        reveal_strlit("retry-on");
        reveal_strlit("rewrite");
        reveal_strlit("h");
        reveal_strlit("help");
        reveal_strlit("V");
        reveal_strlit("version");
        assert(""@ =~= Seq::<char>::empty());
    }
    let mut options = Options::new();
    optopt(
        &mut options,
        "",
        "retry-timeout",
        "retry up to timeout seconds, then exit with status 127",
        "TIMEOUT",
    );
    optopt(&mut options, "", "retry-delay", "wait delay seconds between each retry", "DELAY");
    optmulti(
        &mut options,
        "",
        "retry-until",
        "retry until the exit code is one of the listed values (default 0)",
        "EXITCODE",
    );
    optmulti(
        &mut options,
        "",
        "retry-on",
        "retry if the exit code is one of the listed values",
        "EXITCODE",
    );
    optmulti(
        &mut options,
        "",
        "rewrite",
        "if the final exit status is a, change it to b; this happens after --retry-on/until processing",
        "<A>=<B>",
    );
    optflag(&mut options, "h", "help", "display this help and exit");
    optflag(&mut options, "V", "version", "output version information and exit");
    options
}

/// Declares the options and reads the arguments by them.
pub fn parse_args(args: &[String]) -> (r: Result<(Options, Matches), Fail>)
    ensures
        parsed_view(r) == parse_outcome(retry_options(), args.deep_view()),
        r matches Ok((options, _)) ==> options_view(options) == retry_options(),
{
    let options = declare_options();
    match parse_with(&options, args) {
        Ok(matches) => Ok((options, matches)),
        Err(fail) => Err(fail),
    }
}

/// What the command line asks for.
#[derive(Debug, PartialEq)]
pub enum Invocation {
    /// The usage text, for these options.
    Help(Options),
    /// The version of the program.
    Version,
    /// A run of this command.
    Run(RetryCommand),
}

/// Mathematical value of an `Invocation`.
pub enum InvocationView {
    Help(OptionsView),
    Version,
    Run(RetryView),
}

impl View for Invocation {
    type V = InvocationView;

    open spec fn view(&self) -> InvocationView {
        match self {
            Invocation::Help(options) => InvocationView::Help(options_view(*options)),
            Invocation::Version => InvocationView::Version,
            Invocation::Run(command) => InvocationView::Run(command@),
        }
    }
}

/// Mathematical value of the result of `plan`.
pub open spec fn plan_view(r: Result<Invocation, CliError>) -> Result<
    InvocationView,
    CliErrorView,
> {
    match r {
        Ok(invocation) => Ok(invocation@),
        Err(error) => Err(error@),
    }
}

/// What a command line asks for, once the options have been read: the usage
/// text if `--help` is given; else the version if `--version` is given; else
/// a run of the command that the free arguments name, by the policy that the
/// options describe. It is an error to name no command.
pub open spec fn planned(parsed: Result<MatchesView, FailView>) -> Result<
    InvocationView,
    CliErrorView,
> {
    match parsed {
        Err(fail) => Err(CliErrorView::Arguments(fail)),
        Ok(matches) => if is_given(matches, "help"@) {
            Ok(InvocationView::Help(retry_options()))
        } else if is_given(matches, "version"@) {
            Ok(InvocationView::Version)
        } else if matches.free.len() < 1 {
            Err(CliErrorView::Arguments(FailView::ArgumentMissing("-- COMMAND"@)))
        } else {
            match configured(read_options(matches)) {
                Err(error) => Err(error),
                Ok(command) => Ok(InvocationView::Run(command)),
            }
        },
    }
}

/// Decides what the command line `args` asks for. Its first part is the
/// name under which the program was called.
pub fn plan(args: Vec<String>) -> (r: Result<Invocation, CliError>)
    requires
        args.len() >= 1,
    ensures
        plan_view(r) == planned(parse_outcome(retry_options(), args.deep_view().skip(1))),
{
    let rest = slice_subrange(args.as_slice(), 1, args.len());
    proof {
        assert(rest.deep_view() =~= args.deep_view().skip(1));
    }
    let (options, matches) = match parse_args(rest) {
        Err(fail) => {
            return Err(CliError::Arguments(fail));
        },
        Ok(parsed) => parsed,
    };
    if option_given(&matches, "help") {
        Ok(Invocation::Help(options))
    } else if option_given(&matches, "version") {
        Ok(Invocation::Version)
    } else if free_arguments(&matches).len() < 1 {
        Err(CliError::Arguments(Fail::ArgumentMissing("-- COMMAND".to_owned())))
    } else {
        match from_opts(&matches) {
            Err(error) => Err(error),
            Ok(command) => Ok(Invocation::Run(command)),
        }
    }
}

/// The text that `--help` asks for, for the program in this version, called
/// under this name.
pub open spec fn usage_view(version: Seq<char>, program: Seq<char>, options: OptionsView) -> Seq<
    char,
> {
    NAME@ + " "@ + version + "\n\nUsage:\n"@ + program + " [OPTIONS] -- COMMAND [ARGS]...\n\n"@
        + usage_text(options, ""@)
}

/// Writes the text that `--help` asks for.
pub fn usage_message(version: &str, program: &str, options: &Options) -> (text: String)
    ensures
        text@ == usage_view(version@, program@, options_view(*options)),
{
    let mut text = NAME.to_owned();
    text.append(" ");
    text.append(version);
    text.append("\n\nUsage:\n");
    text.append(program);
    text.append(" [OPTIONS] -- COMMAND [ARGS]...\n\n");
    text.append(options.usage("").as_str());
    text
}

/// Writes the text that `--version` asks for.
pub fn version_message(version: &str) -> (text: String)
    ensures
        text@ == NAME@ + " "@ + version@,
{
    let mut text = NAME.to_owned();
    text.append(" ");
    text.append(version);
    text
}

} // verus!
