//! What the library assumes of the `getopts` crate.

use crate::text::text_view;
use getopts::{Fail, Matches, Options};
use vstd::prelude::*;
use vstd::string::*;
use vstd::utf8::is_ascii_chars;

verus! {

/// `getopts::Options`, of which only `options_view` is known.
#[verifier::external_type_specification]
#[verifier::external_body]
pub struct ExOptions(Options);

/// `getopts::Matches`, of which only `matches_view` is known.
#[verifier::external_type_specification]
#[verifier::external_body]
pub struct ExMatches(Matches);

/// `getopts::Fail`, with its five variants, each around the name of an option.
#[verifier::external_type_specification]
pub struct ExFail(Fail);

/// Whether an option takes an argument, as `getopts::HasArg` says it.
pub enum HasArgument {
    Yes,
    No,
    Maybe,
}

/// How often an option may occur, as `getopts::Occur` says it.
pub enum Occurrence {
    Req,
    Optional,
    Multi,
}

/// One option as `Options` holds it.
pub struct OptionDecl {
    /// The name after a single dash: one character, or none.
    pub short_name: Seq<char>,
    /// The name after two dashes, or none.
    pub long_name: Seq<char>,
    /// What stands for the argument in the usage text.
    pub hint: Seq<char>,
    /// The description, for the usage text.
    pub desc: Seq<char>,
    pub hasarg: HasArgument,
    pub occur: Occurrence,
}

/// What a value of `Options` holds.
pub struct OptionsView {
    /// The options, in the order in which they were declared.
    pub groups: Seq<OptionDecl>,
    /// Whether the first free argument ends the options.
    pub stop_at_first_free: bool,
    /// Whether a single dash introduces a long name too.
    pub long_only: bool,
}

/// What a value of `Matches` holds.
pub struct MatchesView {
    /// For each name of a declared option, the occurrences of the option in
    /// the order of the command line, each with its argument if it had one.
    pub given: Map<Seq<char>, Seq<Option<Seq<char>>>>,
    /// The arguments that belong to no option.
    pub free: Seq<Seq<char>>,
}

/// Mathematical value of a `Fail`: the kind of failure, and the name of the
/// option that it is about.
pub enum FailView {
    ArgumentMissing(Seq<char>),
    UnrecognizedOption(Seq<char>),
    OptionMissing(Seq<char>),
    OptionDuplicated(Seq<char>),
    UnexpectedArgument(Seq<char>),
}

/// Mathematical value of `fail`.
pub open spec fn fail_view(fail: Fail) -> FailView {
    match fail {
        Fail::ArgumentMissing(name) => FailView::ArgumentMissing(name@),
        Fail::UnrecognizedOption(name) => FailView::UnrecognizedOption(name@),
        Fail::OptionMissing(name) => FailView::OptionMissing(name@),
        Fail::OptionDuplicated(name) => FailView::OptionDuplicated(name@),
        Fail::UnexpectedArgument(name) => FailView::UnexpectedArgument(name@),
    }
}

/// What `o` holds.
pub uninterp spec fn options_view(o: Options) -> OptionsView;

/// What `m` holds.
pub uninterp spec fn matches_view(m: Matches) -> MatchesView;

/// What `Options::parse` makes of a command line.
pub uninterp spec fn parse_outcome(options: OptionsView, args: Seq<Seq<char>>) -> Result<
    MatchesView,
    FailView,
>;

/// What `Options::usage` writes.
pub uninterp spec fn usage_text(options: OptionsView, brief: Seq<char>) -> Seq<char>;

/// `options` with one more option at the end.
pub open spec fn declare(options: OptionsView, option: OptionDecl) -> OptionsView {
    OptionsView { groups: options.groups.push(option), ..options }
}

/// The names that can be declared without a panic: at most one character
/// after a single dash, none or more than one after two. Both in ASCII, where
/// a character is a byte.
pub open spec fn names_accepted(short_name: Seq<char>, long_name: Seq<char>) -> bool {
    &&& is_ascii_chars(short_name)
    &&& is_ascii_chars(long_name)
    &&& short_name.len() <= 1
    &&& long_name.len() != 1
}

/// Whether each option has a name.
pub open spec fn all_named(options: OptionsView) -> bool {
    forall|i: int|
        0 <= i < options.groups.len() ==> (#[trigger] options.groups[i]).short_name.len()
            + options.groups[i].long_name.len() > 0
}

/// The argument of the first occurrence, if there is an occurrence and it has one.
pub open spec fn first_argument(occurrences: Seq<Option<Seq<char>>>) -> Option<Seq<char>> {
    if occurrences.len() > 0 {
        occurrences[0]
    } else {
        None
    }
}

/// The arguments of the occurrences that have one, in order.
pub open spec fn arguments(occurrences: Seq<Option<Seq<char>>>) -> Seq<Seq<char>> {
    occurrences.filter(|o: Option<Seq<char>>| o is Some).map_values(
        |o: Option<Seq<char>>| o->Some_0,
    )
}

/// Mathematical value of the result of a parse.
pub open spec fn parse_view(r: Result<Matches, Fail>) -> Result<MatchesView, FailView> {
    match r {
        Ok(m) => Ok(matches_view(m)),
        Err(f) => Err(fail_view(f)),
    }
}

/// The words in which `getopts` reports a failure.
pub open spec fn fail_text(fail: FailView) -> Seq<char> {
    match fail {
        FailView::ArgumentMissing(name) => "Argument to option '"@ + name + "' missing"@,
        FailView::UnrecognizedOption(name) => "Unrecognized option: '"@ + name + "'"@,
        FailView::OptionMissing(name) => "Required option '"@ + name + "' missing"@,
        FailView::OptionDuplicated(name) => "Option '"@ + name + "' given more than once"@,
        FailView::UnexpectedArgument(name) => "Option '"@ + name
            + "' does not take an argument"@,
    }
}

/// `Options::new`: no options, free arguments anywhere, long names after two
/// dashes only.
pub assume_specification[ Options::new ]() -> (options: Options)
    ensures
        options_view(options) == (OptionsView {
            groups: Seq::empty(),
            stop_at_first_free: false,
            long_only: false,
        }),
;

/// `Options::usage`: the text depends on the options and on `brief` alone.
pub assume_specification[ Options::usage ](options: &Options, brief: &str) -> (text: String)
    ensures
        text@ == usage_text(options_view(*options), brief@),
;

/// `Matches::opt_defined`: whether `name` is a name of a declared option.
pub assume_specification[ Matches::opt_defined ](matches: &Matches, name: &str) -> (defined: bool)
    ensures
        defined == matches_view(*matches).given.dom().contains(name@),
;

/// `Matches::opt_present`: whether the option occurred. It panics on a name
/// that was not declared.
pub assume_specification[ Matches::opt_present ](matches: &Matches, name: &str) -> (present: bool)
    requires
        matches_view(*matches).given.dom().contains(name@),
    ensures
        present == (matches_view(*matches).given[name@].len() > 0),
;

/// `Matches::opt_str`: the argument of the first occurrence of the option. It
/// panics on a name that was not declared.
pub assume_specification[ Matches::opt_str ](matches: &Matches, name: &str) -> (value: Option<
    String,
>)
    requires
        matches_view(*matches).given.dom().contains(name@),
    ensures
        text_view(value) == first_argument(matches_view(*matches).given[name@]),
;

/// `Matches::opt_strs`: the arguments of all occurrences of the option. It
/// panics on a name that was not declared.
pub assume_specification[ Matches::opt_strs ](matches: &Matches, name: &str) -> (values: Vec<
    String,
>)
    requires
        matches_view(*matches).given.dom().contains(name@),
    ensures
        values.deep_view() == arguments(matches_view(*matches).given[name@]),
;

/// `Options::optflag`: declares an option without an argument that may be
/// given once.
#[verifier::external_body]
pub(crate) fn optflag(options: &mut Options, short_name: &str, long_name: &str, desc: &str)
    requires
        names_accepted(short_name@, long_name@),
    ensures
        options_view(*final(options)) == declare(
            options_view(*old(options)),
            OptionDecl {
                short_name: short_name@,
                long_name: long_name@,
                hint: Seq::empty(),
                desc: desc@,
                hasarg: HasArgument::No,
                occur: Occurrence::Optional,
            },
        ),
{
    options.optflag(short_name, long_name, desc);
}

/// `Options::optopt`: declares an option with an argument that may be given
/// once.
#[verifier::external_body]
pub(crate) fn optopt(
    options: &mut Options,
    short_name: &str,
    long_name: &str,
    desc: &str,
    hint: &str,
)
    requires
        names_accepted(short_name@, long_name@),
    ensures
        options_view(*final(options)) == declare(
            options_view(*old(options)),
            OptionDecl {
                short_name: short_name@,
                long_name: long_name@,
                hint: hint@,
                desc: desc@,
                hasarg: HasArgument::Yes,
                occur: Occurrence::Optional,
            },
        ),
{
    options.optopt(short_name, long_name, desc, hint);
}

/// `Options::optmulti`: declares an option with an argument that may be
/// given any number of times.
#[verifier::external_body]
pub(crate) fn optmulti(
    options: &mut Options,
    short_name: &str,
    long_name: &str,
    desc: &str,
    hint: &str,
)
    requires
        names_accepted(short_name@, long_name@),
    ensures
        options_view(*final(options)) == declare(
            options_view(*old(options)),
            OptionDecl {
                short_name: short_name@,
                long_name: long_name@,
                hint: hint@,
                desc: desc@,
                hasarg: HasArgument::Yes,
                occur: Occurrence::Multi,
            },
        ),
{
    options.optmulti(short_name, long_name, desc, hint);
}

/// `Options::parse`: what it makes of a command line depends on the options
/// and on the arguments alone. It panics on an option without a name.
#[verifier::external_body]
pub(crate) fn parse_with(options: &Options, args: &[String]) -> (r: Result<Matches, Fail>)
    requires
        all_named(options_view(*options)),
    ensures
        parse_view(r) == parse_outcome(options_view(*options), args.deep_view()),
{
    options.parse(args)
}

/// The field `free` of `Matches`: the arguments that belong to no option.
#[verifier::external_body]
pub(crate) fn free_arguments(matches: &Matches) -> (free: Vec<String>)
    ensures
        free.deep_view() == matches_view(*matches).free,
{
    matches.free.clone()
}

/// `Fail`'s `Display`: the failure in words, around the option's name.
#[verifier::external_body]
pub(crate) fn fail_message(fail: &Fail) -> (text: String)
    ensures
        text@ == fail_text(fail_view(*fail)),
{
    fail.to_string()
}

} // verus!
