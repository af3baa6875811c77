use getopts::Fail;
use retry_command::cli::{
    configure, declare_options, from_opts, option_values, parse, parse_all, parse_args,
    parse_rewrite, parse_rewrites, plan, usage_message, version_message, Invocation,
    OptionValues, NAME,
};
use retry_command::cli_error::{CliError, ERR_EXIT_STATUS};
use retry_command::exit_code_ext::UnresolvedStatus;
use retry_command::numbers::FromArgument;
use retry_command::RetryCommand;
use std::time::Duration;

fn strings(items: &[&str]) -> Vec<String> {
    items.iter().map(|s| s.to_string()).collect()
}

fn invalid(value: &str) -> CliError {
    CliError::InvalidArgumentValue(value.to_string())
}

fn values(free: &[&str]) -> OptionValues {
    OptionValues {
        free: strings(free),
        retry_timeout: None,
        retry_delay: None,
        retry_on: vec![],
        retry_until: None,
        rewrite: vec![],
    }
}

#[test]
fn parse_reads_exit_codes() {
    assert_eq!(parse::<i32>("42"), Ok(42));
    assert_eq!(parse::<i32>("0"), Ok(0));
    assert_eq!(parse::<i32>("-7"), Ok(-7));
    assert_eq!(parse::<i32>("+7"), Ok(7));
    assert_eq!(parse::<i32>("007"), Ok(7));
    assert_eq!(parse::<i32>("-0"), Ok(0));
    assert_eq!(parse::<i32>("2147483647"), Ok(i32::MAX));
    assert_eq!(parse::<i32>("-2147483648"), Ok(i32::MIN));
    assert_eq!(parse::<i32>("00000000000000000000012"), Ok(12));
}

#[test]
fn parse_refuses_what_is_no_exit_code() {
    for bad in [
        "", "abc", " 5", "5 ", "1_000", "+", "-", "--1", "+-1", "1.5", "0x10", "2147483648",
        "-2147483649", "99999999999999999999", "\u{0663}", "1=2",
    ] {
        assert_eq!(parse::<i32>(bad), Err(invalid(bad)));
    }
}

#[test]
fn parse_reads_seconds() {
    assert_eq!(parse::<u64>("0"), Ok(0));
    assert_eq!(parse::<u64>("5"), Ok(5));
    assert_eq!(parse::<u64>("+3"), Ok(3));
    assert_eq!(parse::<u64>("18446744073709551615"), Ok(u64::MAX));
}

#[test]
fn parse_refuses_what_is_no_number_of_seconds() {
    for bad in ["", "-1", "-0", "1.5", "5s", " 5", "18446744073709551616", "+", "-"] {
        assert_eq!(parse::<u64>(bad), Err(invalid(bad)));
    }
}

#[test]
fn from_argument_gives_the_value_or_nothing() {
    assert_eq!(<i32 as FromArgument>::from_argument("12"), Some(12));
    assert_eq!(<i32 as FromArgument>::from_argument("twelve"), None);
    assert_eq!(<u64 as FromArgument>::from_argument("12"), Some(12));
    assert_eq!(<u64 as FromArgument>::from_argument("-12"), None);
}

#[test]
fn parse_rewrite_reads_a_pair() {
    assert_eq!(parse_rewrite(&"1=2".to_string()), Ok((1, 2)));
    assert_eq!(parse_rewrite(&"-1=255".to_string()), Ok((-1, 255)));
    assert_eq!(parse_rewrite(&"127=+0".to_string()), Ok((127, 0)));
    assert_eq!(parse_rewrite(&"2147483647=-2147483648".to_string()), Ok((i32::MAX, i32::MIN)));
}

#[test]
fn parse_rewrite_needs_one_equals_sign() {
    for bad in ["", "1", "12", "1=2=3", "==", "1==2", "=1=", "a"] {
        assert_eq!(parse_rewrite(&bad.to_string()), Err(invalid(bad)));
    }
}

#[test]
fn parse_rewrite_reports_the_part_that_is_no_code() {
    assert_eq!(parse_rewrite(&"x=1".to_string()), Err(invalid("x")));
    assert_eq!(parse_rewrite(&"1=y".to_string()), Err(invalid("y")));
    assert_eq!(parse_rewrite(&"x=y".to_string()), Err(invalid("x")));
    assert_eq!(parse_rewrite(&"=".to_string()), Err(invalid("")));
    assert_eq!(parse_rewrite(&"1=".to_string()), Err(invalid("")));
    assert_eq!(parse_rewrite(&"=2".to_string()), Err(invalid("")));
    assert_eq!(parse_rewrite(&" 1=2".to_string()), Err(invalid(" 1")));
    assert_eq!(parse_rewrite(&"1=2147483648".to_string()), Err(invalid("2147483648")));
    assert_eq!(parse_rewrite(&"\u{e9}=1".to_string()), Err(invalid("\u{e9}")));
    assert_eq!(parse_rewrite(&"1=\u{4e2d}\u{6587}".to_string()), Err(invalid("\u{4e2d}\u{6587}")));
}

#[test]
fn parse_all_reads_each_or_reports_the_first_bad() {
    assert_eq!(parse_all::<i32>(&strings(&[])), Ok(vec![]));
    assert_eq!(parse_all::<i32>(&strings(&["1", "-2", "3"])), Ok(vec![1, -2, 3]));
    assert_eq!(parse_all::<i32>(&strings(&["1", "x", "y"])), Err(invalid("x")));
    assert_eq!(parse_all::<u64>(&strings(&["1", "2", "-3"])), Err(invalid("-3")));
}

#[test]
fn parse_rewrites_reads_each_or_reports_the_first_bad() {
    assert_eq!(parse_rewrites(&strings(&[])), Ok(vec![]));
    assert_eq!(parse_rewrites(&strings(&["1=10", "1=20"])), Ok(vec![(1, 10), (1, 20)]));
    assert_eq!(parse_rewrites(&strings(&["1=10", "2", "x=1"])), Err(invalid("2")));
    assert_eq!(parse_rewrites(&strings(&["1=10", "2=z", "3"])), Err(invalid("z")));
}

#[test]
fn configure_without_options_gives_the_default_policy() {
    let got = configure(&values(&["ls", "-l", "/tmp"])).unwrap();
    assert_eq!(got, RetryCommand::new("ls".to_string(), strings(&["-l", "/tmp"])));
    assert_eq!(got.program(), "ls");
    assert_eq!(got.args(), &strings(&["-l", "/tmp"]));
}

#[test]
fn configure_applies_each_option() {
    let mut v = values(&["false"]);
    v.retry_timeout = Some("5".to_string());
    v.retry_delay = Some("1".to_string());
    v.retry_on = strings(&["1", "2"]);
    v.retry_until = Some(strings(&["0", "3"]));
    v.rewrite = strings(&["1=10", "1=20"]);
    let mut expected = RetryCommand::new("false".to_string(), vec![]);
    expected
        .retry_timeout(Duration::from_secs(5))
        .retry_delay(Duration::from_secs(1))
        .retry_on(vec![1, 2])
        .retry_until(vec![0, 3])
        .rewrite(vec![(1, 10), (1, 20)]);
    let got = configure(&v).unwrap();
    assert_eq!(got, expected);
    assert_eq!(got.rewrite_code(1), 20);
    assert!(got.should_stop(3, Duration::from_secs(0)));
    assert!(got.should_stop(7, Duration::from_secs(0)));
    assert!(!got.should_stop(1, Duration::from_secs(4)));
    assert!(got.should_stop(1, Duration::from_secs(5)));
}

#[test]
fn configure_keeps_empty_retry_until() {
    let mut v = values(&["false"]);
    v.retry_until = Some(vec![]);
    v.retry_timeout = Some("5".to_string());
    let got = configure(&v).unwrap();
    assert!(!got.should_stop(0, Duration::from_secs(0)));
}

#[test]
fn configure_reports_the_first_bad_value() {
    let mut v = values(&["false"]);
    v.retry_timeout = Some("soon".to_string());
    v.retry_delay = Some("later".to_string());
    v.retry_on = strings(&["one"]);
    v.retry_until = Some(strings(&["zero"]));
    v.rewrite = strings(&["a=b"]);
    assert_eq!(configure(&v), Err(invalid("soon")));
    v.retry_timeout = Some("5".to_string());
    assert_eq!(configure(&v), Err(invalid("later")));
    v.retry_delay = None;
    assert_eq!(configure(&v), Err(invalid("one")));
    v.retry_on = strings(&["1"]);
    assert_eq!(configure(&v), Err(invalid("zero")));
    v.retry_until = None;
    assert_eq!(configure(&v), Err(invalid("a")));
    v.rewrite = strings(&["1=b"]);
    assert_eq!(configure(&v), Err(invalid("b")));
    v.rewrite = strings(&["1"]);
    assert_eq!(configure(&v), Err(invalid("1")));
    v.rewrite = strings(&["1=2"]);
    assert!(configure(&v).is_ok());
}

#[test]
fn timeout_of_many_seconds_is_kept() {
    let mut v = values(&["false"]);
    v.retry_timeout = Some("18446744073709551615".to_string());
    let got = configure(&v).unwrap();
    assert!(!got.should_stop(1, Duration::new(u64::MAX, 0) - Duration::from_nanos(1)));
    assert!(got.should_stop(1, Duration::new(u64::MAX, 0)));
}

#[test]
fn options_are_read_from_the_command_line() {
    let args = strings(&[
        "--retry-timeout", "5", "--retry-delay=1", "--retry-on", "1", "--retry-on", "2",
        "--retry-until", "0", "--rewrite", "1=10", "--rewrite=1=20", "--", "sh", "-c", "exit 1",
    ]);
    let (_, matches) = parse_args(&args).unwrap();
    let got = option_values(&matches);
    assert_eq!(
        got,
        OptionValues {
            free: strings(&["sh", "-c", "exit 1"]),
            retry_timeout: Some("5".to_string()),
            retry_delay: Some("1".to_string()),
            retry_on: strings(&["1", "2"]),
            retry_until: Some(strings(&["0"])),
            rewrite: strings(&["1=10", "1=20"]),
        }
    );
}

#[test]
fn options_that_are_not_given_are_absent() {
    let (_, matches) = parse_args(&strings(&["--", "true"])).unwrap();
    assert_eq!(option_values(&matches), values(&["true"]));
}

#[test]
fn options_of_another_program_read_as_absent() {
    let mut other = getopts::Options::new();
    other.optopt("", "retry-timeout", "", "T");
    other.optflagopt("", "retry-delay", "", "D");
    other.optflagmulti("", "retry-on", "");
    let matches = other
        .parse(strings(&["--retry-timeout=9", "--retry-delay", "--retry-on", "--retry-on", "x"]))
        .unwrap();
    let got = option_values(&matches);
    let mut expected = values(&["x"]);
    expected.retry_timeout = Some("9".to_string());
    assert_eq!(got, expected);
}

#[test]
fn from_opts_builds_the_command() {
    let args = strings(&["--retry-timeout=5", "--retry-on=1", "--rewrite", "1=0", "false", "x"]);
    let (_, matches) = parse_args(&args).unwrap();
    let mut expected = RetryCommand::new("false".to_string(), strings(&["x"]));
    expected.retry_timeout(Duration::from_secs(5)).retry_on(vec![1]).rewrite(vec![(1, 0)]);
    assert_eq!(from_opts(&matches), Ok(expected));
}

#[test]
fn from_opts_reports_a_bad_value() {
    let (_, matches) = parse_args(&strings(&["--retry-until", "ok", "true"])).unwrap();
    assert_eq!(from_opts(&matches), Err(invalid("ok")));
}

#[test]
fn parse_args_reports_what_getopts_refuses() {
    assert_eq!(
        parse_args(&strings(&["--nonsense"])).err(),
        Some(Fail::UnrecognizedOption("nonsense".to_string()))
    );
    assert_eq!(
        parse_args(&strings(&["--retry-timeout"])).err(),
        Some(Fail::ArgumentMissing("retry-timeout".to_string()))
    );
    assert_eq!(
        parse_args(&strings(&["--retry-delay", "1", "--retry-delay", "2"])).err(),
        Some(Fail::OptionDuplicated("retry-delay".to_string()))
    );
    assert_eq!(
        parse_args(&strings(&["--help=yes"])).err(),
        Some(Fail::UnexpectedArgument("help".to_string()))
    );
}

#[test]
fn parse_args_returns_the_options_it_declared() {
    let (options, _) = parse_args(&strings(&[])).unwrap();
    assert_eq!(options, declare_options());
}

#[test]
fn plan_runs_the_command() {
    let got = plan(strings(&["retry", "--retry-timeout", "3", "--", "sleep", "--help"]));
    let mut expected = RetryCommand::new("sleep".to_string(), strings(&["--help"]));
    expected.retry_timeout(Duration::from_secs(3));
    assert_eq!(got, Ok(Invocation::Run(expected)));
}

#[test]
fn plan_leaves_out_the_name_of_the_program() {
    let got = plan(strings(&["--help", "true"]));
    assert_eq!(got, Ok(Invocation::Run(RetryCommand::new("true".to_string(), vec![]))));
}

#[test]
fn plan_shows_help_before_anything_else() {
    for args in [
        strings(&["retry", "--help"]),
        strings(&["retry", "-h"]),
        strings(&["retry", "-h", "--version", "--retry-timeout", "x", "true"]),
    ] {
        assert_eq!(plan(args), Ok(Invocation::Help(declare_options())));
    }
}

#[test]
fn plan_shows_the_version() {
    for args in [
        strings(&["retry", "--version"]),
        strings(&["retry", "-V"]),
        strings(&["retry", "-V", "--retry-timeout", "x"]),
    ] {
        assert_eq!(plan(args), Ok(Invocation::Version));
    }
}

#[test]
fn plan_needs_a_command() {
    let missing = Err(CliError::Arguments(Fail::ArgumentMissing("-- COMMAND".to_string())));
    assert_eq!(plan(strings(&["retry"])), missing);
    assert_eq!(plan(strings(&["retry", "--retry-timeout", "5"])), missing);
    assert_eq!(plan(strings(&["retry", "--retry-timeout", "x", "--"])), missing);
}

#[test]
fn plan_reports_bad_arguments() {
    assert_eq!(
        plan(strings(&["retry", "-x", "true"])),
        Err(CliError::Arguments(Fail::UnrecognizedOption("x".to_string())))
    );
    assert_eq!(
        plan(strings(&["retry", "-v"])),
        Err(CliError::Arguments(Fail::UnrecognizedOption("v".to_string())))
    );
    assert_eq!(plan(strings(&["retry", "--rewrite", "1:2", "true"])), Err(invalid("1:2")));
    assert_eq!(plan(strings(&["retry", "--retry-on", "1", "--retry-on", "", "true"])), Err(invalid("")));
}

#[test]
fn every_error_exits_with_125() {
    assert_eq!(ERR_EXIT_STATUS, 125);
    assert_eq!(CliError::Io(UnresolvedStatus::UnknownExit).exit_code(), 125);
    assert_eq!(CliError::Arguments(Fail::OptionMissing("x".to_string())).exit_code(), 125);
    assert_eq!(invalid("x").exit_code(), 125);
}

#[test]
fn errors_in_words() {
    assert_eq!(invalid("1:2").message("retry"), "1:2 isn't a valid value");
    assert_eq!(CliError::Io(UnresolvedStatus::UnknownExit).message("retry"), "Unkonwn exit code");
    assert_eq!(
        CliError::Io(UnresolvedStatus::LaunchFailed("odd".to_string())).message("retry"),
        "odd"
    );
    assert_eq!(
        CliError::Arguments(Fail::ArgumentMissing("-- COMMAND".to_string())).message("./retry"),
        "Argument to option '-- COMMAND' missing\nTry './retry --help'"
    );
    assert_eq!(
        CliError::Arguments(Fail::UnrecognizedOption("x".to_string())).message("retry"),
        "Unrecognized option: 'x'\nTry 'retry --help'"
    );
    assert_eq!(
        CliError::Arguments(Fail::OptionMissing("x".to_string())).message("retry"),
        "Required option 'x' missing\nTry 'retry --help'"
    );
    assert_eq!(
        CliError::Arguments(Fail::OptionDuplicated("x".to_string())).message("retry"),
        "Option 'x' given more than once\nTry 'retry --help'"
    );
    assert_eq!(
        CliError::Arguments(Fail::UnexpectedArgument("x".to_string())).message("retry"),
        "Option 'x' does not take an argument\nTry 'retry --help'"
    );
}

#[test]
fn version_in_words() {
    assert_eq!(NAME, "retry");
    assert_eq!(version_message("1.2.3"), "retry 1.2.3");
}

#[test]
fn usage_in_words() {
    let text = usage_message("1.2.3", "/usr/bin/retry", &declare_options());
    let expected = [
        "retry 1.2.3",
        "",
        "Usage:",
        "/usr/bin/retry [OPTIONS] -- COMMAND [ARGS]...",
        "",
        "",
        "",
        "Options:",
        "        --retry-timeout TIMEOUT",
        "                        retry up to timeout seconds, then exit with status 127",
        "        --retry-delay DELAY",
        "                        wait delay seconds between each retry",
        "        --retry-until EXITCODE",
        "                        retry until the exit code is one of the listed values",
        "                        (default 0)",
        "        --retry-on EXITCODE",
        "                        retry if the exit code is one of the listed values",
        "        --rewrite <A>=<B>",
        "                        if the final exit status is a, change it to b; this",
        "                        happens after --retry-on/until processing",
        "    -h, --help          display this help and exit",
        "    -V, --version       output version information and exit",
        "",
    ];
    assert_eq!(text, expected.join("\n"));
}
