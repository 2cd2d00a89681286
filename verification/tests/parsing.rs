use cli::{
    abort_message, helpopt, parse_args, report_failure, usage_string, versionopt,
    ArgumentParseError, FailureKind,
};
use getopts::{Fail, Options};

fn list(items: &[&str]) -> Vec<String> {
    items.iter().map(|s| s.to_string()).collect()
}

#[test]
fn parse_args_finds_help_flag() {
    let mut opts = Options::new();
    helpopt(&mut opts);
    let matches = parse_args(&opts, "foo", &list(&["foo", "-h"])).unwrap();
    assert!(matches.opt_present("h"));
}

#[test]
fn parse_args_finds_version_flag_only() {
    let mut opts = Options::new();
    versionopt(&mut opts, "foo");
    let matches = parse_args(&opts, "foo", &list(&["foo", "--version"])).unwrap();
    assert!(matches.opt_present("version"));

    let mut both = Options::new();
    helpopt(&mut both);
    versionopt(&mut both, "foo");
    both.optflag("q", "quiet", "Say less");
    let matches = parse_args(&both, "foo", &list(&["foo", "--version"])).unwrap();
    assert!(matches.opt_present("version"));
    assert!(!matches.opt_present("h"));
    assert!(!matches.opt_present("help"));
    assert!(!matches.opt_present("q"));
}

#[test]
fn parse_args_skips_program_name() {
    let mut opts = Options::new();
    helpopt(&mut opts);
    let matches = parse_args(&opts, "foo", &list(&["-h"])).unwrap();
    assert!(!matches.opt_present("h"));
    assert!(matches.free.is_empty());

    let matches = parse_args(&opts, "foo", &list(&["foo", "a", "-h", "b"])).unwrap();
    assert!(matches.opt_present("h"));
    assert_eq!(matches.free, list(&["a", "b"]));
}

#[test]
fn parse_args_returns_matches_of_the_parser() {
    let mut opts = Options::new();
    helpopt(&mut opts);
    opts.optopt("o", "", "Set output file name", "FILENAME");
    let args = list(&["foo", "-o", "out.txt", "rest"]);
    let matches = parse_args(&opts, "foo", &args).unwrap();
    assert_eq!(matches, opts.parse(&args[1..]).unwrap());
    assert_eq!(matches.opt_str("o"), Some("out.txt".to_string()));
}

#[test]
fn parse_args_reports_unrecognized_flag() {
    let mut opts = Options::new();
    helpopt(&mut opts);
    versionopt(&mut opts, "foo");
    let error = parse_args(&opts, "foo", &list(&["foo", "-x"])).unwrap_err();
    assert_eq!(error.kind, FailureKind::UnrecognizedOption);
    assert_eq!(error.option, "x");
    assert_eq!(error.message, "Unrecognized option: 'x'");
    assert_eq!(error.usage, usage_string(&opts, "foo"));
    assert!(abort_message(&error, None).contains("Unrecognized option: 'x'"));
    assert!(abort_message(&error, Some("broken pipe")).contains("Unrecognized option: 'x'"));
}

#[test]
fn parse_args_reports_unrecognized_long_flag() {
    let mut opts = Options::new();
    helpopt(&mut opts);
    let error = parse_args(&opts, "foo", &list(&["foo", "--frobnicate"])).unwrap_err();
    assert_eq!(error.kind, FailureKind::UnrecognizedOption);
    assert_eq!(error.option, "frobnicate");
    assert_eq!(error.message, "Unrecognized option: 'frobnicate'");
}

#[test]
fn parse_args_reports_missing_argument() {
    let mut opts = Options::new();
    opts.optopt("o", "", "Set output file name", "FILENAME");
    let error = parse_args(&opts, "foo", &list(&["foo", "-o"])).unwrap_err();
    assert_eq!(error.kind, FailureKind::ArgumentMissing);
    assert_eq!(error.option, "o");
    assert_eq!(error.message, "Argument to option 'o' missing");
}

#[test]
fn parse_args_reports_missing_option() {
    let mut opts = Options::new();
    opts.reqopt("i", "input", "Set input file name", "FILENAME");
    let error = parse_args(&opts, "foo", &list(&["foo"])).unwrap_err();
    assert_eq!(error.kind, FailureKind::OptionMissing);
    assert_eq!(error.option, "input");
    assert_eq!(error.message, "Required option 'input' missing");
}

#[test]
fn parse_args_reports_duplicated_option() {
    let mut opts = Options::new();
    helpopt(&mut opts);
    let error = parse_args(&opts, "foo", &list(&["foo", "-h", "--help"])).unwrap_err();
    assert_eq!(error.kind, FailureKind::OptionDuplicated);
    assert_eq!(error.option, "help");
    assert_eq!(error.message, "Option 'help' given more than once");
}

#[test]
fn parse_args_reports_unexpected_argument() {
    let mut opts = Options::new();
    helpopt(&mut opts);
    let error = parse_args(&opts, "foo", &list(&["foo", "--help=now"])).unwrap_err();
    assert_eq!(error.kind, FailureKind::UnexpectedArgument);
    assert_eq!(error.option, "help");
    assert_eq!(error.message, "Option 'help' does not take an argument");
}

#[test]
fn parse_args_error_carries_usage_of_given_program() {
    let mut opts = Options::new();
    helpopt(&mut opts);
    let error = parse_args(&opts, "shown", &list(&["invoked", "-z"])).unwrap_err();
    assert!(error.usage.starts_with("Usage: shown [-h]"));
}

#[test]
fn report_failure_covers_every_kind() {
    let cases = vec![
        (
            Fail::ArgumentMissing("o".to_string()),
            FailureKind::ArgumentMissing,
            "Argument to option 'o' missing",
        ),
        (
            Fail::UnrecognizedOption("o".to_string()),
            FailureKind::UnrecognizedOption,
            "Unrecognized option: 'o'",
        ),
        (
            Fail::OptionMissing("o".to_string()),
            FailureKind::OptionMissing,
            "Required option 'o' missing",
        ),
        (
            Fail::OptionDuplicated("o".to_string()),
            FailureKind::OptionDuplicated,
            "Option 'o' given more than once",
        ),
        (
            Fail::UnexpectedArgument("o".to_string()),
            FailureKind::UnexpectedArgument,
            "Option 'o' does not take an argument",
        ),
    ];
    for (failure, kind, message) in cases {
        let error = report_failure(failure, "the usage".to_string());
        assert_eq!(
            error,
            ArgumentParseError {
                kind,
                option: "o".to_string(),
                message: message.to_string(),
                usage: "the usage".to_string(),
            }
        );
    }
}

#[test]
fn report_failure_message_is_the_parsers_own() {
    let failure = Fail::UnrecognizedOption("long-name".to_string());
    let text = failure.to_string();
    let error = report_failure(failure, String::new());
    assert_eq!(error.message, text);
    assert_eq!(error.option, "long-name");
    assert_eq!(error.usage, "");
}

#[test]
fn abort_message_is_parse_error_alone() {
    let error = report_failure(Fail::UnrecognizedOption("x".to_string()), "u".to_string());
    assert_eq!(abort_message(&error, None), "Unrecognized option: 'x'");
}

#[test]
fn abort_message_puts_parse_error_first() {
    let error = report_failure(Fail::ArgumentMissing("o".to_string()), "u".to_string());
    assert_eq!(
        abort_message(&error, Some("failed to write whole buffer")),
        "Argument to option 'o' missing\nfailed to write whole buffer"
    );
    assert!(abort_message(&error, Some("")).starts_with(&error.message));
}
