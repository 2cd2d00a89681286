//! Parsing a program's arguments against an option set. A failure comes back
//! as a value that carries what the operator must be told; terminating is the
//! caller's part.

use crate::options::{
    all_named, describe, failure_text, long_only, option_groups, parse, parse_outcome,
    stops_at_first_free, texts,
};
use crate::usage::{usage_string, usage_text};
use getopts::{Fail, Matches, Options};
use vstd::prelude::*;
use vstd::slice::slice_subrange;
use vstd::string::*;

verus! {

/// The ways in which an argument list can fail to match an option set.
#[derive(Debug, Clone, Copy, PartialEq, Eq)]
pub enum FailureKind {
    /// An option that requires a value was given none.
    ArgumentMissing,
    /// An option was given that the option set does not hold.
    UnrecognizedOption,
    /// A required option was not given.
    OptionMissing,
    /// An option that may occur once was given several times.
    OptionDuplicated,
    /// A value was given to an option that takes none.
    UnexpectedArgument,
}

/// A failure to parse the arguments, with what is owed to the operator.
#[derive(Debug, Clone, PartialEq, Eq)]
pub struct ArgumentParseError {
    pub kind: FailureKind,
    /// The name of the option at fault.
    pub option: String,
    /// The parser's own words for the failure.
    pub message: String,
    /// The usage text, to be written to standard error before terminating.
    pub usage: String,
}

/// An `ArgumentParseError` with its texts as sequences of characters.
pub struct ParseErrorView {
    pub kind: FailureKind,
    pub option: Seq<char>,
    pub message: Seq<char>,
    pub usage: Seq<char>,
}

impl View for ArgumentParseError {
    type V = ParseErrorView;

    open spec fn view(&self) -> ParseErrorView {
        ParseErrorView {
            kind: self.kind,
            option: self.option@,
            message: self.message@,
            usage: self.usage@,
        }
    }
}

/// The report of a parser failure, beside the usage text of the option set it
/// was parsed against.
pub open spec fn reported(failure: Fail, usage: Seq<char>) -> ParseErrorView {
    ParseErrorView {
        kind: match failure {
            Fail::ArgumentMissing(_) => FailureKind::ArgumentMissing,
            Fail::UnrecognizedOption(_) => FailureKind::UnrecognizedOption,
            Fail::OptionMissing(_) => FailureKind::OptionMissing,
            Fail::OptionDuplicated(_) => FailureKind::OptionDuplicated,
            Fail::UnexpectedArgument(_) => FailureKind::UnexpectedArgument,
        },
        option: match failure {
            Fail::ArgumentMissing(name) => name@,
            Fail::UnrecognizedOption(name) => name@,
            Fail::OptionMissing(name) => name@,
            Fail::OptionDuplicated(name) => name@,
            Fail::UnexpectedArgument(name) => name@,
        },
        message: failure_text(failure),
        usage,
    }
}

/// What `parse_args` returns for an outcome of the parser: the matches as
/// they are, or the report of the failure.
pub open spec fn settled(
    outcome: Result<Matches, Fail>,
    usage: Seq<char>,
    result: Result<Matches, ArgumentParseError>,
) -> bool {
    match outcome {
        Ok(matches) => result == Ok::<Matches, ArgumentParseError>(matches),
        Err(failure) => result is Err && result->Err_0@ == reported(failure, usage),
    }
}

/// The message with which a program terminates after a parse failure: the
/// parser's words, and below them those of the failure to write the usage
/// text, where that failed too.
pub open spec fn abort_text(message: Seq<char>, write_error: Option<Seq<char>>) -> Seq<char> {
    match write_error {
        None => message,
        Some(second) => message + "\n"@ + second,
    }
}

/// Turn a failure of the parser into this library's report of it.
pub fn report_failure(failure: Fail, usage: String) -> (error: ArgumentParseError)
    ensures
        error@ == reported(failure, usage@),
{
    let message = describe(&failure);
    match failure {
        Fail::ArgumentMissing(name) => ArgumentParseError {
            kind: FailureKind::ArgumentMissing,
            option: name,
            message,
            usage,
        },
        Fail::UnrecognizedOption(name) => ArgumentParseError {
            kind: FailureKind::UnrecognizedOption,
            option: name,
            message,
            usage,
        },
        Fail::OptionMissing(name) => ArgumentParseError {
            kind: FailureKind::OptionMissing,
            option: name,
            message,
            usage,
        },
        Fail::OptionDuplicated(name) => ArgumentParseError {
            kind: FailureKind::OptionDuplicated,
            option: name,
            message,
            usage,
        },
        Fail::UnexpectedArgument(name) => ArgumentParseError {
            kind: FailureKind::UnexpectedArgument,
            option: name,
            message,
            usage,
        },
    }
}

/// Parse the arguments with which a program was executed according to an
/// option set.
///
/// `args` is the whole argument list: its first entry names the program and
/// is not parsed. `program` is the name that the usage text shows.
///
/// Any failure comes back as an `ArgumentParseError`. A program must not go
/// on with a configuration that it did not understand: it writes the error's
/// usage text to standard error and terminates with `abort_message`.
pub fn parse_args(
    opts: &Options,
    program: &str,
    args: &Vec<String>,
) -> (result: Result<Matches, ArgumentParseError>)
    requires
        args@.len() > 0,
        all_named(option_groups(*opts)),
    ensures
        settled(
            parse_outcome(
                option_groups(*opts),
                long_only(*opts),
                stops_at_first_free(*opts),
                texts(args@).skip(1),
            ),
            usage_text(option_groups(*opts), long_only(*opts), program@),
            result,
        ),
{
    let rest = slice_subrange(args.as_slice(), 1, args.len());
    assert(texts(rest@) =~= texts(args@).skip(1));
    match parse(opts, rest) {
        Ok(matches) => Ok(matches),
        Err(failure) => Err(report_failure(failure, usage_string(opts, program))),
    }
}

/// The message to terminate with after a parse failure. `write_error` holds
/// the words of the failure to write the usage text to standard error, where
/// that write failed.
pub fn abort_message(error: &ArgumentParseError, write_error: Option<&str>) -> (text: String)
    ensures
        text@ == abort_text(
            error.message@,
            match write_error {
                Some(second) => Some(second@),
                None => None,
            },
        ),
{
    let mut text = error.message.clone();
    match write_error {
        None => {},
        Some(second) => {
            text.append("\n");
            text.append(second);
        },
    }
    text
}

/// The terminating message begins with the parser's own words, whether or not
/// writing the usage text failed: the first diagnostic is never lost.
pub proof fn abort_text_keeps_parse_error(message: Seq<char>, write_error: Option<Seq<char>>)
    ensures
        message.is_prefix_of(abort_text(message, write_error)),
{
    let text = abort_text(message, write_error);
    assert(text.subrange(0, message.len() as int) =~= message);
}

} // verus!
