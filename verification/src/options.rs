//! The option set of `getopts`, as this library sees it: an ordered sequence
//! of option descriptors and two parsing switches. The functions here are the
//! only places where `getopts` is called; their contracts are taken on trust
//! from its source.

use getopts::{Fail, Matches, Options};
use vstd::prelude::*;
use vstd::string::*;

verus! {

/// `getopts::Options`, the option set. It is opaque here: what it holds is
/// spoken of through `option_groups`, `long_only` and `stops_at_first_free`.
#[verifier::external_type_specification]
#[verifier::external_body]
pub struct ExOptions(getopts::Options);

/// `getopts::Matches`, the result of a successful parse. It is opaque here
/// and only handed on.
#[verifier::external_type_specification]
#[verifier::external_body]
pub struct ExMatches(getopts::Matches);

/// `getopts::Fail`, the parser's failure: an enum of five kinds, each with
/// the name of the option at fault.
#[verifier::external_type_specification]
pub struct ExFail(getopts::Fail);

/// Whether an option carries a value.
pub enum ValueMode {
    /// The option is a bare flag.
    Absent,
    /// A value must follow the option.
    Required,
    /// A value may follow the option.
    Optional,
}

/// How often an option may be given.
pub enum Occurrence {
    /// Exactly once.
    Required,
    /// At most once.
    Optional,
    /// Any number of times.
    Repeated,
}

/// One option as the parser knows it.
pub struct OptionDescriptor {
    /// The short form without its dash; empty where there is none.
    pub short_name: Seq<char>,
    /// The long form without its dashes; empty where there is none.
    pub long_name: Seq<char>,
    /// The placeholder shown for the option's value.
    pub hint: Seq<char>,
    /// The text shown beside the option in the option table.
    pub description: Seq<char>,
    /// Whether the option carries a value.
    pub value: ValueMode,
    /// How often the option may be given.
    pub occurrence: Occurrence,
}

impl OptionDescriptor {
    /// The descriptor of an optional flag that takes no value.
    pub open spec fn flag(
        short_name: Seq<char>,
        long_name: Seq<char>,
        description: Seq<char>,
    ) -> Self {
        OptionDescriptor {
            short_name,
            long_name,
            hint: Seq::empty(),
            description,
            value: ValueMode::Absent,
            occurrence: Occurrence::Optional,
        }
    }

    /// Whether the option has a short form.
    pub open spec fn has_short(self) -> bool {
        self.short_name.len() > 0
    }

    /// Whether a value may or must follow the option.
    pub open spec fn takes_value(self) -> bool {
        self.value != ValueMode::Absent
    }

    /// The option's token in a synopsis line: the short form if there is
    /// one, else the long form, then the placeholder of its value; in square
    /// brackets unless the option is required, and followed by two dots where
    /// it may be repeated.
    pub open spec fn synopsis_token(self) -> Seq<char> {
        let form = if self.has_short() {
            "-"@ + self.short_name
        } else {
            "--"@ + self.long_name
        };
        let body = match self.value {
            ValueMode::Absent => form,
            ValueMode::Required => form + " "@ + self.hint,
            ValueMode::Optional => form + " ["@ + self.hint + "]"@,
        };
        match self.occurrence {
            Occurrence::Required => body,
            Occurrence::Optional => "["@ + body + "]"@,
            Occurrence::Repeated => "["@ + body + "].."@,
        }
    }

    /// An option needs a form to be matched by.
    pub open spec fn is_named(self) -> bool {
        self.short_name.len() > 0 || self.long_name.len() > 0
    }
}

/// Every descriptor of the sequence has a short or a long form.
pub open spec fn all_named(groups: Seq<OptionDescriptor>) -> bool {
    forall|i: int| 0 <= i < groups.len() ==> (#[trigger] groups[i]).is_named()
}

/// The views of a list of strings.
pub open spec fn texts(args: Seq<String>) -> Seq<Seq<char>> {
    args.map_values(|s: String| s@)
}

/// The descriptors that an option set holds, in the order of registration:
/// for each, the names, hint and description as they were given, `HasArg` as
/// a `ValueMode` and `Occur` as an `Occurrence`.
pub uninterp spec fn option_groups(opts: Options) -> Seq<OptionDescriptor>;

/// Whether the option set takes long options behind a single dash.
pub uninterp spec fn long_only(opts: Options) -> bool;

/// Whether the option set stops looking for options at the first free
/// argument.
pub uninterp spec fn stops_at_first_free(opts: Options) -> bool;

/// The synopsis of a sequence of descriptors: one token for each, in order,
/// with single spaces between them.
pub open spec fn synopsis(groups: Seq<OptionDescriptor>) -> Seq<char>
    decreases groups.len(),
{
    if groups.len() == 0 {
        Seq::empty()
    } else if groups.len() == 1 {
        groups[0].synopsis_token()
    } else {
        synopsis(groups.drop_last()) + " "@ + groups.last().synopsis_token()
    }
}

/// The rows of the option table of `Options::usage`, joined by newlines.
pub uninterp spec fn option_table(groups: Seq<OptionDescriptor>, long_only: bool) -> Seq<char>;

/// What `Options::parse` makes of an argument list.
pub uninterp spec fn parse_outcome(
    groups: Seq<OptionDescriptor>,
    long_only: bool,
    stops_at_first_free: bool,
    args: Seq<Seq<char>>,
) -> Result<Matches, Fail>;

/// The text that `getopts` prints for a failure.
pub open spec fn failure_text(failure: Fail) -> Seq<char> {
    match failure {
        Fail::ArgumentMissing(name) => "Argument to option '"@ + name@ + "' missing"@,
        Fail::UnrecognizedOption(name) => "Unrecognized option: '"@ + name@ + "'"@,
        Fail::OptionMissing(name) => "Required option '"@ + name@ + "' missing"@,
        Fail::OptionDuplicated(name) => "Option '"@ + name@ + "' given more than once"@,
        Fail::UnexpectedArgument(name) => "Option '"@ + name@ + "' does not take an argument"@,
    }
}

/// `Options::optflag`: appends an optional flag without a value to the
/// descriptors and leaves the rest of the option set as it was. `getopts`
/// panics on a short name of more than one byte and on a long name of exactly
/// one byte, so those are left out.
#[verifier::external_body]
pub(crate) fn add_flag(opts: &mut Options, short_name: &str, long_name: &str, description: &str)
    requires
        short_name.spec_bytes().len() <= 1,
        long_name.spec_bytes().len() != 1,
    ensures
        option_groups(*final(opts)) == option_groups(*old(opts)).push(
            OptionDescriptor::flag(short_name@, long_name@, description@),
        ),
        long_only(*final(opts)) == long_only(*old(opts)),
        stops_at_first_free(*final(opts)) == stops_at_first_free(*old(opts)),
{
    opts.optflag(short_name, long_name, description);
}

/// `Options::short_usage`: the word `Usage:`, a space, the program's name, a
/// space, and then one token for each descriptor as `synopsis` spells it out,
/// with single spaces between the tokens.
#[verifier::external_body]
pub(crate) fn short_usage(opts: &Options, program: &str) -> (line: String)
    ensures
        line@ == "Usage: "@ + program@ + " "@ + synopsis(option_groups(*opts)),
{
    opts.short_usage(program)
}

/// `Options::usage`: the brief, an empty line, the heading `Options:`, the
/// option table and a closing newline.
#[verifier::external_body]
pub(crate) fn usage(opts: &Options, brief: &str) -> (text: String)
    ensures
        text@ == brief@ + "\n\nOptions:\n"@ + option_table(option_groups(*opts), long_only(*opts))
            + "\n"@,
{
    opts.usage(brief)
}

/// `Options::parse`: the outcome depends on the option set and the arguments
/// alone. `getopts` panics on a descriptor without any name, so an option set
/// that holds one is left out.
#[verifier::external_body]
pub(crate) fn parse(opts: &Options, args: &[String]) -> (outcome: Result<Matches, Fail>)
    requires
        all_named(option_groups(*opts)),
    ensures
        outcome == parse_outcome(
            option_groups(*opts),
            long_only(*opts),
            stops_at_first_free(*opts),
            texts(args@),
        ),
{
    opts.parse(args)
}

/// `Fail`'s `Display`: a fixed sentence for each kind of failure, with the
/// option's name in single quotes.
#[verifier::external_body]
pub(crate) fn describe(failure: &Fail) -> (text: String)
    ensures
        text@ == failure_text(*failure),
{
    failure.to_string()
}

} // verus!
