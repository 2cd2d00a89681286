//! Usage and version text, and the two flags that every program offers.

use crate::options::{
    add_flag, all_named, long_only, option_groups, option_table, short_usage,
    stops_at_first_free, synopsis, usage, OptionDescriptor,
};
use getopts::Options;
use vstd::prelude::*;
use vstd::string::*;

verus! {

/// The usage text of an option set for a program: the synopsis line, an empty
/// line, the heading and the option table.
pub open spec fn usage_text(
    groups: Seq<OptionDescriptor>,
    long_only: bool,
    program: Seq<char>,
) -> Seq<char> {
    let brief = "Usage: "@ + program + " "@ + synopsis(groups);
    brief + "\n\nOptions:\n"@ + option_table(groups, long_only) + "\n"@
}

/// The `-h` / `--help` flag.
pub open spec fn help_descriptor() -> OptionDescriptor {
    OptionDescriptor::flag("h"@, "help"@, "Print this help menu"@)
}

/// The `--version` flag of a program. It has no short form: `-v` and `-V` are
/// left free for a flag that turns on verbose output.
pub open spec fn version_descriptor(program: Seq<char>) -> OptionDescriptor {
    OptionDescriptor::flag(
        Seq::empty(),
        "version"@,
        "Print the version of "@ + program + " being run"@,
    )
}

/// Construct a canonical usage string from an option set and the program's
/// name.
///
/// ```text
/// Usage: <program name> [option synopsis]...
///
/// Options:
///     [option description]...
/// ```
pub fn usage_string(opts: &Options, program: &str) -> (text: String)
    ensures
        text@ == usage_text(option_groups(*opts), long_only(*opts), program@),
        ("Usage: "@ + program@).is_prefix_of(text@),
{
    let brief = short_usage(opts, program);
    proof {
        usage_text_names_program(option_groups(*opts), long_only(*opts), program@);
    }
    usage(opts, brief.as_str())
}

/// Construct a version string, for output in response to `--version`.
///
/// ```text
/// <program name> version <version>
/// ```
pub fn version_string(version: &str, program: &str) -> (text: String)
    ensures
        text@ == program@ + " version "@ + version@,
{
    let mut text = String::from_str(program);
    text.append(" version ");
    text.append(version);
    text
}

/// Add a help flag to an option set: `-h` and `--help`, without a value.
///
/// Hands the option set back, with the flag in it, for further registrations.
pub fn helpopt(opts: &mut Options) -> (same: &mut Options)
    ensures
        option_groups(*same) == option_groups(*old(opts)).push(help_descriptor()),
        long_only(*same) == long_only(*old(opts)),
        stops_at_first_free(*same) == stops_at_first_free(*old(opts)),
        *final(opts) == *final(same),
{
    proof {
        reveal_strlit("h");
        reveal_strlit("help");
        is_ascii_spec_bytes("h");
        is_ascii_spec_bytes("help");
    }
    add_flag(opts, "h", "help", "Print this help menu");
    opts
}

/// Add a version flag to an option set: `--version`, without a short form and
/// without a value, described with the program's name.
///
/// Hands the option set back, with the flag in it, for further registrations.
pub fn versionopt<'a>(opts: &'a mut Options, program: &str) -> (same: &'a mut Options)
    ensures
        option_groups(*same) == option_groups(*old(opts)).push(version_descriptor(program@)),
        long_only(*same) == long_only(*old(opts)),
        stops_at_first_free(*same) == stops_at_first_free(*old(opts)),
        *final(opts) == *final(same),
{
    let mut description = String::from_str("Print the version of ");
    description.append(program);
    description.append(" being run");
    proof {
        reveal_strlit("");
        reveal_strlit("version");
        is_ascii_spec_bytes("");
        is_ascii_spec_bytes("version");
        assert(""@ =~= Seq::<char>::empty());
    }
    add_flag(opts, "", "version", description.as_str());
    opts
}

/// Every usage text begins with the word `Usage:`, a space and the program's
/// name, whatever the option set holds.
pub proof fn usage_text_names_program(
    groups: Seq<OptionDescriptor>,
    long_only: bool,
    program: Seq<char>,
)
    ensures
        ("Usage: "@ + program).is_prefix_of(usage_text(groups, long_only, program)),
{
    let head = "Usage: "@ + program;
    let rest = " "@ + synopsis(groups) + "\n\nOptions:\n"@ + option_table(groups, long_only) + "\n"@;
    assert(usage_text(groups, long_only, program) =~= head + rest);
    assert((head + rest).subrange(0, head.len() as int) =~= head);
}

/// An option set that holds the help flag and the version flag, in this
/// order, has the synopsis `[-h] [--version]`, whatever the program is called.
pub proof fn synopsis_of_help_and_version(program: Seq<char>)
    ensures
        synopsis(seq![help_descriptor(), version_descriptor(program)]) == "[-h] [--version]"@,
{
    let both = seq![help_descriptor(), version_descriptor(program)];
    help_descriptor_form();
    version_descriptor_form(program);
    assert(both.drop_last() =~= seq![help_descriptor()]);
    assert(synopsis(both.drop_last()) == help_descriptor().synopsis_token());
    assert(both.last() == version_descriptor(program));
    reveal_strlit(" ");
    reveal_strlit("[-h]");
    reveal_strlit("[--version]");
    reveal_strlit("[-h] [--version]");
    assert("[-h]"@ + " "@ + "[--version]"@ =~= "[-h] [--version]"@);
}

/// Both flags have a name to be matched by: adding them to an option set
/// leaves it as fit for parsing as it was.
pub proof fn flags_keep_option_set_named(groups: Seq<OptionDescriptor>, program: Seq<char>)
    requires
        all_named(groups),
    ensures
        all_named(groups.push(help_descriptor())),
        all_named(groups.push(version_descriptor(program))),
        all_named(groups.push(help_descriptor()).push(version_descriptor(program))),
{
    reveal_strlit("help");
    reveal_strlit("version");
}

/// The help flag has the short form `h` and the long form `help`, and takes
/// no value. A synopsis shows it by its short form.
pub proof fn help_descriptor_form()
    ensures
        help_descriptor().short_name == seq!['h'],
        help_descriptor().long_name == "help"@,
        help_descriptor().description == "Print this help menu"@,
        !help_descriptor().takes_value(),
        help_descriptor().synopsis_token() == "[-h]"@,
{
    reveal_strlit("h");
    reveal_strlit("-");
    reveal_strlit("[");
    reveal_strlit("]");
    reveal_strlit("[-h]");
    assert("h"@ =~= seq!['h']);
    assert(help_descriptor().synopsis_token() =~= "[-h]"@);
}

/// The version flag has no short form and the long form `version`, takes no
/// value, and its description holds the program's name. A synopsis shows it
/// by its long form.
pub proof fn version_descriptor_form(program: Seq<char>)
    ensures
        !version_descriptor(program).has_short(),
        version_descriptor(program).long_name == "version"@,
        !version_descriptor(program).takes_value(),
        exists|at: int|
            0 <= at && at + program.len() <= version_descriptor(program).description.len()
                && #[trigger] version_descriptor(program).description.subrange(
                at,
                at + program.len(),
            ) == program,
        version_descriptor(program).synopsis_token() == "[--version]"@,
{
    reveal_strlit("--");
    reveal_strlit("version");
    reveal_strlit("[");
    reveal_strlit("]");
    reveal_strlit("[--version]");
    assert(version_descriptor(program).synopsis_token() =~= "[--version]"@);
    let lead = "Print the version of "@;
    let description = version_descriptor(program).description;
    let at = lead.len() as int;
    assert(description.subrange(at, at + program.len()) =~= program);
}

} // verus!
