//! The command line's option table and the parser that reads it: the crate
//! `getopts`, behind contracts that are stated here and not proved.
//!
//! A table of options and the outcome of a parse are opaque values. What
//! the contracts say of them goes through names: what a table was defined
//! with, what a parse found for each name of the table, and how a failure
//! is worded. What the parser makes of a command line, and how it lays out
//! a table as a help text, are names of their own, over plain values:
//! nothing is said of how it reads or writes, only that it does the same
//! with the same table and the same text.

use vstd::prelude::*;

verus! {

/// The type `getopts::Options`: a table of option definitions.
#[verifier::external_type_specification]
#[verifier::external_body]
pub struct ExOptions(getopts::Options);

/// The type `getopts::Matches`: what a successful parse found.
#[verifier::external_type_specification]
#[verifier::external_body]
pub struct ExMatches(getopts::Matches);

/// The type `getopts::Fail`: why a parse failed.
#[verifier::external_type_specification]
#[verifier::external_body]
pub struct ExFail(getopts::Fail);

/// What a table holds: for each option, in the order of definition, its
/// short name, its long name and whether it takes a value.
pub uninterp spec fn option_table(options: getopts::Options) -> Seq<(Seq<char>, Seq<char>, bool)>;

/// What a table tells the user: for each option, in the order of
/// definition, its description and the hint that stands for its value.
pub uninterp spec fn option_help(options: getopts::Options) -> Seq<(Seq<char>, Seq<char>)>;

/// Whether a table is as `Options::new` makes it but for options that may
/// each be given once or left out: it parses in the default style, with
/// long options after two dashes only.
pub uninterp spec fn is_plain(options: getopts::Options) -> bool;

/// What a parse found: for each name of the table, short or long, the
/// occurrences of that option on the command line, first to last, each with
/// the value it was given, if any.
pub uninterp spec fn matched(matches: getopts::Matches) -> Map<Seq<char>, Seq<Option<Seq<char>>>>;

/// How a failure is worded for the user.
pub uninterp spec fn fail_text(fail: getopts::Fail) -> Seq<char>;

/// What `getopts::Options::parse` makes of a command line against a plain
/// table: what it found for each name, or the wording of why it failed.
pub uninterp spec fn parse_outcome(
    table: Seq<(Seq<char>, Seq<char>, bool)>,
    args: Seq<Seq<char>>,
) -> Result<Map<Seq<char>, Seq<Option<Seq<char>>>>, Seq<char>>;

/// What `getopts::Options::usage` lays out for a plain table under the line
/// `brief`: the help text.
pub uninterp spec fn usage_text(
    table: Seq<(Seq<char>, Seq<char>, bool)>,
    help: Seq<(Seq<char>, Seq<char>)>,
    brief: Seq<char>,
) -> Seq<char>;

/// The result of a parse as plain values: what was found for each name, or
/// the wording of the failure.
pub open spec fn parse_view(r: Result<getopts::Matches, getopts::Fail>) -> Result<
    Map<Seq<char>, Seq<Option<Seq<char>>>>,
    Seq<char>,
> {
    match r {
        Ok(m) => Ok(matched(m)),
        Err(f) => Err(fail_text(f)),
    }
}

/// Every option of the table has a short name of one character and a long
/// name of two or more.
pub open spec fn well_named(table: Seq<(Seq<char>, Seq<char>, bool)>) -> bool {
    forall|i: int|
        0 <= i < table.len() ==> (#[trigger] table[i]).0.len() == 1 && table[i].1.len() >= 2
}

/// The names, short and long, that a table defines.
pub open spec fn table_names(table: Seq<(Seq<char>, Seq<char>, bool)>) -> Set<Seq<char>> {
    Set::new(
        |name: Seq<char>|
            exists|i: int|
                0 <= i < table.len() && ((#[trigger] table[i]).0 == name || table[i].1 == name),
    )
}

/// Calls `getopts::Options::new`, which gives a table with no option in it
/// that parses in the default style.
#[verifier::external_body]
pub(crate) fn options_new() -> (options: getopts::Options)
    ensures
        option_table(options) == Seq::<(Seq<char>, Seq<char>, bool)>::empty(),
        option_help(options) == Seq::<(Seq<char>, Seq<char>)>::empty(),
        is_plain(options),
{
    getopts::Options::new()
}

/// Calls `getopts::Options::optopt`, which appends to the table an option
/// that may be left out and takes a value, with its description and its
/// hint, and changes nothing else. The
/// method panics on a short name of more than one byte and on a long name
/// of exactly one byte: the names admitted here are a single ASCII
/// character and two characters or more.
#[verifier::external_body]
pub(crate) fn optopt(
    options: &mut getopts::Options,
    short_name: &str,
    long_name: &str,
    desc: &str,
    hint: &str,
)
    requires
        short_name@.len() == 1,
        short_name.is_ascii(),
        long_name@.len() >= 2,
    ensures
        option_table(*final(options)) == option_table(*old(options)).push(
            (short_name@, long_name@, true),
        ),
        option_help(*final(options)) == option_help(*old(options)).push((desc@, hint@)),
        is_plain(*final(options)) == is_plain(*old(options)),
{
    options.optopt(short_name, long_name, desc, hint);
}

/// Calls `getopts::Options::optflag`, which appends to the table an option
/// that may be left out and takes no value, with its description and an
/// empty hint, and changes nothing else. It checks the names as `optopt`
/// does.
#[verifier::external_body]
pub(crate) fn optflag(options: &mut getopts::Options, short_name: &str, long_name: &str, desc: &str)
    requires
        short_name@.len() == 1,
        short_name.is_ascii(),
        long_name@.len() >= 2,
    ensures
        option_table(*final(options)) == option_table(*old(options)).push(
            (short_name@, long_name@, false),
        ),
        option_help(*final(options)) == option_help(*old(options)).push(
            (desc@, Seq::<char>::empty()),
        ),
        is_plain(*final(options)) == is_plain(*old(options)),
{
    options.optflag(short_name, long_name, desc);
}

/// Calls `getopts::Options::parse` on the arguments. The method panics on
/// a table with an option that has no name at all, which `well_named` rules
/// out. Against a plain table its result depends on the names of the
/// options, on which of them take a value, and on the arguments, and on
/// nothing else: that result is what `parse_outcome` names. A successful
/// parse can be asked about exactly the names of the table.
#[verifier::external_body]
pub(crate) fn parse(options: &getopts::Options, args: &Vec<String>) -> (r: Result<
    getopts::Matches,
    getopts::Fail,
>)
    requires
        is_plain(*options),
        well_named(option_table(*options)),
    ensures
        parse_view(r) == parse_outcome(option_table(*options), args.deep_view()),
        r matches Ok(m) ==> matched(m).dom() == table_names(option_table(*options)),
{
    options.parse(args)
}

/// Calls `getopts::Matches::opt_present`, which says whether the option
/// occurred at all. The method panics on a name that the table does not
/// define.
#[verifier::external_body]
pub(crate) fn opt_present(matches: &getopts::Matches, name: &str) -> (present: bool)
    requires
        matched(*matches).dom().contains(name@),
    ensures
        present == (matched(*matches)[name@].len() > 0),
{
    matches.opt_present(name)
}

/// Calls `getopts::Matches::opt_str`, which gives the value of the option's
/// first occurrence, and `None` where the option did not occur or its first
/// occurrence had no value. The method panics on a name that the table does
/// not define.
#[verifier::external_body]
pub(crate) fn opt_str(matches: &getopts::Matches, name: &str) -> (value: Option<String>)
    requires
        matched(*matches).dom().contains(name@),
    ensures
        match value {
            Some(s) => matched(*matches)[name@].len() > 0 && matched(*matches)[name@][0] == Some(
                s@,
            ),
            None => matched(*matches)[name@].len() == 0 || matched(*matches)[name@][0] is None,
        },
{
    matches.opt_str(name)
}

/// Calls `getopts::Options::usage`, which lays out the table as a help
/// text under the line `brief`. For a plain table the text depends on the
/// names of the options, on which of them take a value, on their
/// descriptions and hints, and on the brief, and on nothing else: that text
/// is what `usage_text` names.
#[verifier::external_body]
pub(crate) fn usage(options: &getopts::Options, brief: &str) -> (laid_out: String)
    requires
        is_plain(*options),
    ensures
        laid_out@ == usage_text(option_table(*options), option_help(*options), brief@),
{
    options.usage(brief)
}

/// Calls `to_string` on a `getopts::Fail`, which words the failure for the
/// user.
#[verifier::external_body]
pub(crate) fn fail_message(fail: &getopts::Fail) -> (message: String)
    ensures
        message@ == fail_text(*fail),
{
    fail.to_string()
}

} // verus!
