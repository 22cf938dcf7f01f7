//! Options of a command line.  Declaring the options, matching a command line
//! against them and the look into a match are `getopts`'s; nothing of them is
//! proved here.

use vstd::prelude::*;

verus! {

/// `getopts::Options`, the options that a program declares.
#[verifier::external_type_specification]
#[verifier::external_body]
pub struct ExOptions(getopts::Options);

/// `getopts::Matches`, a command line matched against the declared options.
#[verifier::external_type_specification]
#[verifier::external_body]
pub struct ExMatches(getopts::Matches);

/// The options that a `getopts::Options` holds, in the order in which they
/// were declared: of each its short name, its long name, and whether it takes
/// an argument.
pub uninterp spec fn options_declared(o: getopts::Options) -> Seq<(Seq<char>, Seq<char>, bool)>;

/// What `getopts::Options::parse` makes of the arguments `args`, with the
/// options `declared`, none of them required or repeatable, and otherwise as
/// `getopts::Options::new` sets it up: the match, or `None` where the
/// arguments do not fit the options.
pub uninterp spec fn getopts_parsed(
    declared: Seq<(Seq<char>, Seq<char>, bool)>,
    args: Seq<Seq<char>>,
) -> Option<getopts::Matches>;

/// The options that a `getopts::Matches` was matched against.
pub uninterp spec fn matches_declared(m: getopts::Matches) -> Seq<(Seq<char>, Seq<char>, bool)>;

/// What `getopts::Matches::opt_present` says of the option `name`.
pub uninterp spec fn matches_present(m: getopts::Matches, name: Seq<char>) -> bool;

/// What `getopts::Matches::opt_str` gives for the option `name`.
pub uninterp spec fn matches_str(m: getopts::Matches, name: Seq<char>) -> Option<Seq<char>>;

/// Names that `getopts` takes for an option: a short name of one ASCII
/// character, which is one byte, and a long name of more than one character,
/// which is more than one byte.
pub open spec fn spec_names_ok(short_name: Seq<char>, long_name: Seq<char>) -> bool {
    short_name.len() == 1 && '\0' <= short_name[0] <= '\u{7f}' && long_name.len() > 1
}

/// The option `name` is among `declared`, by its short or its long name.
pub open spec fn spec_declares(declared: Seq<(Seq<char>, Seq<char>, bool)>, name: Seq<char>)
    -> bool {
    name.len() > 0 && exists|i: int|
        0 <= i < declared.len() && (#[trigger] declared[i].0 == name || declared[i].1 == name)
}

/// The texts of a command line.
pub open spec fn spec_texts(args: Seq<String>) -> Seq<Seq<char>> {
    Seq::new(args.len(), |i: int| args[i]@)
}

/// Calls `getopts::Options::new`: no option declared.
#[verifier::external_body]
pub(crate) fn options_new() -> (o: getopts::Options)
    ensures
        options_declared(o) == Seq::<(Seq<char>, Seq<char>, bool)>::empty(),
{
    getopts::Options::new()
}

/// Calls `getopts::Options::optopt`: declares one more option, optional and
/// with an argument.  The names are such that the call does not panic.
#[verifier::external_body]
pub(crate) fn options_optopt(
    o: &mut getopts::Options,
    short_name: &str,
    long_name: &str,
    desc: &str,
    hint: &str,
)
    requires
        spec_names_ok(short_name@, long_name@),
    ensures
        options_declared(*final(o)) == options_declared(*old(o)).push(
            (short_name@, long_name@, true),
        ),
{
    o.optopt(short_name, long_name, desc, hint);
}

/// Calls `getopts::Options::optflag`: declares one more option, optional and
/// without an argument.  The names are such that the call does not panic.
#[verifier::external_body]
pub(crate) fn options_optflag(
    o: &mut getopts::Options,
    short_name: &str,
    long_name: &str,
    desc: &str,
)
    requires
        spec_names_ok(short_name@, long_name@),
    ensures
        options_declared(*final(o)) == options_declared(*old(o)).push(
            (short_name@, long_name@, false),
        ),
{
    o.optflag(short_name, long_name, desc);
}

/// Calls `getopts::Options::parse`.  The result is a function of the declared
/// options and the arguments; a match keeps the options it was matched
/// against; a failure is handed on as `None`.
#[verifier::external_body]
pub(crate) fn options_parse(o: &getopts::Options, args: &[String]) -> (r: Option<
    getopts::Matches,
>)
    ensures
        r == getopts_parsed(options_declared(*o), spec_texts(args@)),
        r is Some ==> matches_declared(r.unwrap()) == options_declared(*o),
{
    match o.parse(args) {
        Ok(m) => Some(m),
        Err(_) => None,
    }
}

/// Calls `getopts::Matches::opt_present`, which panics for a name that was
/// not declared.
#[verifier::external_body]
pub(crate) fn matches_opt_present(m: &getopts::Matches, name: &str) -> (r: bool)
    requires
        spec_declares(matches_declared(*m), name@),
    ensures
        r == matches_present(*m, name@),
{
    m.opt_present(name)
}

/// Calls `getopts::Matches::opt_str`, which panics for a name that was not
/// declared: the argument of the option, if it was given one.
#[verifier::external_body]
pub(crate) fn matches_opt_str(m: &getopts::Matches, name: &str) -> (r: Option<String>)
    requires
        spec_declares(matches_declared(*m), name@),
    ensures
        r is Some == matches_str(*m, name@) is Some,
        r is Some ==> r.unwrap()@ == matches_str(*m, name@).unwrap(),
{
    m.opt_str(name)
}

} // verus!
