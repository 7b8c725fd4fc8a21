//! The command line, read with the getopts crate.

use vstd::prelude::*;
use getopts::{Fail, Matches, Options, ParsingStyle};

verus! {

#[verifier::external_type_specification]
#[verifier::external_body]
pub struct ExOptions(Options);

#[verifier::external_type_specification]
#[verifier::external_body]
pub struct ExMatches(Matches);

/// One option as getopts knows it: its one-letter name and its long name
/// (either may be empty), and whether it is a flag, which takes no argument
/// and may be given once, or takes an argument and may be given many times.
pub struct OptionGroup {
    pub short: Seq<char>,
    pub long: Seq<char>,
    pub takes_value: bool,
}

/// The ways in which getopts refuses a command line.
#[derive(Clone, Copy, Debug, PartialEq, Eq, Structural)]
pub enum OptionFailure {
    /// The option takes an argument and none was given.
    ArgumentMissing,
    /// The option is not among those declared.
    UnrecognizedOption,
    /// A required option is absent.
    OptionMissing,
    /// A flag was given more than once.
    OptionDuplicated,
    /// A flag was given an argument.
    UnexpectedArgument,
}

/// A refusal by getopts, with the name of the option it is about.
#[derive(Debug, PartialEq, Eq)]
pub struct OptionError {
    pub kind: OptionFailure,
    pub name: String,
}

/// What getopts makes of a command line.
pub enum Parsed {
    /// For each name by which a declared option can be asked for, its
    /// occurrences in order, each with the argument it was given, if any;
    /// and the arguments that belong to no option.
    Matched { occurrences: Map<Seq<char>, Seq<Option<Seq<char>>>>, free: Seq<Seq<char>> },
    /// The refusal and the option it names.
    Failed { kind: OptionFailure, name: Seq<char> },
}

/// The options that `opts` holds, in the order in which they were declared.
pub uninterp spec fn option_groups(opts: Options) -> Seq<OptionGroup>;

/// Whether `opts` is set to take everything from the first free argument on
/// as free arguments.
pub uninterp spec fn stops_at_first_free(opts: Options) -> bool;

/// What `Options::parse` returns for the arguments `args`, where the options
/// `groups` are declared and `stop` says whether parsing stops at the first
/// free argument.
pub uninterp spec fn parse_outcome(groups: Seq<OptionGroup>, stop: bool, args: Seq<Seq<char>>) -> Parsed;

/// What `matches` holds for each name by which a declared option can be
/// asked for: the occurrences of that option in order, each with its argument.
pub uninterp spec fn occurrences(matches: Matches) -> Map<Seq<char>, Seq<Option<Seq<char>>>>;

/// The free arguments that `matches` holds.
pub uninterp spec fn free_arguments(matches: Matches) -> Seq<Seq<char>>;

/// The arguments among `found`, in order.
pub open spec fn given_values(found: Seq<Option<Seq<char>>>) -> Seq<Seq<char>> {
    found.filter(|o: Option<Seq<char>>| o.is_some()).map_values(|o: Option<Seq<char>>| o.unwrap())
}

/// Whether getopts takes `short` and `long` as the names of one option: the
/// short name is empty or one ASCII character, the long name is empty or
/// longer than one character.
pub open spec fn names_accepted(short: Seq<char>, long: Seq<char>) -> bool {
    &&& short.len() <= 1
    &&& forall|i: int| 0 <= i < short.len() ==> '\0' <= #[trigger] short[i] <= '\u{7f}'
    &&& long.len() != 1
}

/// Whether each of `groups` has a name.
pub open spec fn all_named(groups: Seq<OptionGroup>) -> bool {
    forall|i: int|
        0 <= i < groups.len() ==> (#[trigger] groups[i]).short.len() > 0 || groups[i].long.len() > 0
}

/// Whether `names` holds every name of every one of `groups`.
pub open spec fn names_known(groups: Seq<OptionGroup>, names: Set<Seq<char>>) -> bool {
    forall|i: int|
        0 <= i < groups.len() ==> {
            &&& (#[trigger] groups[i]).short.len() > 0 ==> names.contains(groups[i].short)
            &&& groups[i].long.len() > 0 ==> names.contains(groups[i].long)
        }
}

/// `Options::new`: no option is declared, and free arguments may stand
/// anywhere.
#[verifier::external_body]
fn new_options() -> (opts: Options)
    ensures
        option_groups(opts) == Seq::<OptionGroup>::empty(),
        !stops_at_first_free(opts),
{
    Options::new()
}

/// `Options::parsing_style` with `StopAtFirstFree`: the declared options
/// stay, and parsing stops at the first free argument.
#[verifier::external_body]
fn stop_at_first_free(opts: &mut Options)
    ensures
        option_groups(*final(opts)) == option_groups(*old(opts)),
        stops_at_first_free(*final(opts)),
{
    opts.parsing_style(ParsingStyle::StopAtFirstFree);
}

/// `Options::optflag`: declares one more option, a flag. getopts panics on
/// names it does not accept, so they are required to be acceptable.
#[verifier::external_body]
fn add_flag(opts: &mut Options, short: &str, long: &str)
    requires
        names_accepted(short@, long@),
    ensures
        option_groups(*final(opts)) == option_groups(*old(opts)).push(
            OptionGroup { short: short@, long: long@, takes_value: false },
        ),
        stops_at_first_free(*final(opts)) == stops_at_first_free(*old(opts)),
{
    opts.optflag(short, long, "");
}

/// `Options::optmulti`: declares one more option, which takes an argument
/// and may be given many times. getopts panics on names it does not accept, so
/// they are required to be acceptable.
#[verifier::external_body]
fn add_multi(opts: &mut Options, short: &str, long: &str)
    requires
        names_accepted(short@, long@),
    ensures
        option_groups(*final(opts)) == option_groups(*old(opts)).push(
            OptionGroup { short: short@, long: long@, takes_value: true },
        ),
        stops_at_first_free(*final(opts)) == stops_at_first_free(*old(opts)),
{
    opts.optmulti(short, long, "", "");
}

/// `Options::parse`: the result is the one getopts gives for these options
/// and arguments. Where it matches, every name of a declared option can be
/// asked for. getopts panics on an option without any name, so each declared
/// option is required to have one.
#[verifier::external_body]
fn parse(opts: &Options, args: &Vec<String>) -> (result: Result<Matches, OptionError>)
    requires
        all_named(option_groups(*opts)),
    ensures
        match result {
            Ok(m) => {
                &&& parse_outcome(
                    option_groups(*opts),
                    stops_at_first_free(*opts),
                    args.deep_view(),
                ) == (Parsed::Matched { occurrences: occurrences(m), free: free_arguments(m) })
                &&& names_known(option_groups(*opts), occurrences(m).dom())
            },
            Err(e) => parse_outcome(
                option_groups(*opts),
                stops_at_first_free(*opts),
                args.deep_view(),
            ) == (Parsed::Failed { kind: e.kind, name: e.name@ }),
        },
{
    match opts.parse(args) {
        Ok(m) => Ok(m),
        Err(Fail::ArgumentMissing(name)) => Err(OptionError { kind: OptionFailure::ArgumentMissing, name }),
        Err(Fail::UnrecognizedOption(name)) => Err(OptionError { kind: OptionFailure::UnrecognizedOption, name }),
        Err(Fail::OptionMissing(name)) => Err(OptionError { kind: OptionFailure::OptionMissing, name }),
        Err(Fail::OptionDuplicated(name)) => Err(OptionError { kind: OptionFailure::OptionDuplicated, name }),
        Err(Fail::UnexpectedArgument(name)) => Err(OptionError { kind: OptionFailure::UnexpectedArgument, name }),
    }
}

/// `Matches::opt_present`: whether the option occurred. getopts panics on a
/// name that no declared option has, so the name is required to be known.
#[verifier::external_body]
fn opt_present(matches: &Matches, name: &str) -> (present: bool)
    requires
        occurrences(*matches).dom().contains(name@),
    ensures
        present == (occurrences(*matches)[name@].len() > 0),
{
    matches.opt_present(name)
}

/// `Matches::opt_strs`: the arguments that the option was given, in order.
/// getopts panics on a name that no declared option has, so the name is
/// required to be known.
#[verifier::external_body]
fn opt_strs(matches: &Matches, name: &str) -> (values: Vec<String>)
    requires
        occurrences(*matches).dom().contains(name@),
    ensures
        values.deep_view() == given_values(occurrences(*matches)[name@]),
{
    matches.opt_strs(name)
}

/// The field `free` of `Matches`: the free arguments, in order.
#[verifier::external_body]
fn free_of(matches: &Matches) -> (free: Vec<String>)
    ensures
        free.deep_view() == free_arguments(*matches),
{
    matches.free.clone()
}

/// The options of the program, in the order of their declaration.
pub open spec fn cli_groups() -> Seq<OptionGroup> {
    seq![
        OptionGroup { short: "c"@, long: "single-child"@, takes_value: false },
        OptionGroup { short: "r"@, long: "rewrite"@, takes_value: true },
        OptionGroup { short: "v"@, long: "verbose"@, takes_value: false },
        OptionGroup { short: "h"@, long: "help"@, takes_value: false },
        OptionGroup { short: "V"@, long: "version"@, takes_value: false },
    ]
}

/// Declares the options of the program. Option parsing stops at the first
/// argument that is no option, so that the command keeps its own options.
fn cli_options() -> (opts: Options)
    ensures
        option_groups(opts) == cli_groups(),
        stops_at_first_free(opts),
{
    proof {
        reveal_strlit("c");
        reveal_strlit("single-child");
        reveal_strlit("r");
        reveal_strlit("rewrite");
        reveal_strlit("v");
        reveal_strlit("verbose");
        reveal_strlit("h");
        reveal_strlit("help");
        reveal_strlit("V");
        reveal_strlit("version");
    }
    let mut opts = new_options();
    stop_at_first_free(&mut opts);
    add_flag(&mut opts, "c", "single-child");
    add_multi(&mut opts, "r", "rewrite");
    add_flag(&mut opts, "v", "verbose");
    add_flag(&mut opts, "h", "help");
    add_flag(&mut opts, "V", "version");
    assert(option_groups(opts) =~= cli_groups());
    opts
}

/// What the command line says, option by option.
#[derive(Debug, PartialEq, Eq)]
pub struct CommandLine {
    /// `-c`, `--single-child`.
    pub single_child: bool,
    /// The arguments of `-r`, `--rewrite`, in order.
    pub rewrites: Vec<String>,
    /// `-v`, `--verbose`.
    pub verbose: bool,
    /// `-h`, `--help`.
    pub help: bool,
    /// `-V`, `--version`.
    pub version: bool,
    /// The command and its arguments: everything from the first argument on
    /// that is no option.
    pub command: Vec<String>,
}

/// A command line as plain values.
pub struct CommandLineView {
    pub single_child: bool,
    pub rewrites: Seq<Seq<char>>,
    pub verbose: bool,
    pub help: bool,
    pub version: bool,
    pub command: Seq<Seq<char>>,
}

impl View for CommandLine {
    type V = CommandLineView;

    open spec fn view(&self) -> CommandLineView {
        CommandLineView {
            single_child: self.single_child,
            rewrites: self.rewrites.deep_view(),
            verbose: self.verbose,
            help: self.help,
            version: self.version,
            command: self.command.deep_view(),
        }
    }
}

/// The command line that a match of the program's options stands for.
pub open spec fn command_line_of(
    occurrences: Map<Seq<char>, Seq<Option<Seq<char>>>>,
    free: Seq<Seq<char>>,
) -> CommandLineView {
    CommandLineView {
        single_child: occurrences["c"@].len() > 0,
        rewrites: given_values(occurrences["r"@]),
        verbose: occurrences["v"@].len() > 0,
        help: occurrences["h"@].len() > 0,
        version: occurrences["V"@].len() > 0,
        command: free,
    }
}

/// Reads the arguments `args` (without the program's own name) against the
/// options of the program.
pub fn read_command_line(args: &Vec<String>) -> (result: Result<CommandLine, OptionError>)
    ensures
        match parse_outcome(cli_groups(), true, args.deep_view()) {
            Parsed::Matched { occurrences, free } => result matches Ok(line) && line@
                == command_line_of(occurrences, free),
            Parsed::Failed { kind, name } => result matches Err(e) && e.kind == kind && e.name@
                == name,
        },
{
    let opts = cli_options();
    proof {
        reveal_strlit("c");
        reveal_strlit("r");
        reveal_strlit("v");
        reveal_strlit("h");
        reveal_strlit("V");
        assert(cli_groups()[0].short == "c"@);
        assert(cli_groups()[1].short == "r"@);
        assert(cli_groups()[2].short == "v"@);
        assert(cli_groups()[3].short == "h"@);
        assert(cli_groups()[4].short == "V"@);
    }
    match parse(&opts, args) {
        Ok(matches) => Ok(
            CommandLine {
                single_child: opt_present(&matches, "c"),
                rewrites: opt_strs(&matches, "r"),
                verbose: opt_present(&matches, "v"),
                help: opt_present(&matches, "h"),
                version: opt_present(&matches, "V"),
                command: free_of(&matches),
            },
        ),
        Err(e) => Err(e),
    }
}

} // verus!
