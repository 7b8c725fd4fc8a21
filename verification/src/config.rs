//! From the command line and the environment to a configuration and a
//! rewrite table.

use vstd::prelude::*;
use crate::cli::{
    cli_groups, command_line_of, parse_outcome, read_command_line, CommandLine, CommandLineView,
    OptionError, OptionFailure, Parsed,
};
use crate::rewrite::{
    entry_for, translation, with_job_control_defaults, with_rule, RewriteSignal, RewriteTable,
};
use crate::rule::rule_of_text;
use crate::signal::{job_control, rewritable, SIGSTOP};

verus! {

/// How the supervisor runs its command.
#[derive(Debug)]
pub struct Config {
    process_group: bool,
    debug: bool,
    command: Vec<String>,
}

/// A configuration as plain values.
pub struct ConfigView {
    /// Whether the command gets a session of its own and signals go to its
    /// whole process group.
    pub process_group: bool,
    /// Whether the supervisor reports what it does.
    pub debug: bool,
    /// The command and its arguments.
    pub command: Seq<Seq<char>>,
}

impl View for Config {
    type V = ConfigView;

    closed spec fn view(&self) -> ConfigView {
        ConfigView {
            process_group: self.process_group,
            debug: self.debug,
            command: self.command.deep_view(),
        }
    }
}

impl Config {
    #[verifier::type_invariant]
    spec fn inv(self) -> bool {
        self.command.len() > 0
    }

    /// Whether the command gets a session of its own and signals go to its
    /// whole process group.
    pub fn process_group(&self) -> (yes: bool)
        ensures
            yes == self@.process_group,
    {
        self.process_group
    }

    /// Whether the supervisor reports what it does.
    pub fn debug(&self) -> (yes: bool)
        ensures
            yes == self@.debug,
    {
        self.debug
    }

    /// The command and its arguments; there is always a command.
    pub fn command(&self) -> (command: &Vec<String>)
        ensures
            command.deep_view() == self@.command,
            command.len() > 0,
    {
        proof {
            use_type_invariant(self);
        }
        &self.command
    }
}

/// Why a command line is rejected.
#[derive(Debug, PartialEq, Eq)]
pub enum ConfigError {
    /// getopts refused it.
    Option(OptionError),
    /// This argument of `-r` writes no rewrite rule.
    Rule(String),
    /// There is no command to run.
    MissingCommand,
}

/// A rejection as plain values.
pub enum ConfigErrorView {
    Option { kind: OptionFailure, name: Seq<char> },
    Rule(Seq<char>),
    MissingCommand,
}

impl View for ConfigError {
    type V = ConfigErrorView;

    open spec fn view(&self) -> ConfigErrorView {
        match self {
            ConfigError::Option(e) => ConfigErrorView::Option { kind: e.kind, name: e.name@ },
            ConfigError::Rule(text) => ConfigErrorView::Rule(text@),
            ConfigError::MissingCommand => ConfigErrorView::MissingCommand,
        }
    }
}

/// What the program is to do once it has read its command line.
#[derive(Debug)]
pub enum Startup {
    /// Run the command under this configuration and rewrite table.
    Run { config: Config, table: RewriteTable },
    /// Print the help text and leave with success.
    Help,
    /// Print the version and leave with success.
    Version,
    /// Report the error and leave with failure; nothing is started.
    Rejected(ConfigError),
}

/// A startup decision as plain values.
pub enum StartupView {
    Run { config: ConfigView, table: Map<int, RewriteSignal> },
    Help,
    Version,
    Rejected(ConfigErrorView),
}

impl View for Startup {
    type V = StartupView;

    open spec fn view(&self) -> StartupView {
        match self {
            Startup::Run { config, table } => StartupView::Run { config: config@, table: table@ },
            Startup::Help => StartupView::Help,
            Startup::Version => StartupView::Version,
            Startup::Rejected(e) => StartupView::Rejected(e@),
        }
    }
}

/// The exit code with which the program leaves at once, if it does: 0 after
/// help or version, 1 after a rejection.
pub open spec fn startup_exit_code(startup: StartupView) -> Option<i32> {
    match startup {
        StartupView::Run { .. } => None,
        StartupView::Help => Some(0),
        StartupView::Version => Some(0),
        StartupView::Rejected(_) => Some(1),
    }
}

impl Startup {
    /// The exit code with which the program leaves at once; `None` where it
    /// goes on to run the command.
    pub fn exit_code(&self) -> (code: Option<i32>)
        ensures
            code == startup_exit_code(self@),
    {
        match self {
            Startup::Run { .. } => None,
            Startup::Help => Some(0),
            Startup::Version => Some(0),
            Startup::Rejected(_) => Some(1),
        }
    }
}

/// Whether every one of `rewrites` writes a rule.
pub open spec fn all_rules(rewrites: Seq<Seq<char>>) -> bool {
    forall|i: int| 0 <= i < rewrites.len() ==> rule_of_text(#[trigger] rewrites[i]).is_some()
}

/// Whether `rewrites[i]` is the first of `rewrites` that writes no rule.
pub open spec fn first_bad_rule(rewrites: Seq<Seq<char>>, i: int) -> bool {
    &&& 0 <= i < rewrites.len()
    &&& rule_of_text(rewrites[i]).is_none()
    &&& all_rules(rewrites.take(i))
}

/// The table that the rules `rewrites` fill, taken in order: a later rule for
/// a signal replaces an earlier one.
pub open spec fn table_of_rules(rewrites: Seq<Seq<char>>) -> Map<int, RewriteSignal>
    decreases rewrites.len(),
{
    if rewrites.len() == 0 {
        Map::empty()
    } else {
        with_rule(table_of_rules(rewrites.drop_last()), rule_of_text(rewrites.last()))
    }
}

/// The environment variable that switches reporting on.
pub const DEBUG_VARIABLE: &'static str = "DUMB_INIT_DEBUG";

/// The environment variable that switches process-group mode off.
pub const SETSID_VARIABLE: &'static str = "DUMB_INIT_SETSID";

/// The value of the environment variable that switches reporting on.
pub open spec fn debug_switch() -> Seq<char> {
    seq!['1']
}

/// The value of the environment variable that switches process-group mode
/// off.
pub open spec fn setsid_switch() -> Seq<char> {
    seq!['0']
}

/// The startup decision for the command line `line`, where `debug_env` and
/// `setsid_env` are the values of the two environment variables, empty where
/// one is not set.
///
/// Help goes before version, and both before any complaint. Then every
/// argument of `-r` must write a rule, and there must be a command. The
/// environment can only switch reporting on and process-group mode off. In
/// process-group mode the job-control stop signals that have no rule are
/// replaced by the uncatchable stop.
pub open spec fn configured(
    line: CommandLineView,
    debug_env: Seq<char>,
    setsid_env: Seq<char>,
) -> StartupView {
    if line.help {
        StartupView::Help
    } else if line.version {
        StartupView::Version
    } else if !all_rules(line.rewrites) {
        StartupView::Rejected(
            ConfigErrorView::Rule(
                line.rewrites[choose|i: int| first_bad_rule(line.rewrites, i)],
            ),
        )
    } else if line.command.len() == 0 {
        StartupView::Rejected(ConfigErrorView::MissingCommand)
    } else {
        let process_group = !line.single_child && setsid_env != setsid_switch();
        StartupView::Run {
            config: ConfigView {
                process_group,
                debug: line.verbose || debug_env == debug_switch(),
                command: line.command,
            },
            table: if process_group {
                with_job_control_defaults(table_of_rules(line.rewrites))
            } else {
                table_of_rules(line.rewrites)
            },
        }
    }
}

/// Tells whether `text` is the one character `c`.
fn is_char(text: &str, c: char) -> (yes: bool)
    ensures
        yes == (text@ == seq![c]),
{
    let yes = text.unicode_len() == 1 && text.get_char(0) == c;
    assert(yes ==> text@ =~= seq![c]);
    yes
}

/// Only one of `rewrites` can be the first that writes no rule.
proof fn lemma_first_bad_rule_unique(rewrites: Seq<Seq<char>>, i: int, j: int)
    requires
        first_bad_rule(rewrites, i),
        first_bad_rule(rewrites, j),
    ensures
        i == j,
{
    if i < j {
        assert(rewrites.take(j)[i] == rewrites[i]);
    } else if j < i {
        assert(rewrites.take(i)[j] == rewrites[j]);
    }
}

/// Decides the startup from a command line that getopts has taken apart, and
/// from the values of the two environment variables (empty where one is not
/// set).
pub fn configure(line: CommandLine, debug_env: &str, setsid_env: &str) -> (startup: Startup)
    ensures
        startup@ == configured(line@, debug_env@, setsid_env@),
{
    if line.help {
        return Startup::Help;
    }
    if line.version {
        return Startup::Version;
    }
    let mut table = RewriteTable::new();
    let ghost rewrites = line.rewrites.deep_view();
    let mut i: usize = 0;
    while i < line.rewrites.len()
        invariant
            0 <= i <= line.rewrites.len(),
            !line.help,
            !line.version,
            rewrites == line.rewrites.deep_view(),
            all_rules(rewrites.take(i as int)),
            table@ == table_of_rules(rewrites.take(i as int)),
        decreases line.rewrites.len() - i,
    {
        let accepted = table.parse_rewrite_signum(line.rewrites[i].as_str());
        assert(rewrites[i as int] == line.rewrites[i as int]@);
        if !accepted {
            proof {
                assert(first_bad_rule(rewrites, i as int));
                let k = choose|k: int| first_bad_rule(rewrites, k);
                lemma_first_bad_rule_unique(rewrites, i as int, k);
            }
            return Startup::Rejected(ConfigError::Rule(line.rewrites[i].clone()));
        }
        proof {
            assert(rewrites.take(i + 1).drop_last() =~= rewrites.take(i as int));
            assert forall|j: int| 0 <= j < i + 1 implies rule_of_text(
                #[trigger] rewrites.take(i + 1)[j],
            ).is_some() by {
                if j < i {
                    assert(rewrites.take(i as int)[j] == rewrites[j]);
                }
            }
        }
        i = i + 1;
    }
    assert(rewrites.take(i as int) =~= rewrites);
    if line.command.len() == 0 {
        return Startup::Rejected(ConfigError::MissingCommand);
    }
    let debug = line.verbose || is_char(debug_env, '1');
    let process_group = !line.single_child && !is_char(setsid_env, '0');
    if process_group {
        table.stop_on_job_control();
    }
    Startup::Run { config: Config { process_group, debug, command: line.command }, table }
}

/// The startup decision for the arguments `args`: what getopts makes of them
/// decides, then `configured`.
pub open spec fn startup_of(
    args: Seq<Seq<char>>,
    debug_env: Seq<char>,
    setsid_env: Seq<char>,
) -> StartupView {
    match parse_outcome(cli_groups(), true, args) {
        Parsed::Matched { occurrences, free } => configured(
            command_line_of(occurrences, free),
            debug_env,
            setsid_env,
        ),
        Parsed::Failed { kind, name } => StartupView::Rejected(
            ConfigErrorView::Option { kind, name },
        ),
    }
}

/// Reads the arguments `args` (without the program's own name) and decides
/// the startup. `debug_env` and `setsid_env` are the values of the two
/// environment variables, empty where one is not set.
pub fn parse_command(args: &Vec<String>, debug_env: &str, setsid_env: &str) -> (startup: Startup)
    ensures
        startup@ == startup_of(args.deep_view(), debug_env@, setsid_env@),
{
    match read_command_line(args) {
        Ok(line) => configure(line, debug_env, setsid_env),
        Err(e) => Startup::Rejected(ConfigError::Option(e)),
    }
}

/// Whether `rewrites[i]` writes a rule for the signal `signum`.
pub open spec fn rule_for(rewrites: Seq<Seq<char>>, i: int, signum: int) -> bool {
    &&& 0 <= i < rewrites.len()
    &&& rule_of_text(rewrites[i]) matches Some(rule)
    &&& rule.signum == signum
}

/// Whether one of `rewrites` writes a rule for the signal `signum`.
pub open spec fn has_rule(rewrites: Seq<Seq<char>>, signum: int) -> bool {
    exists|i: int| rule_for(rewrites, i, signum)
}

/// Whether `rewrites[i]` writes the last rule for the signal `signum`.
pub open spec fn last_rule_for(rewrites: Seq<Seq<char>>, i: int, signum: int) -> bool {
    &&& rule_for(rewrites, i, signum)
    &&& forall|j: int| i < j < rewrites.len() ==> !rule_for(rewrites, j, signum)
}

/// The table that rules fill has an entry for exactly the signals that have a
/// rule, and the entry is the one that the last rule for the signal asks for.
pub proof fn lemma_table_of_rules(rewrites: Seq<Seq<char>>, signum: int)
    ensures
        table_of_rules(rewrites).dom().contains(signum) <==> has_rule(rewrites, signum),
        forall|i: int|
            last_rule_for(rewrites, i, signum) ==> table_of_rules(rewrites)[signum] == entry_for(
                rule_of_text(rewrites[i]).unwrap().replacement,
            ),
    decreases rewrites.len(),
{
    if rewrites.len() > 0 {
        let init = rewrites.drop_last();
        let n = rewrites.len() - 1;
        lemma_table_of_rules(init, signum);
        assert forall|i: int| 0 <= i < n implies rule_for(init, i, signum) == rule_for(
            rewrites,
            i,
            signum,
        ) by {
            assert(init[i] == rewrites[i]);
        }
        if rule_for(rewrites, n, signum) {
            assert forall|i: int| last_rule_for(rewrites, i, signum) implies i == n by {
                if i < n {
                    assert(!rule_for(rewrites, n, signum));
                }
            }
        } else {
            if has_rule(rewrites, signum) {
                let i = choose|i: int| rule_for(rewrites, i, signum);
                assert(rule_for(init, i, signum));
            }
            if has_rule(init, signum) {
                let i = choose|i: int| rule_for(init, i, signum);
                assert(rule_for(rewrites, i, signum));
            }
            assert forall|i: int| last_rule_for(rewrites, i, signum) implies last_rule_for(
                init,
                i,
                signum,
            ) by {
                assert(rule_for(init, i, signum));
                assert forall|j: int| i < j < init.len() implies !rule_for(init, j, signum) by {
                    assert(!rule_for(rewrites, j, signum));
                }
            }
        }
    } else {
        assert(!has_rule(rewrites, signum));
    }
}

/// In the table of a configuration that runs, a signal from 1 to 31 with a
/// rule is translated as the last rule for it says: dropped where the rule's
/// replacement is 0, replaced by the replacement otherwise.
pub proof fn law_rule_decides(
    line: CommandLineView,
    debug_env: Seq<char>,
    setsid_env: Seq<char>,
    i: int,
    signum: i32,
)
    requires
        configured(line, debug_env, setsid_env) is Run,
        last_rule_for(line.rewrites, i, signum as int),
    ensures
        rewritable(signum as int),
        translation(configured(line, debug_env, setsid_env)->table, signum) == ({
            let replacement = rule_of_text(line.rewrites[i]).unwrap().replacement;
            if replacement == 0 {
                None
            } else {
                Some(replacement)
            }
        }),
{
    lemma_table_of_rules(line.rewrites, signum as int);
    assert(has_rule(line.rewrites, signum as int));
}

/// In the table of a configuration that runs, a signal from 1 to 31 without a
/// rule passes through, unless it is a job-control stop signal in
/// process-group mode.
pub proof fn law_no_rule_passes(
    line: CommandLineView,
    debug_env: Seq<char>,
    setsid_env: Seq<char>,
    signum: i32,
)
    requires
        configured(line, debug_env, setsid_env) is Run,
        !has_rule(line.rewrites, signum as int),
        !(configured(line, debug_env, setsid_env)->config.process_group && job_control(
            signum as int,
        )),
    ensures
        translation(configured(line, debug_env, setsid_env)->table, signum) == Some(signum),
{
    lemma_table_of_rules(line.rewrites, signum as int);
}

/// In process-group mode, a job-control stop signal without a rule is
/// replaced by the uncatchable stop.
pub proof fn law_job_control_stops(
    line: CommandLineView,
    debug_env: Seq<char>,
    setsid_env: Seq<char>,
    signum: i32,
)
    requires
        configured(line, debug_env, setsid_env) is Run,
        configured(line, debug_env, setsid_env)->config.process_group,
        job_control(signum as int),
        !has_rule(line.rewrites, signum as int),
    ensures
        translation(configured(line, debug_env, setsid_env)->table, signum) == Some(SIGSTOP),
{
    lemma_table_of_rules(line.rewrites, signum as int);
}

/// With `-c` the configuration is never in process-group mode, and its table
/// holds the rules alone: no job-control stop signal gets an entry that no
/// rule asked for.
pub proof fn law_single_child(line: CommandLineView, debug_env: Seq<char>, setsid_env: Seq<char>)
    requires
        configured(line, debug_env, setsid_env) is Run,
        line.single_child,
    ensures
        !configured(line, debug_env, setsid_env)->config.process_group,
        configured(line, debug_env, setsid_env)->table == table_of_rules(line.rewrites),
        forall|signum: i32|
            job_control(signum as int) && !has_rule(line.rewrites, signum as int) ==> #[trigger] translation(
                configured(line, debug_env, setsid_env)->table,
                signum,
            ) == Some(signum),
{
    assert forall|signum: i32|
        job_control(signum as int) && !has_rule(line.rewrites, signum as int) implies #[trigger] translation(
        configured(line, debug_env, setsid_env)->table,
        signum,
    ) == Some(signum) by {
        lemma_table_of_rules(line.rewrites, signum as int);
    }
}

/// The environment only restricts: it never switches process-group mode on
/// against `-c`, and never switches reporting off against `-v`.
pub proof fn law_environment_restricts(
    line: CommandLineView,
    debug_env: Seq<char>,
    setsid_env: Seq<char>,
)
    requires
        configured(line, debug_env, setsid_env) is Run,
    ensures
        line.verbose ==> configured(line, debug_env, setsid_env)->config.debug,
        line.single_child ==> !configured(line, debug_env, setsid_env)->config.process_group,
        configured(line, debug_env, setsid_env)->config.command == line.command,
        line.command.len() > 0,
{
}

} // verus!
