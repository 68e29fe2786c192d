//! Command-line argument parsing
//!
//! Defines the command-line interface: the program's own options and paths, and the
//! `run`, `watch` and `init` subcommands, with the grammar by which a command line is read.
//!
//! The grammar, level by level (the program itself, then the subcommand, if one is named):
//! - `--name` and `--name=value` are long options, `-abc` a cluster of short switches and
//!   `--` ends the options: what follows it is a path;
//! - an option that takes a value takes the next argument when no value is attached;
//! - on the program's own level, `run`, `watch`, `init` and `help` name a subcommand unless
//!   they stand where a path has just been given or a value is awaited;
//! - every option of the program's level is also accepted inside a subcommand;
//! - no argument may be given twice on one level, and `--write` excludes `--dry-run` and
//!   `--check`.
use vstd::prelude::*;

use crate::engine::replacer::option_text;
use crate::engine::text::{text_chars, texts};

verus! {

broadcast use vstd::string::group_string_axioms;

/// An on/off switch of the command line.
#[derive(Debug, Clone, Copy, PartialEq, Eq, Structural)]
pub enum Switch {
    DryRun,
    Write,
    Check,
    Backup,
    Verbose,
    Quiet,
}

/// An option that takes a value.
#[derive(Debug, Clone, Copy, PartialEq, Eq, Structural)]
pub enum Setting {
    Mode,
    Extensions,
    Exclude,
    Placeholder,
    Format,
}

/// The level of the command line that an argument belongs to.
#[derive(Debug, Clone, Copy, PartialEq, Eq, Structural)]
pub enum Scope {
    /// The program's own arguments, before any subcommand.
    Top,
    Run,
    Watch,
    Init,
}

/// What a named argument stands for.
#[derive(Debug, Clone, Copy, PartialEq, Eq, Structural)]
pub enum Named {
    On(Switch),
    Takes(Setting),
    Help,
    Version,
}

/// Why a command line gives no `Args`: a request for help or for the version, or the
/// reason it was refused.
#[derive(Debug, Clone, Copy, PartialEq, Eq, Structural)]
pub enum ArgsError {
    /// `--help`, `-h` or the `help` subcommand.
    DisplayHelp,
    /// `--version` or `-V`.
    DisplayVersion,
    /// An option that this level does not define, or a path where none is accepted.
    UnknownArgument,
    /// A value attached to a switch, such as `--dry-run=yes`.
    TooManyValues,
    /// An option without its value, or an empty path.
    EmptyValue,
    /// An argument given twice on one level, or two that exclude each other.
    ArgumentConflict,
    /// `help` followed by something that is not a subcommand.
    InvalidSubcommand,
}

/// The settings that one level of the command line gave.
pub struct SettingsView {
    pub dry_run: bool,
    pub write: bool,
    pub check: bool,
    pub backup: bool,
    pub verbose: bool,
    pub quiet: bool,
    pub mode: Option<Seq<char>>,
    pub extensions: Option<Seq<char>>,
    pub exclude: Option<Seq<char>>,
    pub placeholder: Option<Seq<char>>,
    pub format: Option<Seq<char>>,
}

/// What one level of the command line collected: its paths and its settings.
pub struct LevelView {
    pub paths: Seq<Seq<char>>,
    pub settings: SettingsView,
}

/// Where the reading of one level stands.
pub struct ScanState {
    pub level: LevelView,
    /// The option whose value the next argument gives.
    pub pending: Option<Setting>,
    /// Whether `--` was met: all that follows is a path.
    pub trailing: bool,
    /// Whether the last argument was a path.
    pub after_path: bool,
}

/// What one argument does to the reading of a level.
pub enum Step {
    Next(ScanState),
    /// A subcommand begins; the rest belongs to it.
    Enter(Scope),
    /// The `help` subcommand; the rest names the subcommand whose help is asked for.
    HelpWord,
    Stop(ArgsError),
}

/// The outcome of reading the arguments of one level.
pub enum Scanned {
    Failed(ArgsError),
    Done(ScanState),
    Entered(ScanState, Scope, Seq<Seq<char>>),
    Helped(Seq<Seq<char>>),
}

/// A subcommand, by the values it holds.
pub enum CommandView {
    Run(Seq<Seq<char>>, SettingsView),
    Watch(Seq<Seq<char>>, SettingsView),
    /// The path, if one was given, and the verbose and quiet switches.
    Init(Option<Seq<char>>, bool, bool),
}

/// A parsed command line, by the values it holds.
pub struct ArgsView {
    pub command: Option<CommandView>,
    pub paths: Seq<Seq<char>>,
    pub settings: SettingsView,
}

/// The texts of a list of arguments.
pub open spec fn words(args: Seq<&str>) -> Seq<Seq<char>> {
    args.map_values(|a: &str| a@)
}

/// No setting given.
pub open spec fn no_settings() -> SettingsView {
    SettingsView {
        dry_run: false,
        write: false,
        check: false,
        backup: false,
        verbose: false,
        quiet: false,
        mode: None,
        extensions: None,
        exclude: None,
        placeholder: None,
        format: None,
    }
}

/// The state in which the reading of a level starts.
pub open spec fn start_state() -> ScanState {
    ScanState {
        level: LevelView { paths: Seq::empty(), settings: no_settings() },
        pending: None,
        trailing: false,
        after_path: false,
    }
}

/// Whether `s` has the switch `w` on.
pub open spec fn switch_on(s: SettingsView, w: Switch) -> bool {
    match w {
        Switch::DryRun => s.dry_run,
        Switch::Write => s.write,
        Switch::Check => s.check,
        Switch::Backup => s.backup,
        Switch::Verbose => s.verbose,
        Switch::Quiet => s.quiet,
    }
}

/// `s` with the switch `w` on.
pub open spec fn with_switch(s: SettingsView, w: Switch) -> SettingsView {
    match w {
        Switch::DryRun => SettingsView { dry_run: true, ..s },
        Switch::Write => SettingsView { write: true, ..s },
        Switch::Check => SettingsView { check: true, ..s },
        Switch::Backup => SettingsView { backup: true, ..s },
        Switch::Verbose => SettingsView { verbose: true, ..s },
        Switch::Quiet => SettingsView { quiet: true, ..s },
    }
}

/// The value that `s` gives to the option `o`.
pub open spec fn value_of(s: SettingsView, o: Setting) -> Option<Seq<char>> {
    match o {
        Setting::Mode => s.mode,
        Setting::Extensions => s.extensions,
        Setting::Exclude => s.exclude,
        Setting::Placeholder => s.placeholder,
        Setting::Format => s.format,
    }
}

/// `s` with the option `o` set to `v`.
pub open spec fn with_value(s: SettingsView, o: Setting, v: Seq<char>) -> SettingsView {
    match o {
        Setting::Mode => SettingsView { mode: Some(v), ..s },
        Setting::Extensions => SettingsView { extensions: Some(v), ..s },
        Setting::Exclude => SettingsView { exclude: Some(v), ..s },
        Setting::Placeholder => SettingsView { placeholder: Some(v), ..s },
        Setting::Format => SettingsView { format: Some(v), ..s },
    }
}

/// What the long option `--name` stands for on the level `scope`.
pub open spec fn long_named(scope: Scope, name: Seq<char>) -> Option<Named> {
    if name == "dry-run"@ {
        Some(Named::On(Switch::DryRun))
    } else if name == "write"@ {
        Some(Named::On(Switch::Write))
    } else if name == "check"@ {
        Some(Named::On(Switch::Check))
    } else if name == "backup"@ {
        Some(Named::On(Switch::Backup))
    } else if name == "verbose"@ {
        Some(Named::On(Switch::Verbose))
    } else if name == "quiet"@ {
        Some(Named::On(Switch::Quiet))
    } else if name == "mode"@ {
        Some(Named::Takes(Setting::Mode))
    } else if name == "extensions"@ {
        Some(Named::Takes(Setting::Extensions))
    } else if name == "exclude"@ {
        Some(Named::Takes(Setting::Exclude))
    } else if name == "placeholder"@ {
        Some(Named::Takes(Setting::Placeholder))
    } else if name == "format"@ {
        Some(Named::Takes(Setting::Format))
    } else if name == "help"@ {
        Some(Named::Help)
    } else if name == "version"@ && scope == Scope::Top {
        Some(Named::Version)
    } else {
        None
    }
}

/// What the short switch `-c` stands for on the level `scope`.
pub open spec fn short_named(scope: Scope, c: char) -> Option<Named> {
    if c == 'v' {
        Some(Named::On(Switch::Verbose))
    } else if c == 'q' {
        Some(Named::On(Switch::Quiet))
    } else if c == 'h' {
        Some(Named::Help)
    } else if c == 'V' && scope == Scope::Top {
        Some(Named::Version)
    } else {
        None
    }
}

/// The subcommand that `t` names, other than `help`.
pub open spec fn subcommand_named(t: Seq<char>) -> Option<Scope> {
    if t == "run"@ {
        Some(Scope::Run)
    } else if t == "watch"@ {
        Some(Scope::Watch)
    } else if t == "init"@ {
        Some(Scope::Init)
    } else {
        None
    }
}

/// `--`, the end of the options.
pub open spec fn is_escape(t: Seq<char>) -> bool {
    t == seq!['-', '-']
}

/// A long option: `--` and a name, with or without `=value`.
pub open spec fn is_long(t: Seq<char>) -> bool {
    t.len() > 2 && t[0] == '-' && t[1] == '-'
}

/// A cluster of short switches: `-` and at least one character other than `-`.
pub open spec fn is_short(t: Seq<char>) -> bool {
    t.len() >= 2 && t[0] == '-' && t[1] != '-'
}

/// The index of the first `=` in `t` from `i` on, or the length of `t` if there is none.
pub open spec fn first_equals(t: Seq<char>, i: int) -> int
    decreases t.len() - i,
{
    if i >= t.len() {
        t.len() as int
    } else if t[i] == '=' {
        i
    } else {
        first_equals(t, i + 1)
    }
}

/// The name of a long option.
pub open spec fn long_name(t: Seq<char>) -> Seq<char> {
    t.subrange(2, first_equals(t, 2))
}

/// The value attached to a long option with `=`, if any.
pub open spec fn long_value(t: Seq<char>) -> Option<Seq<char>> {
    let e = first_equals(t, 2);
    if e < t.len() {
        Some(t.subrange(e + 1, t.len() as int))
    } else {
        None
    }
}

/// `st` with `v` as the value of the option `o`; refused when `o` already has one.
pub open spec fn value_step(st: ScanState, o: Setting, v: Seq<char>) -> Step {
    if value_of(st.level.settings, o) is Some {
        Step::Stop(ArgsError::ArgumentConflict)
    } else {
        Step::Next(
            ScanState {
                level: LevelView { settings: with_value(st.level.settings, o, v), ..st.level },
                pending: None,
                after_path: false,
                ..st
            },
        )
    }
}

/// A named argument, with the value attached to it if any.
pub open spec fn named_step(st: ScanState, n: Option<Named>, attached: Option<Seq<char>>) -> Step {
    match n {
        None => Step::Stop(ArgsError::UnknownArgument),
        Some(Named::Takes(o)) => {
            if st.pending is Some {
                Step::Stop(ArgsError::EmptyValue)
            } else {
                match attached {
                    Some(v) => value_step(st, o, v),
                    None => Step::Next(ScanState { pending: Some(o), after_path: false, ..st }),
                }
            }
        },
        Some(Named::On(w)) => {
            if attached is Some {
                Step::Stop(ArgsError::TooManyValues)
            } else if st.pending is Some {
                Step::Stop(ArgsError::EmptyValue)
            } else if switch_on(st.level.settings, w) {
                Step::Stop(ArgsError::ArgumentConflict)
            } else {
                Step::Next(
                    ScanState {
                        level: LevelView { settings: with_switch(st.level.settings, w), ..st.level },
                        after_path: false,
                        ..st
                    },
                )
            }
        },
        Some(Named::Help) => {
            if attached is Some {
                Step::Stop(ArgsError::TooManyValues)
            } else if st.pending is Some {
                Step::Stop(ArgsError::EmptyValue)
            } else {
                Step::Stop(ArgsError::DisplayHelp)
            }
        },
        Some(Named::Version) => {
            if attached is Some {
                Step::Stop(ArgsError::TooManyValues)
            } else if st.pending is Some {
                Step::Stop(ArgsError::EmptyValue)
            } else {
                Step::Stop(ArgsError::DisplayVersion)
            }
        },
    }
}

/// The short switches `cs`, one after the other.
pub open spec fn short_run(scope: Scope, st: ScanState, cs: Seq<char>) -> Step
    decreases cs.len(),
{
    if cs.len() == 0 {
        Step::Next(st)
    } else {
        match named_step(st, short_named(scope, cs[0]), None) {
            Step::Next(st2) => short_run(scope, st2, cs.drop_first()),
            other => other,
        }
    }
}

/// A path: the `init` subcommand takes one at most, and no path is empty.
pub open spec fn path_step(scope: Scope, st: ScanState, t: Seq<char>) -> Step {
    if scope == Scope::Init && st.level.paths.len() >= 1 {
        Step::Stop(ArgsError::UnknownArgument)
    } else if t.len() == 0 {
        Step::Stop(ArgsError::EmptyValue)
    } else {
        Step::Next(
            ScanState {
                level: LevelView { paths: st.level.paths.push(t), ..st.level },
                after_path: true,
                ..st
            },
        )
    }
}

/// Whether, on the level `scope`, an argument in state `st` may name a subcommand.
pub open spec fn may_enter(scope: Scope, st: ScanState) -> bool {
    scope == Scope::Top && !st.trailing && st.pending is None && !st.after_path
}

/// What the argument `t` does on the level `scope`, read in state `st`.
pub open spec fn step(scope: Scope, st: ScanState, t: Seq<char>) -> Step {
    if st.trailing {
        path_step(scope, st, t)
    } else if may_enter(scope, st) && subcommand_named(t) is Some {
        Step::Enter(subcommand_named(t)->0)
    } else if may_enter(scope, st) && t == "help"@ {
        Step::HelpWord
    } else if is_escape(t) {
        if st.pending is Some {
            Step::Stop(ArgsError::EmptyValue)
        } else {
            Step::Next(ScanState { trailing: true, ..st })
        }
    } else if is_long(t) {
        named_step(st, long_named(scope, long_name(t)), long_value(t))
    } else if is_short(t) {
        short_run(scope, st, t.drop_first())
    } else if st.pending is Some {
        value_step(st, st.pending->0, t)
    } else {
        path_step(scope, st, t)
    }
}

/// Reads the arguments `toks` on the level `scope`, from state `st`.
pub open spec fn scan(scope: Scope, st: ScanState, toks: Seq<Seq<char>>) -> Scanned
    decreases toks.len(),
{
    if toks.len() == 0 {
        Scanned::Done(st)
    } else {
        match step(scope, st, toks[0]) {
            Step::Next(st2) => scan(scope, st2, toks.drop_first()),
            Step::Enter(sc) => Scanned::Entered(st, sc, toks.drop_first()),
            Step::HelpWord => Scanned::Helped(toks.drop_first()),
            Step::Stop(e) => Scanned::Failed(e),
        }
    }
}

/// The end of a level: an option still waiting for its value, or `--write` with
/// `--dry-run` or `--check`, is refused.
pub open spec fn finish(st: ScanState) -> Result<LevelView, ArgsError> {
    let s = st.level.settings;
    if st.pending is Some {
        Err(ArgsError::EmptyValue)
    } else if (s.dry_run && s.write) || (s.check && s.write) {
        Err(ArgsError::ArgumentConflict)
    } else {
        Ok(st.level)
    }
}

/// The answer to `help` followed by `rest`: the help of the program or of one of its
/// subcommands, or a refusal when `rest` names none.
pub open spec fn help_outcome(rest: Seq<Seq<char>>) -> ArgsError {
    if rest.len() == 0 || (rest.len() == 1 && (subcommand_named(rest[0]) is Some || rest[0]
        == "help"@)) {
        ArgsError::DisplayHelp
    } else {
        ArgsError::InvalidSubcommand
    }
}

/// The settings of the program's level `t` and of a subcommand's level `s` together: a
/// switch is on when either level turned it on, and a value given in the subcommand
/// prevails over one given before it.
pub open spec fn combined(t: SettingsView, s: SettingsView) -> SettingsView {
    SettingsView {
        dry_run: t.dry_run || s.dry_run,
        write: t.write || s.write,
        check: t.check || s.check,
        backup: t.backup || s.backup,
        verbose: t.verbose || s.verbose,
        quiet: t.quiet || s.quiet,
        mode: if s.mode is Some { s.mode } else { t.mode },
        extensions: if s.extensions is Some { s.extensions } else { t.extensions },
        exclude: if s.exclude is Some { s.exclude } else { t.exclude },
        placeholder: if s.placeholder is Some { s.placeholder } else { t.placeholder },
        format: if s.format is Some { s.format } else { t.format },
    }
}

/// The output format when none is given.
pub open spec fn default_format() -> Seq<char> {
    "human"@
}

/// `s` with the default output format where it gives none.
pub open spec fn with_format_default(s: SettingsView) -> SettingsView {
    SettingsView {
        format: if s.format is Some { s.format } else { Some(default_format()) },
        ..s
    }
}

/// The parsed command line from the program's level `t` and the subcommand, if any.
pub open spec fn assemble(t: LevelView, sub: Option<(Scope, LevelView)>) -> ArgsView {
    match sub {
        None => ArgsView { command: None, paths: t.paths, settings: with_format_default(t.settings) },
        Some((sc, s)) => {
            let c = with_format_default(combined(t.settings, s.settings));
            let command = match sc {
                Scope::Run => CommandView::Run(s.paths, c),
                Scope::Watch => CommandView::Watch(s.paths, c),
                _ => CommandView::Init(
                    if s.paths.len() > 0 {
                        Some(s.paths[0])
                    } else {
                        None
                    },
                    c.verbose,
                    c.quiet,
                ),
            };
            ArgsView { command: Some(command), paths: t.paths, settings: c }
        },
    }
}

/// The command line `toks`, whose first element is the program's name.
pub open spec fn parse_model(toks: Seq<Seq<char>>) -> Result<ArgsView, ArgsError> {
    let rest = if toks.len() == 0 {
        toks
    } else {
        toks.drop_first()
    };
    match scan(Scope::Top, start_state(), rest) {
        Scanned::Failed(e) => Err(e),
        Scanned::Helped(r) => Err(help_outcome(r)),
        Scanned::Done(st) => match finish(st) {
            Ok(t) => Ok(assemble(t, None)),
            Err(e) => Err(e),
        },
        Scanned::Entered(st, sc, r) => match scan(sc, start_state(), r) {
            Scanned::Failed(e) => Err(e),
            Scanned::Done(st2) => match finish(st2) {
                Err(e) => Err(e),
                Ok(s) => match finish(st) {
                    Err(e) => Err(e),
                    Ok(t) => Ok(assemble(t, Some((sc, s)))),
                },
            },
            // a subcommand has no subcommands of its own
            _ => Err(ArgsError::UnknownArgument),
        },
    }
}

/// A parsed command line.
#[derive(Debug)]
pub struct Args {
    /// Subcommand to execute (defaults to 'run')
    pub command: Option<Command>,
    /// Paths to process (defaults to current directory)
    pub paths: Vec<String>,
    /// Dry run mode - preview changes without writing
    pub dry_run: bool,
    /// Write changes to files (default behavior, use for explicitness in scripts)
    pub write: bool,
    /// Check mode - report emojis without modifying (exit 1 if found, ideal for CI)
    pub check: bool,
    /// Create backup files before modifying
    pub backup: bool,
    /// Replacement mode: smart, remove, replace, or placeholder
    pub mode: Option<String>,
    /// File extensions to process (e.g., rs,py,js)
    pub extensions: Option<String>,
    /// Patterns to exclude from processing
    pub exclude: Option<String>,
    /// Verbose output
    pub verbose: bool,
    /// Quiet output
    pub quiet: bool,
    /// Custom placeholder text for replacement
    pub placeholder: Option<String>,
    /// Output format: human (default), gcc (compiler-style for IDEs), json, github (GitHub Actions)
    pub format: String,
}

/// Available subcommands
#[derive(Debug)]
pub enum Command {
    /// Process files and remove/replace emojis (default)
    Run {
        paths: Vec<String>,
        dry_run: bool,
        write: bool,
        check: bool,
        backup: bool,
        mode: Option<String>,
        extensions: Option<String>,
        exclude: Option<String>,
        verbose: bool,
        quiet: bool,
        placeholder: Option<String>,
        format: Option<String>,
    },
    /// Watch files for changes and process them automatically
    Watch {
        paths: Vec<String>,
        dry_run: bool,
        write: bool,
        check: bool,
        backup: bool,
        mode: Option<String>,
        extensions: Option<String>,
        exclude: Option<String>,
        verbose: bool,
        quiet: bool,
        placeholder: Option<String>,
        format: Option<String>,
    },
    /// Initialize a .demoji.toml configuration file
    Init {
        /// Path where to create the config file (defaults to current directory)
        path: Option<String>,
        verbose: bool,
        quiet: bool,
    },
}

impl View for Command {
    type V = CommandView;

    open spec fn view(&self) -> CommandView {
        match self {
            Command::Run {
                paths,
                dry_run,
                write,
                check,
                backup,
                mode,
                extensions,
                exclude,
                verbose,
                quiet,
                placeholder,
                format,
            } => CommandView::Run(
                texts(paths@),
                SettingsView {
                    dry_run: *dry_run,
                    write: *write,
                    check: *check,
                    backup: *backup,
                    verbose: *verbose,
                    quiet: *quiet,
                    mode: option_text(*mode),
                    extensions: option_text(*extensions),
                    exclude: option_text(*exclude),
                    placeholder: option_text(*placeholder),
                    format: option_text(*format),
                },
            ),
            Command::Watch {
                paths,
                dry_run,
                write,
                check,
                backup,
                mode,
                extensions,
                exclude,
                verbose,
                quiet,
                placeholder,
                format,
            } => CommandView::Watch(
                texts(paths@),
                SettingsView {
                    dry_run: *dry_run,
                    write: *write,
                    check: *check,
                    backup: *backup,
                    verbose: *verbose,
                    quiet: *quiet,
                    mode: option_text(*mode),
                    extensions: option_text(*extensions),
                    exclude: option_text(*exclude),
                    placeholder: option_text(*placeholder),
                    format: option_text(*format),
                },
            ),
            Command::Init { path, verbose, quiet } => CommandView::Init(
                option_text(*path),
                *verbose,
                *quiet,
            ),
        }
    }
}

impl View for Args {
    type V = ArgsView;

    open spec fn view(&self) -> ArgsView {
        ArgsView {
            command: match self.command {
                Some(c) => Some(c@),
                None => None,
            },
            paths: texts(self.paths@),
            settings: SettingsView {
                dry_run: self.dry_run,
                write: self.write,
                check: self.check,
                backup: self.backup,
                verbose: self.verbose,
                quiet: self.quiet,
                mode: option_text(self.mode),
                extensions: option_text(self.extensions),
                exclude: option_text(self.exclude),
                placeholder: option_text(self.placeholder),
                format: Some(self.format@),
            },
        }
    }
}

/// A parse result, by the values it holds.
pub open spec fn outcome_view(r: Result<Args, ArgsError>) -> Result<ArgsView, ArgsError> {
    match r {
        Ok(a) => Ok(a@),
        Err(e) => Err(e),
    }
}

/// What one level of the command line collected.
struct Level {
    paths: Vec<String>,
    dry_run: bool,
    write: bool,
    check: bool,
    backup: bool,
    verbose: bool,
    quiet: bool,
    mode: Option<String>,
    extensions: Option<String>,
    exclude: Option<String>,
    placeholder: Option<String>,
    format: Option<String>,
}

impl View for Level {
    type V = LevelView;

    closed spec fn view(&self) -> LevelView {
        LevelView {
            paths: texts(self.paths@),
            settings: SettingsView {
                dry_run: self.dry_run,
                write: self.write,
                check: self.check,
                backup: self.backup,
                verbose: self.verbose,
                quiet: self.quiet,
                mode: option_text(self.mode),
                extensions: option_text(self.extensions),
                exclude: option_text(self.exclude),
                placeholder: option_text(self.placeholder),
                format: option_text(self.format),
            },
        }
    }
}

/// The reading of one level, under way.
struct Scan {
    level: Level,
    pending: Option<Setting>,
    trailing: bool,
    after_path: bool,
}

impl View for Scan {
    type V = ScanState;

    closed spec fn view(&self) -> ScanState {
        ScanState {
            level: self.level@,
            pending: self.pending,
            trailing: self.trailing,
            after_path: self.after_path,
        }
    }
}

/// What one argument did; on entering a subcommand the state is handed back unchanged.
enum StepOut {
    Next(Scan),
    Enter(Scan, Scope),
    HelpWord,
    Stop(ArgsError),
}

impl View for StepOut {
    type V = Step;

    closed spec fn view(&self) -> Step {
        match self {
            StepOut::Next(s) => Step::Next(s@),
            StepOut::Enter(_, sc) => Step::Enter(*sc),
            StepOut::HelpWord => Step::HelpWord,
            StepOut::Stop(e) => Step::Stop(*e),
        }
    }
}

/// The outcome of reading one level; positions are indices into the arguments.
enum ScanOut {
    Failed(ArgsError),
    Done(Scan),
    Entered(Scan, Scope, usize),
    Helped(usize),
}

/// The outcome `r` of reading the arguments `toks`, by the values it holds.
spec fn scanned_view(r: ScanOut, toks: Seq<Seq<char>>) -> Scanned {
    match r {
        ScanOut::Failed(e) => Scanned::Failed(e),
        ScanOut::Done(s) => Scanned::Done(s@),
        ScanOut::Entered(s, sc, i) => Scanned::Entered(s@, sc, toks.subrange(i as int, toks.len() as int)),
        ScanOut::Helped(i) => Scanned::Helped(toks.subrange(i as int, toks.len() as int)),
    }
}

/// The position that an outcome hands on, if any.
spec fn handed_on(r: ScanOut) -> Option<usize> {
    match r {
        ScanOut::Entered(_, _, i) => Some(i),
        ScanOut::Helped(i) => Some(i),
        _ => None,
    }
}

impl Level {
    fn new() -> (l: Level)
        ensures
            l@ == start_state().level,
    {
        let l = Level {
            paths: Vec::new(),
            dry_run: false,
            write: false,
            check: false,
            backup: false,
            verbose: false,
            quiet: false,
            mode: None,
            extensions: None,
            exclude: None,
            placeholder: None,
            format: None,
        };
        assert(l@.paths =~= Seq::<Seq<char>>::empty());
        l
    }

    fn switch_is_on(&self, w: Switch) -> (r: bool)
        ensures
            r == switch_on(self@.settings, w),
    {
        match w {
            Switch::DryRun => self.dry_run,
            Switch::Write => self.write,
            Switch::Check => self.check,
            Switch::Backup => self.backup,
            Switch::Verbose => self.verbose,
            Switch::Quiet => self.quiet,
        }
    }

    fn turn_on(&mut self, w: Switch)
        ensures
            final(self)@ == (LevelView {
                settings: with_switch(old(self)@.settings, w),
                ..old(self)@
            }),
    {
        match w {
            Switch::DryRun => self.dry_run = true,
            Switch::Write => self.write = true,
            Switch::Check => self.check = true,
            Switch::Backup => self.backup = true,
            Switch::Verbose => self.verbose = true,
            Switch::Quiet => self.quiet = true,
        }
    }

    fn has_value(&self, o: Setting) -> (r: bool)
        ensures
            r == (value_of(self@.settings, o) is Some),
    {
        match o {
            Setting::Mode => self.mode.is_some(),
            Setting::Extensions => self.extensions.is_some(),
            Setting::Exclude => self.exclude.is_some(),
            Setting::Placeholder => self.placeholder.is_some(),
            Setting::Format => self.format.is_some(),
        }
    }

    fn set_value(&mut self, o: Setting, v: String)
        ensures
            final(self)@ == (LevelView {
                settings: with_value(old(self)@.settings, o, v@),
                ..old(self)@
            }),
    {
        match o {
            Setting::Mode => self.mode = Some(v),
            Setting::Extensions => self.extensions = Some(v),
            Setting::Exclude => self.exclude = Some(v),
            Setting::Placeholder => self.placeholder = Some(v),
            Setting::Format => self.format = Some(v),
        }
    }
}

impl Scan {
    fn new() -> (s: Scan)
        ensures
            s@ == start_state(),
    {
        Scan { level: Level::new(), pending: None, trailing: false, after_path: false }
    }
}

/// Whether the characters `v[lo..hi]` spell `w`.
fn spells(v: &Vec<char>, lo: usize, hi: usize, w: &str) -> (r: bool)
    requires
        lo <= hi <= v@.len(),
    ensures
        r == (v@.subrange(lo as int, hi as int) == w@),
{
    let wc = text_chars(w);
    if hi - lo != wc.len() {
        return false;
    }
    let mut i: usize = 0;
    while i < wc.len()
        invariant
            lo <= hi <= v@.len(),
            wc@ == w@,
            hi - lo == wc@.len(),
            i <= wc@.len(),
            forall|j: int| 0 <= j < i ==> v@[lo + j] == wc@[j],
        decreases wc@.len() - i,
    {
        if v[lo + i] != wc[i] {
            assert(v@.subrange(lo as int, hi as int)[i as int] == v@[lo + i]);
            return false;
        }
        i = i + 1;
    }
    assert(v@.subrange(lo as int, hi as int) =~= w@);
    true
}

/// What the long option named by `v[lo..hi]` stands for on the level `scope`.
fn long_named_at(scope: Scope, v: &Vec<char>, lo: usize, hi: usize) -> (r: Option<Named>)
    requires
        lo <= hi <= v@.len(),
    ensures
        r == long_named(scope, v@.subrange(lo as int, hi as int)),
{
    if spells(v, lo, hi, "dry-run") {
        Some(Named::On(Switch::DryRun))
    } else if spells(v, lo, hi, "write") {
        Some(Named::On(Switch::Write))
    } else if spells(v, lo, hi, "check") {
        Some(Named::On(Switch::Check))
    } else if spells(v, lo, hi, "backup") {
        Some(Named::On(Switch::Backup))
    } else if spells(v, lo, hi, "verbose") {
        Some(Named::On(Switch::Verbose))
    } else if spells(v, lo, hi, "quiet") {
        Some(Named::On(Switch::Quiet))
    } else if spells(v, lo, hi, "mode") {
        Some(Named::Takes(Setting::Mode))
    } else if spells(v, lo, hi, "extensions") {
        Some(Named::Takes(Setting::Extensions))
    } else if spells(v, lo, hi, "exclude") {
        Some(Named::Takes(Setting::Exclude))
    } else if spells(v, lo, hi, "placeholder") {
        Some(Named::Takes(Setting::Placeholder))
    } else if spells(v, lo, hi, "format") {
        Some(Named::Takes(Setting::Format))
    } else if spells(v, lo, hi, "help") {
        Some(Named::Help)
    } else if spells(v, lo, hi, "version") && scope == Scope::Top {
        Some(Named::Version)
    } else {
        None
    }
}

/// What the short switch `c` stands for on the level `scope`.
fn short_named_of(scope: Scope, c: char) -> (r: Option<Named>)
    ensures
        r == short_named(scope, c),
{
    if c == 'v' {
        Some(Named::On(Switch::Verbose))
    } else if c == 'q' {
        Some(Named::On(Switch::Quiet))
    } else if c == 'h' {
        Some(Named::Help)
    } else if c == 'V' && scope == Scope::Top {
        Some(Named::Version)
    } else {
        None
    }
}

/// The subcommand, other than `help`, that the characters `v` name.
fn subcommand_of(v: &Vec<char>) -> (r: Option<Scope>)
    ensures
        r == subcommand_named(v@),
{
    proof {
        assert(v@.subrange(0, v@.len() as int) =~= v@);
    }
    if spells(v, 0, v.len(), "run") {
        Some(Scope::Run)
    } else if spells(v, 0, v.len(), "watch") {
        Some(Scope::Watch)
    } else if spells(v, 0, v.len(), "init") {
        Some(Scope::Init)
    } else {
        None
    }
}

/// The index of the first `=` in `v` after its leading `--`, or the length of `v`.
fn find_equals(v: &Vec<char>) -> (e: usize)
    requires
        v@.len() >= 2,
    ensures
        e == first_equals(v@, 2),
        2 <= e <= v@.len(),
{
    let mut i: usize = 2;
    while i < v.len()
        invariant
            2 <= i <= v@.len(),
            first_equals(v@, 2) == first_equals(v@, i as int),
        decreases v@.len() - i,
    {
        if v[i] == '=' {
            return i;
        }
        i = i + 1;
    }
    i
}

/// The characters `v[lo..hi]` as a string.
fn string_from(v: &Vec<char>, lo: usize, hi: usize) -> (s: String)
    requires
        lo <= hi <= v@.len(),
    ensures
        s@ == v@.subrange(lo as int, hi as int),
{
    let mut s = String::new();
    let mut i = lo;
    while i < hi
        invariant
            lo <= i <= hi <= v@.len(),
            s@ == v@.subrange(lo as int, i as int),
        decreases hi - i,
    {
        s.push(v[i]);
        assert(v@.subrange(lo as int, i + 1) =~= v@.subrange(lo as int, i as int).push(v@[i as int]));
        i = i + 1;
    }
    s
}

/// Gives the option `o` the value `v`.
fn value_step_exec(st: Scan, o: Setting, v: String) -> (r: StepOut)
    ensures
        r@ == value_step(st@, o, v@),
        !(r is Enter),
{
    let mut st = st;
    if st.level.has_value(o) {
        return StepOut::Stop(ArgsError::ArgumentConflict);
    }
    st.level.set_value(o, v);
    st.pending = None;
    st.after_path = false;
    StepOut::Next(st)
}

/// A named argument, with the value attached to it if any.
fn named_step_exec(st: Scan, n: Option<Named>, attached: Option<String>) -> (r: StepOut)
    ensures
        r@ == named_step(st@, n, option_text(attached)),
        !(r is Enter),
{
    match n {
        None => StepOut::Stop(ArgsError::UnknownArgument),
        Some(Named::Takes(o)) => {
            if st.pending.is_some() {
                StepOut::Stop(ArgsError::EmptyValue)
            } else {
                match attached {
                    Some(v) => value_step_exec(st, o, v),
                    None => {
                        let mut st = st;
                        st.pending = Some(o);
                        st.after_path = false;
                        StepOut::Next(st)
                    },
                }
            }
        },
        Some(Named::On(w)) => {
            if attached.is_some() {
                StepOut::Stop(ArgsError::TooManyValues)
            } else if st.pending.is_some() {
                StepOut::Stop(ArgsError::EmptyValue)
            } else if st.level.switch_is_on(w) {
                StepOut::Stop(ArgsError::ArgumentConflict)
            } else {
                let mut st = st;
                st.level.turn_on(w);
                st.after_path = false;
                StepOut::Next(st)
            }
        },
        Some(Named::Help) => {
            if attached.is_some() {
                StepOut::Stop(ArgsError::TooManyValues)
            } else if st.pending.is_some() {
                StepOut::Stop(ArgsError::EmptyValue)
            } else {
                StepOut::Stop(ArgsError::DisplayHelp)
            }
        },
        Some(Named::Version) => {
            if attached.is_some() {
                StepOut::Stop(ArgsError::TooManyValues)
            } else if st.pending.is_some() {
                StepOut::Stop(ArgsError::EmptyValue)
            } else {
                StepOut::Stop(ArgsError::DisplayVersion)
            }
        },
    }
}

/// The cluster of short switches `v`, whose first character is the `-`.
fn short_run_exec(scope: Scope, st: Scan, v: &Vec<char>) -> (r: StepOut)
    requires
        v@.len() >= 1,
    ensures
        r@ == short_run(scope, st@, v@.drop_first()),
        !(r is Enter),
{
    let ghost goal = short_run(scope, st@, v@.drop_first());
    assert(v@.drop_first() =~= v@.subrange(1, v@.len() as int));
    let ghost first = st@;
    let mut cur = st;
    let mut i: usize = 1;
    while i < v.len()
        invariant
            1 <= i <= v@.len(),
            first == st@,
            goal == short_run(scope, first, v@.drop_first()),
            goal == short_run(scope, cur@, v@.subrange(i as int, v@.len() as int)),
        decreases v@.len() - i,
    {
        let ghost rest = v@.subrange(i as int, v@.len() as int);
        assert(rest[0] == v@[i as int]);
        assert(rest.drop_first() =~= v@.subrange(i + 1, v@.len() as int));
        let n = short_named_of(scope, v[i]);
        let out = named_step_exec(cur, n, None);
        assert(goal == match out@ {
            Step::Next(s2) => short_run(scope, s2, rest.drop_first()),
            o => o,
        });
        if let StepOut::Next(s2) = out {
            cur = s2;
        } else {
            return out;
        }
        i = i + 1;
    }
    assert(v@.subrange(i as int, v@.len() as int) =~= Seq::<char>::empty());
    StepOut::Next(cur)
}

/// The path `t`.
fn path_step_exec(scope: Scope, st: Scan, t: &str) -> (r: StepOut)
    ensures
        r@ == path_step(scope, st@, t@),
        !(r is Enter),
{
    if scope == Scope::Init && st.level.paths.len() >= 1 {
        return StepOut::Stop(ArgsError::UnknownArgument);
    }
    if t.is_empty() {
        return StepOut::Stop(ArgsError::EmptyValue);
    }
    let mut st = st;
    let ghost before = st@;
    st.level.paths.push(t.to_string());
    st.after_path = true;
    assert(st@.level.paths =~= before.level.paths.push(t@));
    StepOut::Next(st)
}

/// What the argument `t` does on the level `scope`, read in state `st`.
fn step_exec(scope: Scope, st: Scan, t: &str) -> (r: StepOut)
    ensures
        r@ == step(scope, st@, t@),
        r matches StepOut::Enter(s, _) ==> s@ == st@,
{
    if st.trailing {
        return path_step_exec(scope, st, t);
    }
    let v = text_chars(t);
    let may_enter = scope == Scope::Top && st.pending.is_none() && !st.after_path;
    if may_enter {
        match subcommand_of(&v) {
            Some(sc) => {
                return StepOut::Enter(st, sc);
            },
            None => {},
        }
        proof {
            assert(v@.subrange(0, v@.len() as int) =~= v@);
        }
        if spells(&v, 0, v.len(), "help") {
            return StepOut::HelpWord;
        }
    }
    if v.len() == 2 && v[0] == '-' && v[1] == '-' {
        assert(v@ =~= seq!['-', '-']);
        if st.pending.is_some() {
            return StepOut::Stop(ArgsError::EmptyValue);
        }
        let mut st = st;
        st.trailing = true;
        return StepOut::Next(st);
    }
    assert(!is_escape(v@)) by {
        if v@ == seq!['-', '-'] {
            assert(v@.len() == 2);
        }
    }
    if v.len() > 2 && v[0] == '-' && v[1] == '-' {
        let e = find_equals(&v);
        let n = long_named_at(scope, &v, 2, e);
        let attached = if e < v.len() {
            Some(string_from(&v, e + 1, v.len()))
        } else {
            None
        };
        return named_step_exec(st, n, attached);
    }
    if v.len() >= 2 && v[0] == '-' && v[1] != '-' {
        return short_run_exec(scope, st, &v);
    }
    match st.pending {
        Some(o) => value_step_exec(st, o, t.to_string()),
        None => path_step_exec(scope, st, t),
    }
}

/// Reads the arguments of the level `scope`, from `args[start]` on.
fn scan_exec(scope: Scope, args: &[&str], start: usize) -> (r: ScanOut)
    requires
        start <= args@.len(),
    ensures
        scanned_view(r, words(args@)) == scan(
            scope,
            start_state(),
            words(args@).subrange(start as int, args@.len() as int),
        ),
        handed_on(r) matches Some(i) ==> i <= args@.len(),
{
    let ghost toks = words(args@);
    let ghost goal = scan(scope, start_state(), toks.subrange(start as int, toks.len() as int));
    let mut st = Scan::new();
    let mut i = start;
    while i < args.len()
        invariant
            start <= i <= args@.len(),
            toks == words(args@),
            toks.len() == args@.len(),
            goal == scan(scope, start_state(), toks.subrange(start as int, toks.len() as int)),
            goal == scan(scope, st@, toks.subrange(i as int, toks.len() as int)),
        decreases args@.len() - i,
    {
        let ghost rest = toks.subrange(i as int, toks.len() as int);
        assert(rest[0] == args@[i as int]@);
        assert(rest.drop_first() =~= toks.subrange(i + 1, toks.len() as int));
        let out = step_exec(scope, st, args[i]);
        match out {
            StepOut::Next(s2) => {
                st = s2;
            },
            StepOut::Enter(s, sc) => {
                return ScanOut::Entered(s, sc, i + 1);
            },
            StepOut::HelpWord => {
                return ScanOut::Helped(i + 1);
            },
            StepOut::Stop(e) => {
                return ScanOut::Failed(e);
            },
        }
        i = i + 1;
    }
    assert(toks.subrange(i as int, toks.len() as int) =~= Seq::<Seq<char>>::empty());
    ScanOut::Done(st)
}

/// The end of a level.
fn finish_exec(st: Scan) -> (r: Result<Level, ArgsError>)
    ensures
        match r {
            Ok(l) => finish(st@) == Ok::<LevelView, ArgsError>(l@),
            Err(e) => finish(st@) == Err::<LevelView, ArgsError>(e),
        },
{
    if st.pending.is_some() {
        return Err(ArgsError::EmptyValue);
    }
    let l = st.level;
    if (l.dry_run && l.write) || (l.check && l.write) {
        return Err(ArgsError::ArgumentConflict);
    }
    Ok(l)
}

/// The answer to `help` followed by `args[start..]`.
fn help_outcome_exec(args: &[&str], start: usize) -> (e: ArgsError)
    requires
        start <= args@.len(),
    ensures
        e == help_outcome(words(args@).subrange(start as int, args@.len() as int)),
{
    let ghost rest = words(args@).subrange(start as int, args@.len() as int);
    if start == args.len() {
        return ArgsError::DisplayHelp;
    }
    if start + 1 < args.len() {
        return ArgsError::InvalidSubcommand;
    }
    let v = text_chars(args[start]);
    assert(rest[0] == v@);
    if subcommand_of(&v).is_some() {
        return ArgsError::DisplayHelp;
    }
    proof {
        assert(v@.subrange(0, v@.len() as int) =~= v@);
    }
    if spells(&v, 0, v.len(), "help") {
        ArgsError::DisplayHelp
    } else {
        ArgsError::InvalidSubcommand
    }
}

/// A copy of an optional text.
fn copy_text(o: &Option<String>) -> (r: Option<String>)
    ensures
        option_text(r) == option_text(*o),
{
    match o {
        Some(s) => Some(s.clone()),
        None => None,
    }
}

/// The value given in the subcommand if any, else the one given before it.
fn prevailing(t: &Option<String>, s: &Option<String>) -> (r: Option<String>)
    ensures
        option_text(r) == (if option_text(*s) is Some {
            option_text(*s)
        } else {
            option_text(*t)
        }),
{
    if s.is_some() {
        copy_text(s)
    } else {
        copy_text(t)
    }
}

/// The output format: the one given, or the default.
fn format_or_default(f: &Option<String>) -> (r: String)
    ensures
        r@ == (match option_text(*f) {
            Some(v) => v,
            None => default_format(),
        }),
{
    match f {
        Some(v) => v.clone(),
        None => "human".to_string(),
    }
}

/// The parsed command line of a program level `t` without a subcommand.
fn assemble_top(t: Level) -> (a: Args)
    ensures
        a@ == assemble(t@, None),
{
    let format = format_or_default(&t.format);
    Args {
        command: None,
        paths: t.paths,
        dry_run: t.dry_run,
        write: t.write,
        check: t.check,
        backup: t.backup,
        mode: t.mode,
        extensions: t.extensions,
        exclude: t.exclude,
        verbose: t.verbose,
        quiet: t.quiet,
        placeholder: t.placeholder,
        format,
    }
}

/// The parsed command line of a program level `t` and the subcommand `sc`, whose level is `s`.
fn assemble_with(t: Level, sc: Scope, s: Level) -> (a: Args)
    ensures
        a@ == assemble(t@, Some((sc, s@))),
{
    let ghost c = with_format_default(combined(t@.settings, s@.settings));
    let dry_run = t.dry_run || s.dry_run;
    let write = t.write || s.write;
    let check = t.check || s.check;
    let backup = t.backup || s.backup;
    let verbose = t.verbose || s.verbose;
    let quiet = t.quiet || s.quiet;
    let format = if s.format.is_some() {
        format_or_default(&s.format)
    } else {
        format_or_default(&t.format)
    };
    let command = match sc {
        Scope::Run => Command::Run {
            paths: s.paths,
            dry_run,
            write,
            check,
            backup,
            mode: prevailing(&t.mode, &s.mode),
            extensions: prevailing(&t.extensions, &s.extensions),
            exclude: prevailing(&t.exclude, &s.exclude),
            verbose,
            quiet,
            placeholder: prevailing(&t.placeholder, &s.placeholder),
            format: Some(format.clone()),
        },
        Scope::Watch => Command::Watch {
            paths: s.paths,
            dry_run,
            write,
            check,
            backup,
            mode: prevailing(&t.mode, &s.mode),
            extensions: prevailing(&t.extensions, &s.extensions),
            exclude: prevailing(&t.exclude, &s.exclude),
            verbose,
            quiet,
            placeholder: prevailing(&t.placeholder, &s.placeholder),
            format: Some(format.clone()),
        },
        _ => Command::Init {
            path: if s.paths.len() > 0 {
                Some(s.paths[0].clone())
            } else {
                None
            },
            verbose,
            quiet,
        },
    };
    let a = Args {
        command: Some(command),
        paths: t.paths,
        dry_run,
        write,
        check,
        backup,
        mode: prevailing(&t.mode, &s.mode),
        extensions: prevailing(&t.extensions, &s.extensions),
        exclude: prevailing(&t.exclude, &s.exclude),
        verbose,
        quiet,
        placeholder: prevailing(&t.placeholder, &s.placeholder),
        format,
    };
    assert(a@.settings == c);
    a
}

impl Args {
    /// Parses the command line `args`, whose first element is the program's name.
    ///
    /// Returns the arguments, or why there are none: a request for the help or the
    /// version, or the reason the command line was refused.
    pub fn try_parse_from(args: &[&str]) -> (r: Result<Args, ArgsError>)
        ensures
            outcome_view(r) == parse_model(words(args@)),
    {
        let ghost toks = words(args@);
        let start: usize = if args.len() == 0 {
            0
        } else {
            1
        };
        proof {
            if toks.len() == 0 {
                assert(toks.subrange(0, 0) =~= toks);
            } else {
                assert(toks.subrange(1, toks.len() as int) =~= toks.drop_first());
            }
        }
        match scan_exec(Scope::Top, args, start) {
            ScanOut::Failed(e) => Err(e),
            ScanOut::Helped(i) => Err(help_outcome_exec(args, i)),
            ScanOut::Done(st) => match finish_exec(st) {
                Ok(t) => Ok(assemble_top(t)),
                Err(e) => Err(e),
            },
            ScanOut::Entered(st, sc, i) => match scan_exec(sc, args, i) {
                ScanOut::Failed(e) => Err(e),
                ScanOut::Done(st2) => match finish_exec(st2) {
                    Err(e) => Err(e),
                    Ok(s) => match finish_exec(st) {
                        Err(e) => Err(e),
                        Ok(t) => Ok(assemble_with(t, sc, s)),
                    },
                },
                _ => Err(ArgsError::UnknownArgument),
            },
        }
    }
}

/// Whether `t` can only be read as a path: it is not empty and does not start with `-`.
pub open spec fn plain(t: Seq<char>) -> bool {
    t.len() > 0 && t[0] != '-'
}

/// Reading plain arguments on the program's level, when the first names no subcommand or a
/// path was just given, adds them to the paths.
proof fn lemma_scan_plain(st: ScanState, rest: Seq<Seq<char>>)
    requires
        st.pending is None,
        !st.trailing,
        forall|i: int| 0 <= i < rest.len() ==> plain(#[trigger] rest[i]),
        !st.after_path && rest.len() > 0 ==> subcommand_named(rest[0]) is None && rest[0]
            != "help"@,
    ensures
        scan(Scope::Top, st, rest) == Scanned::Done(
            ScanState {
                level: LevelView { paths: st.level.paths + rest, ..st.level },
                after_path: st.after_path || rest.len() > 0,
                ..st
            },
        ),
    decreases rest.len(),
{
    if rest.len() == 0 {
        assert(st.level.paths + rest =~= st.level.paths);
    } else {
        let t = rest[0];
        assert(plain(t));
        assert(!is_escape(t));
        let st2 = ScanState {
            level: LevelView { paths: st.level.paths.push(t), ..st.level },
            after_path: true,
            ..st
        };
        assert(step(Scope::Top, st, t) == Step::Next(st2));
        lemma_scan_plain(st2, rest.drop_first());
        assert(st2.level.paths + rest.drop_first() =~= st.level.paths + rest);
    }
}

/// A command line of plain paths, the first of which names no subcommand, gives exactly
/// those paths, no subcommand and the default settings.
pub proof fn lemma_plain_paths(name: Seq<char>, paths: Seq<Seq<char>>)
    requires
        forall|i: int| 0 <= i < paths.len() ==> plain(#[trigger] paths[i]),
        paths.len() > 0 ==> subcommand_named(paths[0]) is None && paths[0] != "help"@,
    ensures
        parse_model(seq![name] + paths) == Ok::<ArgsView, ArgsError>(
            ArgsView { command: None, paths, settings: with_format_default(no_settings()) },
        ),
{
    assert((seq![name] + paths).drop_first() =~= paths);
    lemma_scan_plain(start_state(), paths);
    assert(Seq::<Seq<char>>::empty() + paths =~= paths);
}

/// A subcommand has no subcommands of its own: reading its level never enters another one.
pub proof fn lemma_no_nested_subcommand(scope: Scope, st: ScanState, toks: Seq<Seq<char>>)
    requires
        scope != Scope::Top,
    ensures
        scan(scope, st, toks) is Failed || scan(scope, st, toks) is Done,
    decreases toks.len(),
{
    if toks.len() > 0 {
        let t = toks[0];
        if !st.trailing && is_short(t) {
            lemma_short_run_stays(scope, st, t.drop_first());
        }
        match step(scope, st, t) {
            Step::Next(st2) => lemma_no_nested_subcommand(scope, st2, toks.drop_first()),
            _ => {},
        }
    }
}

/// A cluster of short switches goes on with the reading or stops it.
proof fn lemma_short_run_stays(scope: Scope, st: ScanState, cs: Seq<char>)
    ensures
        short_run(scope, st, cs) is Next || short_run(scope, st, cs) is Stop,
    decreases cs.len(),
{
    if cs.len() > 0 {
        match named_step(st, short_named(scope, cs[0]), None) {
            Step::Next(st2) => lemma_short_run_stays(scope, st2, cs.drop_first()),
            _ => {},
        }
    }
}

/// An argument that starts with `-` names no subcommand.
proof fn lemma_dash_names_no_subcommand(t: Seq<char>)
    requires
        t.len() > 0,
        t[0] == '-',
    ensures
        subcommand_named(t) is None,
        t != "help"@,
{
    reveal_strlit("run");
    reveal_strlit("watch");
    reveal_strlit("init");
    reveal_strlit("help");
    assert(t != "run"@ && t != "watch"@ && t != "init"@ && t != "help"@) by {
        if t == "run"@ || t == "watch"@ || t == "init"@ || t == "help"@ {
            assert(t[0] != '-');
        }
    }
}

/// A long option that names a switch turns that switch on: given alone, it parses to no
/// paths, no subcommand and that one switch on.
pub proof fn lemma_switch_sets_its_field(name: Seq<char>, t: Seq<char>, w: Switch)
    requires
        is_long(t),
        long_value(t) is None,
        long_named(Scope::Top, long_name(t)) == Some(Named::On(w)),
    ensures
        parse_model(seq![name, t]) == Ok::<ArgsView, ArgsError>(
            ArgsView {
                command: None,
                paths: Seq::empty(),
                settings: with_format_default(with_switch(no_settings(), w)),
            },
        ),
{
    lemma_dash_names_no_subcommand(t);
    let toks = seq![name, t];
    assert(toks.drop_first() =~= seq![t]);
    assert(seq![t].drop_first() =~= Seq::<Seq<char>>::empty());
    assert(!is_escape(t));
    let st1 = ScanState {
        level: LevelView { settings: with_switch(no_settings(), w), ..start_state().level },
        after_path: false,
        ..start_state()
    };
    assert(step(Scope::Top, start_state(), t) == Step::Next(st1));
    assert(scan(Scope::Top, st1, Seq::<Seq<char>>::empty()) == Scanned::Done(st1));
    assert(scan(Scope::Top, start_state(), seq![t]) == Scanned::Done(st1));
    assert(finish(st1) == Ok::<LevelView, ArgsError>(st1.level));
}

/// An option that takes a value may be given once on a level: given twice, with values
/// attached, the command line is refused.
pub proof fn lemma_repeated_option_refused(
    name: Seq<char>,
    t1: Seq<char>,
    t2: Seq<char>,
    o: Setting,
)
    requires
        is_long(t1),
        is_long(t2),
        long_value(t1) is Some,
        long_value(t2) is Some,
        long_named(Scope::Top, long_name(t1)) == Some(Named::Takes(o)),
        long_named(Scope::Top, long_name(t2)) == Some(Named::Takes(o)),
    ensures
        parse_model(seq![name, t1, t2]) == Err::<ArgsView, ArgsError>(
            ArgsError::ArgumentConflict,
        ),
{
    lemma_dash_names_no_subcommand(t1);
    lemma_dash_names_no_subcommand(t2);
    let toks = seq![name, t1, t2];
    assert(toks.drop_first() =~= seq![t1, t2]);
    assert(seq![t1, t2].drop_first() =~= seq![t2]);
    assert(!is_escape(t1));
    assert(!is_escape(t2));
    let st1 = ScanState {
        level: LevelView {
            settings: with_value(no_settings(), o, long_value(t1)->0),
            ..start_state().level
        },
        pending: None,
        after_path: false,
        ..start_state()
    };
    assert(step(Scope::Top, start_state(), t1) == Step::Next(st1));
    assert(value_of(st1.level.settings, o) is Some);
    assert(step(Scope::Top, st1, t2) == Step::Stop(ArgsError::ArgumentConflict));
    assert(scan(Scope::Top, st1, seq![t2]) == Scanned::Failed(ArgsError::ArgumentConflict));
    assert(scan(Scope::Top, start_state(), seq![t1, t2]) == Scanned::Failed(
        ArgsError::ArgumentConflict,
    ));
}

/// A switch may be given once on a level: given twice, the command line is refused.
pub proof fn lemma_repeated_switch_refused(name: Seq<char>, t: Seq<char>, w: Switch)
    requires
        is_long(t),
        long_value(t) is None,
        long_named(Scope::Top, long_name(t)) == Some(Named::On(w)),
    ensures
        parse_model(seq![name, t, t]) == Err::<ArgsView, ArgsError>(ArgsError::ArgumentConflict),
{
    lemma_dash_names_no_subcommand(t);
    let toks = seq![name, t, t];
    assert(toks.drop_first() =~= seq![t, t]);
    assert(seq![t, t].drop_first() =~= seq![t]);
    assert(!is_escape(t));
    let st1 = ScanState {
        level: LevelView { settings: with_switch(no_settings(), w), ..start_state().level },
        after_path: false,
        ..start_state()
    };
    assert(step(Scope::Top, start_state(), t) == Step::Next(st1));
    assert(switch_on(st1.level.settings, w));
    assert(step(Scope::Top, st1, t) == Step::Stop(ArgsError::ArgumentConflict));
    assert(scan(Scope::Top, st1, seq![t]) == Scanned::Failed(ArgsError::ArgumentConflict));
    assert(scan(Scope::Top, start_state(), seq![t, t]) == Scanned::Failed(
        ArgsError::ArgumentConflict,
    ));
}

/// `--write` excludes `--dry-run` and `--check`: a command line without a subcommand that
/// parses never has `write` together with `dry_run` or `check`.
pub proof fn lemma_write_excludes_dry_run_and_check(toks: Seq<Seq<char>>)
    ensures
        parse_model(toks) matches Ok(a) ==> (a.command is None ==> !(a.settings.write && (
        a.settings.dry_run || a.settings.check))),
{
}

/// The settings that a `run` or `watch` subcommand carries.
pub open spec fn command_settings(c: CommandView) -> Option<SettingsView> {
    match c {
        CommandView::Run(_, s) => Some(s),
        CommandView::Watch(_, s) => Some(s),
        CommandView::Init(..) => None,
    }
}

/// With a subcommand, each switch is on, in the subcommand and in the program's fields
/// alike, exactly when it was given on the program's level or on the subcommand's level; a
/// value given on the subcommand's level prevails over one given before it; and the
/// subcommand keeps the paths given after it.
pub proof fn lemma_subcommand_settings(t: LevelView, s: LevelView, sc: Scope, w: Switch, o: Setting)
    requires
        sc != Scope::Top,
        o != Setting::Format,
    ensures
        assemble(t, Some((sc, s))).command is Some,
        switch_on(assemble(t, Some((sc, s))).settings, w) == (switch_on(t.settings, w)
            || switch_on(s.settings, w)),
        value_of(assemble(t, Some((sc, s))).settings, o) == (if value_of(s.settings, o) is Some {
            value_of(s.settings, o)
        } else {
            value_of(t.settings, o)
        }),
        assemble(t, Some((sc, s))).paths == t.paths,
        sc != Scope::Init ==> (assemble(t, Some((sc, s))).command->0 matches CommandView::Run(
            p,
            c,
        ) ==> sc == Scope::Run && p == s.paths && switch_on(c, w) == (switch_on(t.settings, w)
            || switch_on(s.settings, w))),
        sc != Scope::Init ==> (assemble(t, Some((sc, s))).command->0 matches CommandView::Watch(
            p,
            c,
        ) ==> sc == Scope::Watch && p == s.paths && switch_on(c, w) == (switch_on(
            t.settings,
            w,
        ) || switch_on(s.settings, w))),
        sc == Scope::Run ==> assemble(t, Some((sc, s))).command->0 is Run,
        sc == Scope::Watch ==> assemble(t, Some((sc, s))).command->0 is Watch,
        sc == Scope::Init ==> (assemble(t, Some((sc, s))).command->0 matches CommandView::Init(
            _,
            v,
            q,
        ) && v == (t.settings.verbose || s.settings.verbose) && q == (t.settings.quiet
            || s.settings.quiet)),
{
}

/// A switch given after `run` or `watch` is on in that subcommand: the command line
/// `name word t`, where `word` names the subcommand and `t` a switch, gives the subcommand
/// with that switch on and no other, and no paths.
pub proof fn lemma_switch_after_subcommand(name: Seq<char>, word: Seq<char>, t: Seq<char>, w: Switch)
    requires
        subcommand_named(word) matches Some(sc) && sc != Scope::Init,
        is_long(t),
        long_value(t) is None,
        long_named(subcommand_named(word)->0, long_name(t)) == Some(Named::On(w)),
    ensures
        parse_model(seq![name, word, t]) matches Ok(a) && a.command matches Some(cmd)
            && command_settings(cmd) matches Some(c) && forall|w2: Switch|
            #[trigger] switch_on(c, w2) == (w2 == w),
{
    let sc = subcommand_named(word)->0;
    let toks = seq![name, word, t];
    assert(toks.drop_first() =~= seq![word, t]);
    assert(seq![word, t].drop_first() =~= seq![t]);
    assert(seq![t].drop_first() =~= Seq::<Seq<char>>::empty());
    assert(step(Scope::Top, start_state(), word) == Step::Enter(sc));
    assert(scan(Scope::Top, start_state(), seq![word, t]) == Scanned::Entered(
        start_state(),
        sc,
        seq![t],
    ));
    assert(!is_escape(t));
    let st1 = ScanState {
        level: LevelView { settings: with_switch(no_settings(), w), ..start_state().level },
        after_path: false,
        ..start_state()
    };
    assert(step(sc, start_state(), t) == Step::Next(st1));
    assert(scan(sc, st1, Seq::<Seq<char>>::empty()) == Scanned::Done(st1));
    assert(scan(sc, start_state(), seq![t]) == Scanned::Done(st1));
    assert(finish(st1) == Ok::<LevelView, ArgsError>(st1.level));
    assert(finish(start_state()) == Ok::<LevelView, ArgsError>(start_state().level));
}

/// An option that takes a value takes the next argument as its value: `name t v`, where `t`
/// names the option without attaching a value and `v` does not start with `-`, gives that
/// option the value `v` and nothing else.
pub proof fn lemma_option_takes_next_argument(name: Seq<char>, t: Seq<char>, v: Seq<char>, o: Setting)
    requires
        is_long(t),
        long_value(t) is None,
        long_named(Scope::Top, long_name(t)) == Some(Named::Takes(o)),
        v.len() > 0,
        v[0] != '-',
    ensures
        parse_model(seq![name, t, v]) == Ok::<ArgsView, ArgsError>(
            ArgsView {
                command: None,
                paths: Seq::empty(),
                settings: with_format_default(with_value(no_settings(), o, v)),
            },
        ),
{
    lemma_dash_names_no_subcommand(t);
    let toks = seq![name, t, v];
    assert(toks.drop_first() =~= seq![t, v]);
    assert(seq![t, v].drop_first() =~= seq![v]);
    assert(seq![v].drop_first() =~= Seq::<Seq<char>>::empty());
    assert(!is_escape(t));
    assert(!is_escape(v));
    let st1 = ScanState { pending: Some(o), after_path: false, ..start_state() };
    assert(step(Scope::Top, start_state(), t) == Step::Next(st1));
    let st2 = ScanState {
        level: LevelView {
            settings: with_value(no_settings(), o, v),
            ..start_state().level
        },
        pending: None,
        after_path: false,
        ..start_state()
    };
    assert(step(Scope::Top, st1, v) == Step::Next(st2));
    assert(scan(Scope::Top, st2, Seq::<Seq<char>>::empty()) == Scanned::Done(st2));
    assert(scan(Scope::Top, st1, seq![v]) == Scanned::Done(st2));
    assert(scan(Scope::Top, start_state(), seq![t, v]) == Scanned::Done(st2));
    assert(finish(st2) == Ok::<LevelView, ArgsError>(st2.level));
}

} // verus!
