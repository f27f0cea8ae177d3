//! The command line: `cargo qc [OPTIONS]`.
use vstd::prelude::*;

use crate::config::{OptionsModel, QcOptions};
use crate::text::same_text;

verus! {

/// The version this program reports.
pub const VERSION: &'static str = "0.6.6";

/// The text of `--help`.
pub const HELP: &'static str = "cargo-qc

A custom cargo command for quality control (fmt, clippy, test etc)

USAGE:
    cargo qc [OPTIONS]

OPTIONS:
        --skip-fmt           Skip cargo fmt check
        --skip-clippy        Skip cargo clippy check
        --skip-build         Skip cargo build check
        --skip-test          Skip cargo test check
        --ci                 Run in CI mode (suppress interactive prompts)
        --no-color           Disable colored output (also respects NO_COLOR env var)
        --strict             Deny the maintainability lints in cargo clippy
        --telemetry <URL>    Send the results of the run to URL
    -h, --help               Print help information
    -V, --version            Print version information
";

/// What the command line asks for.
#[derive(Debug)]
pub enum CliCommand {
    /// Run the checks with these options.
    Run(QcOptions),
    /// Print the help text.
    Help,
    /// Print the version.
    Version,
    /// An argument that is not an option of this program.
    UnexpectedArgument(String),
    /// An option that takes a value came last, without one.
    MissingValue(String),
}

/// The command line's meaning, as values.
pub enum CliModel {
    Run(OptionsModel),
    Help,
    Version,
    UnexpectedArgument(Seq<char>),
    MissingValue(Seq<char>),
}

impl View for CliCommand {
    type V = CliModel;

    open spec fn view(&self) -> CliModel {
        match self {
            CliCommand::Run(o) => CliModel::Run(o@),
            CliCommand::Help => CliModel::Help,
            CliCommand::Version => CliModel::Version,
            CliCommand::UnexpectedArgument(a) => CliModel::UnexpectedArgument(a@),
            CliCommand::MissingValue(a) => CliModel::MissingValue(a@),
        }
    }
}

/// Reads `args` from left to right, starting from `opts`: each flag sets
/// its option; `--telemetry` takes the next argument as its URL; help,
/// version and the first argument that is not an option end the reading.
pub open spec fn parse_from(args: Seq<Seq<char>>, opts: OptionsModel) -> CliModel
    decreases args.len(),
{
    if args.len() == 0 {
        CliModel::Run(opts)
    } else {
        let a = args[0];
        let rest = args.drop_first();
        if a == "--skip-fmt"@ {
            parse_from(rest, OptionsModel { skip_fmt: true, ..opts })
        } else if a == "--skip-clippy"@ {
            parse_from(rest, OptionsModel { skip_clippy: true, ..opts })
        } else if a == "--skip-build"@ {
            parse_from(rest, OptionsModel { skip_build: true, ..opts })
        } else if a == "--skip-test"@ {
            parse_from(rest, OptionsModel { skip_test: true, ..opts })
        } else if a == "--ci"@ {
            parse_from(rest, OptionsModel { ci: true, ..opts })
        } else if a == "--no-color"@ {
            parse_from(rest, OptionsModel { no_color: true, ..opts })
        } else if a == "--strict"@ {
            parse_from(rest, OptionsModel { strict: true, ..opts })
        } else if a == "--telemetry"@ {
            if rest.len() == 0 {
                CliModel::MissingValue(a)
            } else {
                parse_from(rest.drop_first(), OptionsModel { telemetry: Some(rest[0]), ..opts })
            }
        } else if a == "-h"@ || a == "--help"@ {
            CliModel::Help
        } else if a == "-V"@ || a == "--version"@ {
            CliModel::Version
        } else {
            CliModel::UnexpectedArgument(a)
        }
    }
}

/// The meaning of the arguments after the program's name. Cargo runs a
/// subcommand `cargo qc ...` as `cargo-qc qc ...`, so a first `qc` is skipped.
pub open spec fn command_line_spec(args: Seq<Seq<char>>) -> CliModel {
    if args.len() > 0 && args[0] == "qc"@ {
        parse_from(args.drop_first(), OptionsModel::initial())
    } else {
        parse_from(args, OptionsModel::initial())
    }
}

/// The arguments as sequences of characters.
pub open spec fn arg_views(args: Seq<String>) -> Seq<Seq<char>> {
    args.map_values(|a: String| a@)
}

/// Reads the command line (the arguments after the program's name).
pub fn parse_args(args: &Vec<String>) -> (r: CliCommand)
    ensures
        r@ == command_line_spec(arg_views(args@)),
{
    let ghost views = arg_views(args@);
    let mut i: usize = 0;
    if args.len() > 0 && same_text(args[0].as_str(), "qc") {
        i = 1;
    }
    assert(views.skip(i as int) == if i == 1 { views.drop_first() } else { views });
    let mut opts = QcOptions::default();
    while i < args.len()
        invariant
            views == arg_views(args@),
            i <= args.len(),
            command_line_spec(views) == parse_from(views.skip(i as int), opts@),
        decreases args.len() - i,
    {
        let a = args[i].as_str();
        let ghost rest = views.skip(i as int);
        assert(rest[0] == a@);
        assert(rest.drop_first() == views.skip(i + 1));
        if same_text(a, "--skip-fmt") {
            opts.skip_fmt = true;
        } else if same_text(a, "--skip-clippy") {
            opts.skip_clippy = true;
        } else if same_text(a, "--skip-build") {
            opts.skip_build = true;
        } else if same_text(a, "--skip-test") {
            opts.skip_test = true;
        } else if same_text(a, "--ci") {
            opts.ci = true;
        } else if same_text(a, "--no-color") {
            opts.no_color = true;
        } else if same_text(a, "--strict") {
            opts.strict = true;
        } else if same_text(a, "--telemetry") {
            if i + 1 >= args.len() {
                return CliCommand::MissingValue(args[i].clone());
            }
            assert(rest.drop_first()[0] == views[i + 1]);
            assert(rest.drop_first().drop_first() == views.skip(i + 2));
            opts.telemetry = Some(args[i + 1].clone());
            i = i + 1;
        } else if same_text(a, "-h") || same_text(a, "--help") {
            return CliCommand::Help;
        } else if same_text(a, "-V") || same_text(a, "--version") {
            return CliCommand::Version;
        } else {
            return CliCommand::UnexpectedArgument(args[i].clone());
        }
        i = i + 1;
    }
    assert(views.skip(i as int).len() == 0);
    CliCommand::Run(opts)
}

/// The lines that close every command-line error.
pub open spec fn usage_tail_spec() -> Seq<char> {
    "\n\nUSAGE:\n    cargo qc [OPTIONS]\n\nFor more information try --help"@
}

/// What is printed (to standard error) for an argument that is not an option.
pub open spec fn unexpected_argument_spec(arg: Seq<char>) -> Seq<char> {
    "error: Found argument '"@ + arg + "' which wasn't expected, or isn't valid in this context"@
        + usage_tail_spec()
}

/// What is printed (to standard error) for an option that lacks its value.
pub open spec fn missing_value_spec(arg: Seq<char>) -> Seq<char> {
    "error: The argument '"@ + arg + "' requires a value but none was supplied"@
        + usage_tail_spec()
}

/// Builds the message for an argument that is not an option.
pub fn unexpected_argument_message(arg: &str) -> (r: String)
    ensures
        r@ == unexpected_argument_spec(arg@),
{
    let mut r = "error: Found argument '".to_owned();
    r.append(arg);
    r.append("' which wasn't expected, or isn't valid in this context");
    r.append("\n\nUSAGE:\n    cargo qc [OPTIONS]\n\nFor more information try --help");
    r
}

/// Builds the message for an option that lacks its value.
pub fn missing_value_message(arg: &str) -> (r: String)
    ensures
        r@ == missing_value_spec(arg@),
{
    let mut r = "error: The argument '".to_owned();
    r.append(arg);
    r.append("' requires a value but none was supplied");
    r.append("\n\nUSAGE:\n    cargo qc [OPTIONS]\n\nFor more information try --help");
    r
}

/// What `--version` prints: the program's name and version.
pub fn version_line() -> (r: String)
    ensures
        r@ == "cargo-qc "@ + VERSION@,
{
    let mut r = "cargo-qc ".to_owned();
    r.append(VERSION);
    r
}

/// The exit status that a command line which stops the program early leads
/// to: 0 after help or version, 1 after an error; none when the checks run.
pub fn early_exit_code(cmd: &CliCommand) -> (r: Option<i32>)
    ensures
        r == match cmd@ {
            CliModel::Run(_) => None,
            CliModel::Help | CliModel::Version => Some(0i32),
            _ => Some(1i32),
        },
{
    match cmd {
        CliCommand::Run(_) => None,
        CliCommand::Help | CliCommand::Version => Some(0),
        _ => Some(1),
    }
}

} // verus!
