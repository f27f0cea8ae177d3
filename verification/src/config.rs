//! Configuration options and the project context.
use std::path::PathBuf;
use vstd::prelude::*;

use crate::style::{paint_yellow, yellow_spec};
use crate::text::{
    after_last, after_last_spec, chars_of, contains_spec, contains_text, decode_lossy, lossy_text,
    push_char, trim, trim_spec,
};
use crate::{log_warning, log_warning_spec, prefix_spec, prefix_text};

verus! {

/// `std::path::PathBuf`, carried through the library unread.
#[verifier::external_type_specification]
#[verifier::external_body]
pub struct ExPathBuf(PathBuf);

/// Configuration options for the quality control pipeline.
#[derive(Debug, Clone)]
pub struct QcOptions {
    /// Skip the `cargo fmt` check.
    pub skip_fmt: bool,
    /// Skip the `cargo clippy` linter.
    pub skip_clippy: bool,
    /// Skip the `cargo build` compilation.
    pub skip_build: bool,
    /// Skip the `cargo test` execution.
    pub skip_test: bool,
    /// Run in non-interactive CI mode.
    pub ci: bool,
    /// Disable colored output.
    pub no_color: bool,
    /// Enable strict maintainability lints (SIG).
    pub strict: bool,
    /// Send execution telemetry to a URL.
    pub telemetry: Option<String>,
}

/// The options as values.
pub struct OptionsModel {
    pub skip_fmt: bool,
    pub skip_clippy: bool,
    pub skip_build: bool,
    pub skip_test: bool,
    pub ci: bool,
    pub no_color: bool,
    pub strict: bool,
    pub telemetry: Option<Seq<char>>,
}

impl OptionsModel {
    /// Every check enabled, interactive, coloured, not strict, no telemetry.
    pub open spec fn initial() -> OptionsModel {
        OptionsModel {
            skip_fmt: false,
            skip_clippy: false,
            skip_build: false,
            skip_test: false,
            ci: false,
            no_color: false,
            strict: false,
            telemetry: None,
        }
    }
}

impl View for QcOptions {
    type V = OptionsModel;

    open spec fn view(&self) -> OptionsModel {
        OptionsModel {
            skip_fmt: self.skip_fmt,
            skip_clippy: self.skip_clippy,
            skip_build: self.skip_build,
            skip_test: self.skip_test,
            ci: self.ci,
            no_color: self.no_color,
            strict: self.strict,
            telemetry: match self.telemetry {
                Some(url) => Some(url@),
                None => None,
            },
        }
    }
}

impl Default for QcOptions {
    fn default() -> (r: Self)
        ensures
            r@ == OptionsModel::initial(),
    {
        QcOptions {
            skip_fmt: false,
            skip_clippy: false,
            skip_build: false,
            skip_test: false,
            ci: false,
            no_color: false,
            strict: false,
            telemetry: None,
        }
    }
}

impl QcOptions {
    /// The options after the `NO_COLOR` environment variable is taken into
    /// account: when it is set, colours are off whatever the flags said.
    pub fn with_no_color_env(self, no_color_env_set: bool) -> (r: QcOptions)
        ensures
            r@ == (OptionsModel { no_color: self@.no_color || no_color_env_set, ..self@ }),
    {
        let mut r = self;
        if no_color_env_set {
            r.no_color = true;
        }
        r
    }

    /// Spinners animate only on an interactive terminal outside CI mode;
    /// otherwise each check's line is printed once, in plain text.
    pub fn spinners_disabled(&self, on_terminal: bool) -> (r: bool)
        ensures
            r == (self.ci || !on_terminal),
    {
        self.ci || !on_terminal
    }
}

/// What follows the last `@` of `s`, or all of `s` when it has none.
pub open spec fn after_at_spec(s: Seq<char>) -> Seq<char> {
    match after_last_spec(s, '@') {
        Some(v) => v,
        None => s,
    }
}

/// The version in the output of `cargo pkgid`, which names a package as
/// `<source>#<name>@<version>` or `<source>#<version>`: the fragment after the
/// last `#`, from its last `@` on if it has one, without surrounding white
/// space. Output without `#` gives what follows its last `@`, if any.
pub open spec fn pkgid_version_spec(output: Seq<char>) -> Option<Seq<char>> {
    match after_last_spec(output, '#') {
        Some(fragment) => Some(trim_spec(after_at_spec(fragment))),
        None => match after_last_spec(output, '@') {
            Some(v) => Some(trim_spec(v)),
            None => None,
        },
    }
}

/// Reads the version out of the output of `cargo pkgid`.
pub fn pkgid_version(output: &str) -> (r: Option<String>)
    ensures
        r matches Some(v) ==> pkgid_version_spec(output@) == Some(v@),
        r is None ==> pkgid_version_spec(output@) is None,
{
    match after_last(output, '#') {
        Some(fragment) => match after_last(fragment.as_str(), '@') {
            Some(v) => Some(trim(v.as_str())),
            None => Some(trim(fragment.as_str())),
        },
        None => match after_last(output, '@') {
            Some(v) => Some(trim(v.as_str())),
            None => None,
        },
    }
}

/// The project version: read from the output of `cargo pkgid` when that
/// command succeeded and names one, `unknown` otherwise.
pub open spec fn detected_version_spec(pkgid_output: Option<Seq<char>>) -> Seq<char> {
    match pkgid_output {
        Some(out) => match pkgid_version_spec(out) {
            Some(v) => v,
            None => "unknown"@,
        },
        None => "unknown"@,
    }
}

/// The project name: the directory's name, or `project` for a directory without one.
pub open spec fn project_name_spec(dir_name: Option<Seq<char>>) -> Seq<char> {
    match dir_name {
        Some(n) => n,
        None => "project"@,
    }
}

/// Information about the current project context.
#[derive(Debug)]
pub struct ProjectContext {
    /// The absolute path to the current working directory.
    pub current_dir: PathBuf,
    /// The name of the project extracted from the directory name.
    pub project_name: String,
    /// The project version extracted from cargo pkgid.
    pub version: String,
    /// The path to the cargo-qc log directory.
    pub log_dir: PathBuf,
}

impl ProjectContext {
    /// Assembles the context from what was found on disk: the working
    /// directory and its last component, the standard output of a successful
    /// `cargo pkgid` if there was one (decoded as by `from_utf8_lossy`), and
    /// the log directory.
    pub fn from_parts(
        current_dir: PathBuf,
        dir_name: Option<String>,
        pkgid_stdout: Option<Vec<u8>>,
        log_dir: PathBuf,
    ) -> (r: ProjectContext)
        ensures
            r.current_dir == current_dir,
            r.log_dir == log_dir,
            r.project_name@ == project_name_spec(
                match dir_name {
                    Some(n) => Some(n@),
                    None => None,
                },
            ),
            r.version@ == detected_version_spec(
                match pkgid_stdout {
                    Some(o) => Some(lossy_text(o@)),
                    None => None,
                },
            ),
    {
        let project_name = match dir_name {
            Some(n) => n,
            None => "project".to_owned(),
        };
        let version = match pkgid_stdout {
            Some(bytes) => match pkgid_version(decode_lossy(bytes.as_slice()).as_str()) {
                Some(v) => v,
                None => "unknown".to_owned(),
            },
            None => "unknown".to_owned(),
        };
        ProjectContext { current_dir, project_name, version, log_dir }
    }
}

/// The directory under the project that holds the log directory.
pub const TOOLS_DIR: &'static str = "tools";

/// The log directory's name inside `TOOLS_DIR`.
pub const LOG_DIR_NAME: &'static str = "cargo-qc";

/// The text whose presence in `.gitignore` shows that the logs are ignored.
pub const GITIGNORE_MARKER: &'static str = "tools/cargo-qc";

/// What is appended to `.gitignore` to ignore the logs (a line of its own).
pub const GITIGNORE_ENTRY: &'static str = "\n# cargo-qc logs\ntools/cargo-qc/\n";

/// What to do about `.gitignore` before the checks run.
#[derive(Debug, Clone, Copy, PartialEq, Eq, Structural)]
pub enum GitignoreAction {
    /// The logs are ignored already, or the user asked not to be asked again.
    Nothing,
    /// Ask the user whether to add the entry.
    Ask,
    /// Add the entry without asking (CI mode answers yes).
    AddEntry,
}

/// The decision: nothing once the user has declined (the marker file exists)
/// or when `.gitignore` mentions `tools/cargo-qc`; otherwise ask, or in CI
/// mode add the entry, as non-interactive runs answer yes.
pub open spec fn gitignore_action_spec(
    skip_marker_exists: bool,
    gitignore: Option<Seq<char>>,
    is_ci: bool,
) -> GitignoreAction {
    let needs_entry = match gitignore {
        Some(content) => !contains_spec(content, GITIGNORE_MARKER@),
        None => true,
    };
    if skip_marker_exists || !needs_entry {
        GitignoreAction::Nothing
    } else if is_ci {
        GitignoreAction::AddEntry
    } else {
        GitignoreAction::Ask
    }
}

/// Decides what to do about `.gitignore`, given whether the "don't ask again"
/// marker exists, the content of `.gitignore` if it could be read, and CI mode.
pub fn gitignore_action(skip_marker_exists: bool, gitignore: Option<&str>, is_ci: bool) -> (r:
    GitignoreAction)
    ensures
        r == gitignore_action_spec(
            skip_marker_exists,
            match gitignore {
                Some(c) => Some(c@),
                None => None,
            },
            is_ci,
        ),
{
    if skip_marker_exists {
        return GitignoreAction::Nothing;
    }
    let needs_entry = match gitignore {
        Some(content) => !contains_text(content, GITIGNORE_MARKER),
        None => true,
    };
    if !needs_entry {
        GitignoreAction::Nothing
    } else if is_ci {
        GitignoreAction::AddEntry
    } else {
        GitignoreAction::Ask
    }
}

/// An answer to a yes/no prompt.
#[derive(Debug, Clone, Copy, PartialEq, Eq, Structural)]
pub enum Answer {
    /// Yes.
    Yes,
    /// No.
    No,
    /// Neither: ask again.
    Unclear,
}

/// `s` without trailing `\n` and `\r` characters (`trim_end_matches(['\n', '\r'])`).
pub open spec fn trim_line_end(s: Seq<char>) -> Seq<char>
    decreases s.len(),
{
    if s.len() > 0 && (s.last() == '\n' || s.last() == '\r') {
        trim_line_end(s.drop_last())
    } else {
        s
    }
}

/// The meaning of a line typed at a `[Y/n]` prompt: empty, a single space,
/// `y` or `Y` mean yes; `n` or `N` mean no; anything else is unclear.
pub open spec fn answer_spec(line: Seq<char>) -> Answer {
    let t = trim_line_end(line);
    if t.len() == 0 || t == seq![' '] || t == seq!['y'] || t == seq!['Y'] {
        Answer::Yes
    } else if t == seq!['n'] || t == seq!['N'] {
        Answer::No
    } else {
        Answer::Unclear
    }
}

/// Reads a line typed at a `[Y/n]` prompt.
pub fn classify_answer(line: &str) -> (r: Answer)
    ensures
        r == answer_spec(line@),
{
    let v = chars_of(line);
    let mut n = v.len();
    assert(line@.take(n as int) == line@);
    while n > 0 && (v[n - 1] == '\n' || v[n - 1] == '\r')
        invariant
            v@ == line@,
            n <= v.len(),
            trim_line_end(line@) == trim_line_end(line@.take(n as int)),
        decreases n,
    {
        assert(line@.take(n as int).drop_last() == line@.take(n - 1));
        n = n - 1;
    }
    let ghost t = line@.take(n as int);
    assert(trim_line_end(t) == t);
    if n == 0 {
        Answer::Yes
    } else if n == 1 {
        let c = v[0];
        assert(t == seq![c]);
        if c == ' ' || c == 'y' || c == 'Y' {
            Answer::Yes
        } else if c == 'n' || c == 'N' {
            Answer::No
        } else {
            Answer::Unclear
        }
    } else {
        assert(t.len() > 1);
        Answer::Unclear
    }
}

/// The prompt line: the prefix, the question, then `[Y/n]: `.
pub open spec fn prompt_spec(question: Seq<char>, no_color: bool) -> Seq<char> {
    prefix_spec(no_color) + seq![' '] + question + " [Y/n]: "@
}

/// Builds the prompt printed before reading an answer.
pub fn prompt_text(question: &str, no_color: bool) -> (r: String)
    ensures
        r@ == prompt_spec(question@, no_color),
{
    let mut r = prefix_text(no_color);
    push_char(&mut r, ' ');
    r.append(question);
    r.append(" [Y/n]: ");
    r
}

/// The line printed after an unclear answer.
pub open spec fn answer_hint_spec(no_color: bool) -> Seq<char> {
    if no_color {
        "hint: Please enter Y (yes) or N (no)."@
    } else {
        yellow_spec("hint:"@) + " Please enter Y (yes) or N (no)."@
    }
}

/// Builds the hint printed after an unclear answer.
pub fn answer_hint(no_color: bool) -> (r: String)
    ensures
        r@ == answer_hint_spec(no_color),
{
    if no_color {
        "hint: Please enter Y (yes) or N (no).".to_owned()
    } else {
        let mut r = paint_yellow("hint:");
        r.append(" Please enter Y (yes) or N (no).");
        r
    }
}

/// The warning printed before asking about `.gitignore`.
pub const NOT_IGNORED_WARNING: &'static str = "tools/cargo-qc/ is not in your .gitignore yet.";

/// The question asked about `.gitignore`.
pub const GITIGNORE_QUESTION: &'static str = "Automatically add tools/cargo-qc/ to .gitignore?";

/// The message printed once the entry is added.
pub const ENTRY_ADDED_MESSAGE: &'static str = "Added tools/cargo-qc/ to .gitignore.";

/// The message printed when the user declines.
pub const REFUSAL_MESSAGE: &'static str = "Understood — this won't be asked again.";

/// What follows the answer to the `.gitignore` question.
#[derive(Debug)]
pub enum PromptFollowUp {
    /// Append the entry to `.gitignore`.
    AddEntry,
    /// Write the "don't ask again" marker.
    RememberRefusal,
    /// Print this warning line and go on without changing anything.
    SkipWithWarning(String),
}

/// The warning printed when the answer could not be read.
pub open spec fn unread_answer_spec(error: Seq<char>, no_color: bool) -> Seq<char> {
    log_warning_spec(
        "Failed to read stdin: "@ + error + ". Skipping gitignore prompt."@,
        no_color,
    )
}

/// Decides what follows the `.gitignore` question: yes adds the entry, no
/// records the refusal, and an answer that could not be read (with the
/// error's text) is skipped with a warning.
pub fn prompt_follow_up(answer: Result<bool, String>, no_color: bool) -> (r: PromptFollowUp)
    ensures
        match answer {
            Ok(true) => r is AddEntry,
            Ok(false) => r is RememberRefusal,
            Err(e) => r matches PromptFollowUp::SkipWithWarning(line) && line@ == unread_answer_spec(
                e@,
                no_color,
            ),
        },
{
    match answer {
        Ok(true) => PromptFollowUp::AddEntry,
        Ok(false) => PromptFollowUp::RememberRefusal,
        Err(e) => {
            let mut m = "Failed to read stdin: ".to_owned();
            m.append(e.as_str());
            m.append(". Skipping gitignore prompt.");
            PromptFollowUp::SkipWithWarning(log_warning(m.as_str(), no_color))
        },
    }
}

} // verus!
