//! The four quality checks: how each is invoked, and what becomes of its output.
use vstd::prelude::*;


use crate::config::OptionsModel;
use crate::config::QcOptions;
use crate::style::{paint_yellow, yellow_spec};
use crate::error::QcError;
use crate::text::{chars_of, decode_lossy, lossy_text, push_char, string_from_chars};

verus! {

/// The escape character that starts an ANSI control sequence.
pub open spec fn is_escape(c: char) -> bool {
    c == '\u{1b}'
}

/// `char::is_ascii_alphabetic`.
pub open spec fn is_ascii_letter(c: char) -> bool {
    ('a' <= c && c <= 'z') || ('A' <= c && c <= 'Z')
}

/// One step of the escape-stripping scan: the text kept so far and whether
/// the scan is inside an escape sequence, after reading `c`.
/// An escape character opens a sequence, an ASCII letter closes it, and
/// every character read inside a sequence (both ends included) is dropped.
pub open spec fn ansi_step(state: (Seq<char>, bool), c: char) -> (Seq<char>, bool) {
    if is_escape(c) {
        (state.0, true)
    } else if state.1 {
        (state.0, !is_ascii_letter(c))
    } else {
        (state.0.push(c), false)
    }
}

/// The escape-stripping scan over all of `s`.
pub open spec fn ansi_scan(s: Seq<char>) -> (Seq<char>, bool)
    decreases s.len(),
{
    if s.len() == 0 {
        (Seq::empty(), false)
    } else {
        ansi_step(ansi_scan(s.drop_last()), s.last())
    }
}

/// `s` with its ANSI escape sequences removed.
pub open spec fn strip_ansi_spec(s: Seq<char>) -> Seq<char> {
    ansi_scan(s).0
}

/// Removes ANSI escape sequences (colour codes) from `s`.
pub fn strip_ansi(s: &str) -> (r: String)
    ensures
        r@ == strip_ansi_spec(s@),
{
    let v = chars_of(s);
    let mut result = String::new();
    let mut in_escape = false;
    let mut i: usize = 0;
    while i < v.len()
        invariant
            v@ == s@,
            i <= v.len(),
            (result@, in_escape) == ansi_scan(s@.take(i as int)),
        decreases v.len() - i,
    {
        let c = v[i];
        assert(s@.take(i + 1).drop_last() == s@.take(i as int));
        if c == '\u{1b}' {
            in_escape = true;
        } else if in_escape {
            if ('a' <= c && c <= 'z') || ('A' <= c && c <= 'Z') {
                in_escape = false;
            }
        } else {
            push_char(&mut result, c);
        }
        i = i + 1;
    }
    assert(s@.take(v.len() as int) == s@);
    result
}

/// `line` without one trailing carriage return.
pub open spec fn strip_cr(line: Seq<char>) -> Seq<char> {
    if line.len() > 0 && line.last() == '\r' {
        line.drop_last()
    } else {
        line
    }
}

/// One step of the line scan: the finished lines and the line being read.
pub open spec fn line_step(state: (Seq<Seq<char>>, Seq<char>), c: char) -> (
    Seq<Seq<char>>,
    Seq<char>,
) {
    if c == '\n' {
        (state.0.push(strip_cr(state.1)), Seq::empty())
    } else {
        (state.0, state.1.push(c))
    }
}

/// The line scan over all of `s`.
pub open spec fn line_scan(s: Seq<char>) -> (Seq<Seq<char>>, Seq<char>)
    decreases s.len(),
{
    if s.len() == 0 {
        (Seq::empty(), Seq::empty())
    } else {
        line_step(line_scan(s.drop_last()), s.last())
    }
}

/// The lines of `s` as `str::lines` yields them: split at `\n`, a `\r`
/// just before the `\n` removed, and no empty line after a final `\n`.
pub open spec fn lines_spec(s: Seq<char>) -> Seq<Seq<char>> {
    let st = line_scan(s);
    if st.1.len() == 0 {
        st.0
    } else {
        st.0.push(st.1)
    }
}

/// The items of `list` with `sep` between each two.
pub open spec fn join_spec(list: Seq<Seq<char>>, sep: Seq<char>) -> Seq<char>
    decreases list.len(),
{
    if list.len() == 0 {
        Seq::empty()
    } else if list.len() == 1 {
        list[0]
    } else {
        join_spec(list.drop_last(), sep) + sep + list.last()
    }
}

/// How many lines of a check's output the terminal shows.
pub const TERMINAL_LINES: usize = 15;

/// The output shown on the terminal: at most the first fifteen lines, with a
/// note when some were left out.
pub open spec fn truncate_spec(output: Seq<char>) -> Seq<char> {
    let ls = lines_spec(output);
    if ls.len() > TERMINAL_LINES {
        join_spec(ls.take(TERMINAL_LINES as int), seq!['\n']) + "\n... (output truncated, see logs for full details)"@
    } else {
        output
    }
}

/// The lines of `s`.
pub fn split_lines(s: &str) -> (r: Vec<Vec<char>>)
    ensures
        r@.len() == lines_spec(s@).len(),
        forall|k: int| 0 <= k < r@.len() ==> #[trigger] r@[k]@ == lines_spec(s@)[k],
{
    let v = chars_of(s);
    let mut done: Vec<Vec<char>> = Vec::new();
    let mut cur: Vec<char> = Vec::new();
    let mut i: usize = 0;
    while i < v.len()
        invariant
            v@ == s@,
            i <= v.len(),
            done@.len() == line_scan(s@.take(i as int)).0.len(),
            forall|k: int|
                0 <= k < done@.len() ==> #[trigger] done@[k]@ == line_scan(s@.take(i as int)).0[k],
            cur@ == line_scan(s@.take(i as int)).1,
        decreases v.len() - i,
    {
        let c = v[i];
        assert(s@.take(i + 1).drop_last() == s@.take(i as int));
        assert(s@.take(i + 1).last() == c);
        if c == '\n' {
            let n = cur.len();
            if n > 0 && cur[n - 1] == '\r' {
                cur.pop();
            }
            done.push(cur);
            cur = Vec::new();
        } else {
            cur.push(c);
        }
        i = i + 1;
    }
    assert(s@.take(v.len() as int) == s@);
    if cur.len() > 0 {
        done.push(cur);
    }
    done
}

/// Joins the first `count` of `lines` with `\n` between them.
fn join_lines(lines: &Vec<Vec<char>>, count: usize) -> (r: String)
    requires
        0 < count <= lines@.len(),
    ensures
        r@ == join_spec(lines@.take(count as int).map_values(|l: Vec<char>| l@), seq!['\n']),
{
    let ghost views = lines@.map_values(|l: Vec<char>| l@);
    let mut r = string_from_chars(&lines[0]);
    assert(views.take(1).len() == 1);
    let mut i: usize = 1;
    while i < count
        invariant
            0 < i <= count <= lines@.len(),
            views == lines@.map_values(|l: Vec<char>| l@),
            r@ == join_spec(views.take(i as int), seq!['\n']),
        decreases count - i,
    {
        push_char(&mut r, '\n');
        let next = string_from_chars(&lines[i]);
        r.append(next.as_str());
        assert(views.take(i + 1).drop_last() == views.take(i as int));
        i = i + 1;
    }
    assert(lines@.take(count as int).map_values(|l: Vec<char>| l@) == views.take(count as int));
    r
}

/// Shortens a check's output for the terminal: past fifteen lines, only the
/// first fifteen are kept and a note says that the rest is in the logs.
pub fn truncate_for_term(output: &str) -> (r: String)
    ensures
        r@ == truncate_spec(output@),
{
    let lines = split_lines(output);
    let ghost ls = lines_spec(output@);
    if lines.len() > TERMINAL_LINES {
        let mut truncated = join_lines(&lines, TERMINAL_LINES);
        assert(lines@.take(TERMINAL_LINES as int).map_values(|l: Vec<char>| l@) =~= ls.take(
            TERMINAL_LINES as int,
        ));
        truncated.append("\n... (output truncated, see logs for full details)");
        truncated
    } else {
        output.to_owned()
    }
}

/// One of the four quality checks.
#[derive(Debug, Clone, Copy, PartialEq, Eq, Structural)]
pub enum CheckKind {
    /// `cargo fmt -- --check`
    Fmt,
    /// `cargo clippy -- -D warnings`
    Clippy,
    /// `cargo build`
    Build,
    /// `cargo test`
    Test,
}

/// The lints that strict mode denies on top of all warnings.
pub open spec fn strict_lint_args() -> Seq<Seq<char>> {
    seq![
        "-D"@,
        "clippy::cognitive_complexity"@,
        "-D"@,
        "clippy::too_many_arguments"@,
        "-D"@,
        "clippy::type_complexity"@,
    ]
}

/// The arguments given to `cargo` for a check.
pub open spec fn cargo_args_spec(kind: CheckKind, strict: bool) -> Seq<Seq<char>> {
    match kind {
        CheckKind::Fmt => seq!["fmt"@, "--"@, "--check"@],
        CheckKind::Clippy => if strict {
            seq!["clippy"@, "--"@, "-D"@, "warnings"@] + strict_lint_args()
        } else {
            seq!["clippy"@, "--"@, "-D"@, "warnings"@]
        },
        CheckKind::Build => seq!["build"@],
        CheckKind::Test => seq!["test"@],
    }
}

/// The views of a list of string slices.
pub open spec fn str_views(v: Seq<&str>) -> Seq<Seq<char>> {
    v.map_values(|s: &str| s@)
}

impl CheckKind {
    /// The message shown while the check runs.
    pub open spec fn spinner_message_spec(self) -> Seq<char> {
        match self {
            CheckKind::Fmt => "Running cargo fmt --check"@,
            CheckKind::Clippy => "Running cargo clippy"@,
            CheckKind::Build => "Running cargo build"@,
            CheckKind::Test => "Running cargo test"@,
        }
    }

    /// The message shown while the check runs.
    pub fn spinner_message(&self) -> (r: &'static str)
        ensures
            r@ == self.spinner_message_spec(),
    {
        match self {
            CheckKind::Fmt => "Running cargo fmt --check",
            CheckKind::Clippy => "Running cargo clippy",
            CheckKind::Build => "Running cargo build",
            CheckKind::Test => "Running cargo test",
        }
    }

    /// The line that opens the check's section in the error log.
    pub open spec fn error_header_spec(self) -> Seq<char> {
        match self {
            CheckKind::Fmt => "--- FMT ERROR ---\n"@,
            CheckKind::Clippy => "--- CLIPPY ERROR ---\n"@,
            CheckKind::Build => "--- BUILD ERROR ---\n"@,
            CheckKind::Test => "--- TEST ERROR ---\n"@,
        }
    }

    /// The line that opens the check's section in the error log.
    pub fn error_header(&self) -> (r: &'static str)
        ensures
            r@ == self.error_header_spec(),
    {
        match self {
            CheckKind::Fmt => "--- FMT ERROR ---\n",
            CheckKind::Clippy => "--- CLIPPY ERROR ---\n",
            CheckKind::Build => "--- BUILD ERROR ---\n",
            CheckKind::Test => "--- TEST ERROR ---\n",
        }
    }

    /// What to do next after the check failed.
    pub open spec fn hint_spec(self) -> Seq<char> {
        match self {
            CheckKind::Fmt => "hint: run 'cargo fmt' to automatically fix formatting issues."@,
            CheckKind::Clippy => "hint: run 'cargo clippy --fix' to automatically resolve warnings."@,
            CheckKind::Build => "hint: fix compiler errors above."@,
            CheckKind::Test => "hint: review failing tests and try again."@,
        }
    }

    /// What to do next after the check failed.
    pub fn hint(&self) -> (r: &'static str)
        ensures
            r@ == self.hint_spec(),
    {
        match self {
            CheckKind::Fmt => "hint: run 'cargo fmt' to automatically fix formatting issues.",
            CheckKind::Clippy => "hint: run 'cargo clippy --fix' to automatically resolve warnings.",
            CheckKind::Build => "hint: fix compiler errors above.",
            CheckKind::Test => "hint: review failing tests and try again.",
        }
    }

    /// The hint as printed: plain, or yellow when colours are on.
    pub open spec fn hint_line_spec(self, no_color: bool) -> Seq<char> {
        if no_color {
            self.hint_spec()
        } else {
            yellow_spec(self.hint_spec())
        }
    }

    /// Builds the hint line.
    pub fn hint_line(&self, no_color: bool) -> (r: String)
        ensures
            r@ == self.hint_line_spec(no_color),
    {
        if no_color {
            self.hint().to_owned()
        } else {
            paint_yellow(self.hint())
        }
    }

    /// The arguments given to `cargo` for the check; in strict mode clippy
    /// also denies the cognitive-complexity, argument-count and
    /// type-complexity lints.
    pub fn cargo_args(&self, strict: bool) -> (r: Vec<&'static str>)
        ensures
            str_views(r@) == cargo_args_spec(*self, strict),
    {
        let r = match self {
            CheckKind::Fmt => vec!["fmt", "--", "--check"],
            CheckKind::Clippy => {
                let mut a = vec!["clippy", "--", "-D", "warnings"];
                if strict {
                    a.push("-D");
                    a.push("clippy::cognitive_complexity");
                    a.push("-D");
                    a.push("clippy::too_many_arguments");
                    a.push("-D");
                    a.push("clippy::type_complexity");
                }
                a
            },
            CheckKind::Build => vec!["build"],
            CheckKind::Test => vec!["test"],
        };
        assert(str_views(r@) =~= cargo_args_spec(*self, strict));
        r
    }
}

/// The outcome of the four checks; a skipped check counts as passed.
#[derive(Debug, Clone, Copy, PartialEq, Eq, Structural)]
pub struct CheckResults {
    /// `cargo fmt` passed or was skipped.
    pub fmt_pass: bool,
    /// `cargo clippy` passed or was skipped.
    pub clippy_pass: bool,
    /// `cargo build` passed or was skipped.
    pub build_pass: bool,
    /// `cargo test` passed or was skipped.
    pub test_pass: bool,
}

impl CheckResults {
    /// Every check passed.
    pub open spec fn all_passed_spec(self) -> bool {
        self.fmt_pass && self.clippy_pass && self.build_pass && self.test_pass
    }

    /// The number of checks that failed.
    pub open spec fn failed_count_spec(self) -> nat {
        (if self.fmt_pass { 0nat } else { 1nat }) + (if self.clippy_pass { 0nat } else { 1nat })
            + (if self.build_pass { 0nat } else { 1nat }) + (if self.test_pass { 0nat } else { 1nat })
    }

    /// The result of `kind`.
    pub open spec fn passed_spec(self, kind: CheckKind) -> bool {
        match kind {
            CheckKind::Fmt => self.fmt_pass,
            CheckKind::Clippy => self.clippy_pass,
            CheckKind::Build => self.build_pass,
            CheckKind::Test => self.test_pass,
        }
    }

    /// Nothing has failed yet.
    pub fn new() -> (r: CheckResults)
        ensures
            r.fmt_pass && r.clippy_pass && r.build_pass && r.test_pass,
    {
        CheckResults { fmt_pass: true, clippy_pass: true, build_pass: true, test_pass: true }
    }

    /// Records the result of `kind`, leaving the others as they were.
    pub fn record(&mut self, kind: CheckKind, passed: bool)
        ensures
            final(self).passed_spec(kind) == passed,
            forall|k: CheckKind| k != kind ==> final(self).passed_spec(k) == old(self).passed_spec(k),
            final(self).failed_count_spec() + (if old(self).passed_spec(kind) { 0nat } else { 1nat })
                == old(self).failed_count_spec() + (if passed { 0nat } else { 1nat }),
    {
        match kind {
            CheckKind::Fmt => self.fmt_pass = passed,
            CheckKind::Clippy => self.clippy_pass = passed,
            CheckKind::Build => self.build_pass = passed,
            CheckKind::Test => self.test_pass = passed,
        }
    }

    /// Whether every check passed.
    pub fn all_passed(&self) -> (r: bool)
        ensures
            r == self.all_passed_spec(),
    {
        self.fmt_pass && self.clippy_pass && self.build_pass && self.test_pass
    }

    /// How many checks failed.
    pub fn failed_count(&self) -> (r: usize)
        ensures
            r == self.failed_count_spec(),
    {
        let mut n: usize = 0;
        if !self.fmt_pass {
            n = n + 1;
        }
        if !self.clippy_pass {
            n = n + 1;
        }
        if !self.build_pass {
            n = n + 1;
        }
        if !self.test_pass {
            n = n + 1;
        }
        n
    }
}

/// The checks that the options leave enabled, in the order they run:
/// fmt, clippy, build, test.
pub open spec fn planned_checks_spec(opts: OptionsModel) -> Seq<CheckKind> {
    (if opts.skip_fmt { seq![] } else { seq![CheckKind::Fmt] }) + (if opts.skip_clippy {
        seq![]
    } else {
        seq![CheckKind::Clippy]
    }) + (if opts.skip_build { seq![] } else { seq![CheckKind::Build] }) + (if opts.skip_test {
        seq![]
    } else {
        seq![CheckKind::Test]
    })
}

/// The checks to run, in order.
pub fn planned_checks(opts: &QcOptions) -> (r: Vec<CheckKind>)
    ensures
        r@ == planned_checks_spec(opts@),
{
    let mut r: Vec<CheckKind> = Vec::new();
    if !opts.skip_fmt {
        r.push(CheckKind::Fmt);
    }
    if !opts.skip_clippy {
        r.push(CheckKind::Clippy);
    }
    if !opts.skip_build {
        r.push(CheckKind::Build);
    }
    if !opts.skip_test {
        r.push(CheckKind::Test);
    }
    assert(r@ =~= planned_checks_spec(opts@));
    r
}

/// What a finished `cargo` process left: its exit status and its raw output.
#[derive(Debug)]
pub struct ProcessOutput {
    /// The process exited successfully.
    pub success: bool,
    /// The bytes written to standard output.
    pub stdout: Vec<u8>,
    /// The bytes written to standard error.
    pub stderr: Vec<u8>,
}

/// How running a check's command went.
#[derive(Debug)]
pub enum CommandResult {
    /// The command ran to its end.
    Finished(ProcessOutput),
    /// The command could not be started; the text of the error.
    NotStarted(String),
}

impl CheckKind {
    /// The error of a check whose command could not be started.
    pub open spec fn launch_error_spec(self, error: Seq<char>) -> Seq<char> {
        match self {
            CheckKind::Fmt => "failed to run cargo fmt: "@ + error,
            CheckKind::Clippy => "failed to run cargo clippy: "@ + error,
            CheckKind::Build => "failed to run cargo build: "@ + error,
            CheckKind::Test => "failed to run cargo test: "@ + error,
        }
    }

    /// The error of a check whose command could not be started, as a `QcError`.
    pub fn launch_error(&self, error: String) -> (r: QcError)
        ensures
            r.message_spec() == self.launch_error_spec(error@),
            match self {
                CheckKind::Fmt => r == QcError::FmtCheck(error),
                CheckKind::Clippy => r == QcError::ClippyCheck(error),
                CheckKind::Build => r == QcError::BuildCheck(error),
                CheckKind::Test => r == QcError::TestCheck(error),
            },
    {
        match self {
            CheckKind::Fmt => QcError::FmtCheck(error),
            CheckKind::Clippy => QcError::ClippyCheck(error),
            CheckKind::Build => QcError::BuildCheck(error),
            CheckKind::Test => QcError::TestCheck(error),
        }
    }
}

/// A check passed when its command ran and exited successfully.
pub fn check_passed(result: &CommandResult) -> (r: bool)
    ensures
        r == (result matches CommandResult::Finished(o) && o.success),
{
    match result {
        CommandResult::Finished(o) => o.success,
        CommandResult::NotStarted(_) => false,
    }
}

/// The error-log section of a failed check.
pub open spec fn failure_section_spec(kind: CheckKind, stdout: Seq<char>, stderr: Seq<char>) -> Seq<
    char,
> {
    kind.error_header_spec() + strip_ansi_spec(stdout) + strip_ansi_spec(stderr) + seq!['\n']
}

/// The error-log section of a check whose command could not be started.
pub open spec fn launch_failure_section_spec(kind: CheckKind, error: Seq<char>) -> Seq<char> {
    kind.error_header_spec() + kind.launch_error_spec(error) + seq!['\n']
}

/// What the terminal shows of a failed check: its error output without
/// escape sequences, truncated, then the hint when there is one.
pub struct FailureReport {
    /// The shortened error output.
    pub terminal: String,
    /// The hint line; none when the command could not be started.
    pub hint: Option<String>,
}

/// Records a failed check whose output is already text: appends its section
/// (header, cleaned standard output, cleaned standard error, newline) to the
/// error log and returns what the terminal shows.
pub fn record_failure_text(
    kind: CheckKind,
    stdout: &str,
    stderr: &str,
    err_log: &mut String,
    no_color: bool,
) -> (report: FailureReport)
    ensures
        final(err_log)@ == old(err_log)@ + failure_section_spec(kind, stdout@, stderr@),
        report.terminal@ == truncate_spec(strip_ansi_spec(stderr@)),
        report.hint matches Some(h) && h@ == kind.hint_line_spec(no_color),
{
    err_log.append(kind.error_header());
    let stdout_clean = strip_ansi(stdout);
    let stderr_clean = strip_ansi(stderr);
    err_log.append(stdout_clean.as_str());
    err_log.append(stderr_clean.as_str());
    push_char(err_log, '\n');
    let terminal = truncate_for_term(stderr_clean.as_str());
    FailureReport { terminal, hint: Some(kind.hint_line(no_color)) }
}

/// Records a check whose command could not be started: appends its section
/// (header, the error, newline) to the error log and returns the error line
/// for the terminal.
pub fn record_launch_failure(kind: CheckKind, error: &str, err_log: &mut String) -> (report:
    FailureReport)
    ensures
        final(err_log)@ == old(err_log)@ + launch_failure_section_spec(kind, error@),
        report.terminal@ == kind.launch_error_spec(error@),
        report.hint is None,
{
    let e = kind.launch_error(error.to_owned());
    let line = e.message();
    err_log.append(kind.error_header());
    err_log.append(line.as_str());
    push_char(err_log, '\n');
    FailureReport { terminal: line, hint: None }
}

/// Concludes a check after its command. A check that failed is recorded in
/// the error log and its terminal report returned: when the command ran, its
/// output (decoded as by `from_utf8_lossy`); when it could not be started,
/// the error. A check that passed leaves the log as it was.
pub fn conclude_check(
    kind: CheckKind,
    result: &CommandResult,
    err_log: &mut String,
    no_color: bool,
) -> (report: Option<FailureReport>)
    ensures
        match result {
            CommandResult::Finished(o) => if o.success {
                final(err_log)@ == old(err_log)@ && report is None
            } else {
                &&& final(err_log)@ == old(err_log)@ + failure_section_spec(
                    kind,
                    lossy_text(o.stdout@),
                    lossy_text(o.stderr@),
                )
                &&& report matches Some(rep) && rep.terminal@ == truncate_spec(
                    strip_ansi_spec(lossy_text(o.stderr@)),
                ) && (rep.hint matches Some(h) && h@ == kind.hint_line_spec(no_color))
            },
            CommandResult::NotStarted(e) => {
                &&& final(err_log)@ == old(err_log)@ + launch_failure_section_spec(kind, e@)
                &&& report matches Some(rep) && rep.terminal@ == kind.launch_error_spec(e@)
                    && rep.hint is None
            },
        },
{
    match result {
        CommandResult::Finished(o) => {
            if o.success {
                None
            } else {
                let stdout = decode_lossy(o.stdout.as_slice());
                let stderr = decode_lossy(o.stderr.as_slice());
                Some(record_failure_text(kind, stdout.as_str(), stderr.as_str(), err_log, no_color))
            }
        },
        CommandResult::NotStarted(e) => Some(record_launch_failure(kind, e.as_str(), err_log)),
    }
}

} // verus!
