//! `cargo-qc`: runs `cargo fmt`, `cargo clippy`, `cargo build` and `cargo test`
//! in turn and keeps a history of the results. This crate holds the decisions
//! and the text of every step; the program around it runs the commands and
//! writes the files.
use vstd::prelude::*;

pub mod style;
pub mod text;
pub mod runner;
pub mod config;
pub mod cli;
pub mod error;
pub mod history;
pub mod spinner;
pub mod telemetry;
pub mod pipeline;
pub mod laws;

pub use crate::config::QcOptions as Options;

use crate::error::QcError;
use crate::history::ERRORS_LOG_PATH;
use crate::runner::CheckResults;
use crate::style::{
    bold_spec, cyan_spec, dimmed_spec, paint_bold, paint_cyan, paint_dimmed, paint_red, paint_yellow,
    red_spec, yellow_spec,
};
use crate::text::push_char;

verus! {

/// The prefix of every log line.
pub const PREFIX: &'static str = "[cargo-qc]";

/// The column at which a check's icon stands, counted from the label's start.
pub const CHECK_LABEL_WIDTH: usize = 34;

/// The prefix as printed: plain, or dimmed when colours are on.
pub open spec fn prefix_spec(no_color: bool) -> Seq<char> {
    if no_color {
        PREFIX@
    } else {
        dimmed_spec(PREFIX@)
    }
}

/// The prefix, plain or dimmed.
pub fn prefix_text(no_color: bool) -> (r: String)
    ensures
        r@ == prefix_spec(no_color),
{
    if no_color {
        PREFIX.to_owned()
    } else {
        paint_dimmed(PREFIX)
    }
}

/// The icon of a check's outcome.
pub open spec fn icon_spec(passed: bool) -> Seq<char> {
    if passed {
        "✅"@
    } else {
        "❌"@
    }
}

/// `✅` for a passed check, `❌` for a failed one.
pub fn icon(passed: bool) -> (r: &'static str)
    ensures
        r@ == icon_spec(passed),
{
    if passed {
        "✅"
    } else {
        "❌"
    }
}

/// `s` followed by spaces up to `width` characters, as `format!("{:<width$}", s)` writes it.
pub open spec fn pad_right_spec(s: Seq<char>, width: nat) -> Seq<char> {
    if s.len() >= width {
        s
    } else {
        s + Seq::new((width - s.len()) as nat, |k: int| ' ')
    }
}

/// Pads `s` with spaces on the right to `width` characters.
pub fn pad_right(s: &str, width: usize) -> (r: String)
    ensures
        r@ == pad_right_spec(s@, width as nat),
{
    let n = s.unicode_len();
    let mut r = s.to_owned();
    let mut k = n;
    while k < width
        invariant
            n == s@.len(),
            n <= k <= width || (k == n && n >= width),
            r@ == s@ + Seq::new((k - n) as nat, |i: int| ' '),
        decreases width - k,
    {
        push_char(&mut r, ' ');
        assert(Seq::new((k + 1 - n) as nat, |i: int| ' ') =~= Seq::new((k - n) as nat, |i: int| ' ').push(' '));
        k = k + 1;
    }
    assert(s@ + Seq::new(0, |i: int| ' ') =~= s@);
    r
}

/// The line that `log_line` prints: the prefix, a space, the message.
pub open spec fn log_line_spec(message: Seq<char>, no_color: bool) -> Seq<char> {
    prefix_spec(no_color) + seq![' '] + message
}

/// Builds a plain log line: the `[cargo-qc]` prefix (dimmed when colours are
/// on), a space, then the message.
pub fn log_line(message: &str, no_color: bool) -> (r: String)
    ensures
        r@ == log_line_spec(message@, no_color),
{
    let mut r = prefix_text(no_color);
    push_char(&mut r, ' ');
    r.append(message);
    r
}

/// The line that `log_check` prints.
pub open spec fn log_check_spec(label: Seq<char>, passed: bool, no_color: bool) -> Seq<char> {
    prefix_spec(no_color) + seq![' '] + pad_right_spec(label, CHECK_LABEL_WIDTH as nat)
        + icon_spec(passed)
}

/// Builds the line of a finished check: the prefix, the label padded to
/// thirty-four characters, then `✅` or `❌`.
pub fn log_check(label: &str, passed: bool, no_color: bool) -> (r: String)
    ensures
        r@ == log_check_spec(label@, passed, no_color),
{
    let mut r = prefix_text(no_color);
    push_char(&mut r, ' ');
    let padded = pad_right(label, CHECK_LABEL_WIDTH);
    r.append(padded.as_str());
    r.append(icon(passed));
    r
}

/// The line that `log_error` prints.
pub open spec fn log_error_spec(message: Seq<char>, no_color: bool) -> Seq<char> {
    if no_color {
        "error: "@ + message
    } else {
        bold_spec(red_spec("error:"@)) + seq![' '] + message
    }
}

/// Builds a fatal error line: `error:` (bold red when colours are on), a space, the message.
pub fn log_error(message: &str, no_color: bool) -> (r: String)
    ensures
        r@ == log_error_spec(message@, no_color),
{
    if no_color {
        let mut r = "error: ".to_owned();
        r.append(message);
        r
    } else {
        let red = paint_red("error:");
        let mut r = paint_bold(red.as_str());
        push_char(&mut r, ' ');
        r.append(message);
        r
    }
}

/// The line that `log_warning` prints.
pub open spec fn log_warning_spec(message: Seq<char>, no_color: bool) -> Seq<char> {
    if no_color {
        "warning: "@ + message
    } else {
        bold_spec(yellow_spec("warning:"@)) + seq![' '] + message
    }
}

/// Builds a warning line: `warning:` (bold yellow when colours are on), a space, the message.
pub fn log_warning(message: &str, no_color: bool) -> (r: String)
    ensures
        r@ == log_warning_spec(message@, no_color),
{
    if no_color {
        let mut r = "warning: ".to_owned();
        r.append(message);
        r
    } else {
        let yellow = paint_yellow("warning:");
        let mut r = paint_bold(yellow.as_str());
        push_char(&mut r, ' ');
        r.append(message);
        r
    }
}

/// The title printed when a run starts.
pub const TITLE: &'static str = "Local Quality Control";

/// The title line: the title, bold when colours are on.
pub open spec fn title_line_spec(no_color: bool) -> Seq<char> {
    log_line_spec(if no_color { TITLE@ } else { bold_spec(TITLE@) }, no_color)
}

/// Builds the title line.
pub fn title_line(no_color: bool) -> (r: String)
    ensures
        r@ == title_line_spec(no_color),
{
    if no_color {
        log_line(TITLE, no_color)
    } else {
        let t = paint_bold(TITLE);
        log_line(t.as_str(), no_color)
    }
}

/// The project line: `Project: <name> v<version>`, the name bold and the
/// version cyan when colours are on.
pub open spec fn project_line_spec(name: Seq<char>, version: Seq<char>, no_color: bool) -> Seq<
    char,
> {
    log_line_spec(
        "Project: "@ + (if no_color {
            name
        } else {
            bold_spec(name)
        }) + " v"@ + (if no_color {
            version
        } else {
            cyan_spec(version)
        }),
        no_color,
    )
}

/// Builds the project line.
pub fn project_line(name: &str, version: &str, no_color: bool) -> (r: String)
    ensures
        r@ == project_line_spec(name@, version@, no_color),
{
    let mut m = "Project: ".to_owned();
    if no_color {
        m.append(name);
        m.append(" v");
        m.append(version);
    } else {
        let n = paint_bold(name);
        m.append(n.as_str());
        m.append(" v");
        let v = paint_cyan(version);
        m.append(v.as_str());
    }
    log_line(m.as_str(), no_color)
}

/// Builds the directory line from the directory as displayed.
pub fn directory_line(dir: &str, no_color: bool) -> (r: String)
    ensures
        r@ == log_line_spec("Directory: "@ + dir@, no_color),
{
    let mut m = "Directory: ".to_owned();
    m.append(dir);
    log_line(m.as_str(), no_color)
}

/// After how many seconds a run is said to take long.
pub const SLOW_NOTICE_SECONDS: u64 = 15;

/// The notice printed when a run takes longer than fifteen seconds.
pub open spec fn slow_notice_spec(no_color: bool) -> Seq<char> {
    seq!['\n'] + prefix_spec(no_color)
        + " Note: The process is taking longer than expected (15s). Please be patient..."@
}

/// Builds the notice printed when a run takes long.
pub fn slow_notice(no_color: bool) -> (r: String)
    ensures
        r@ == slow_notice_spec(no_color),
{
    let mut r = String::new();
    push_char(&mut r, '\n');
    let p = prefix_text(no_color);
    r.append(p.as_str());
    r.append(" Note: The process is taking longer than expected (15s). Please be patient...");
    r
}

/// How a run ends: success when every check passed; otherwise the error
/// that counts the failed checks and points at the errors file.
pub fn run_outcome(results: &CheckResults) -> (r: Result<(), QcError>)
    ensures
        results.all_passed_spec() <==> r is Ok,
        r matches Err(e) ==> (e matches QcError::ChecksFailed { failed_count, log_path }
            && failed_count == results.failed_count_spec() && log_path@ == ERRORS_LOG_PATH@),
{
    if results.all_passed() {
        Ok(())
    } else {
        Err(QcError::ChecksFailed { failed_count: results.failed_count(), log_path: ERRORS_LOG_PATH.to_owned() })
    }
}

} // verus!
