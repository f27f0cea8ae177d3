//! The text of `.qc_history.md` and `.qc_errors.log`.
use vstd::prelude::*;

use crate::runner::CheckResults;
use crate::style::{bold_spec, green_spec, paint_bold, paint_green};
use crate::text::{format_zero_padded, push_char, zero_padded};
use crate::{icon, icon_spec, log_line, log_line_spec};

verus! {

/// A wall-clock reading, to the minute.
#[derive(Debug, Clone, Copy)]
pub struct Timestamp {
    /// The year (negative before year 1).
    pub year: i32,
    /// The month, 1 to 12.
    pub month: u8,
    /// The day of the month, 1 to 31.
    pub day: u8,
    /// The hour, 0 to 23.
    pub hour: u8,
    /// The minute, 0 to 59.
    pub minute: u8,
}

impl Timestamp {
    /// Every field within its calendar range.
    pub open spec fn is_valid(&self) -> bool {
        &&& -999_999 <= self.year <= 999_999
        &&& 1 <= self.month <= 12
        &&& 1 <= self.day <= 31
        &&& self.hour < 24
        &&& self.minute < 60
    }
}

/// The current date and time in the local offset, by `time::OffsetDateTime::now_local`;
/// `None` when the local offset cannot be determined. The fields come from
/// `year`, `month` (as its number), `day`, `hour` and `minute`, which the
/// crate keeps within their calendar ranges. The reading itself depends on the
/// clock and is not stated.
#[verifier::external_body]
fn local_now() -> (r: Option<Timestamp>)
    ensures
        r matches Some(t) ==> t.is_valid(),
{
    match time::OffsetDateTime::now_local() {
        Ok(dt) => Some(
            Timestamp {
                year: dt.year(),
                month: u8::from(dt.month()),
                day: dt.day(),
                hour: dt.hour(),
                minute: dt.minute(),
            },
        ),
        Err(_) => None,
    }
}

/// The current date and time in UTC, by `time::OffsetDateTime::now_utc`
/// (which panics only for a system clock beyond the crate's date range).
/// The fields are as in `local_now`; the reading is not stated.
#[verifier::external_body]
fn utc_now() -> (r: Timestamp)
    ensures
        r.is_valid(),
{
    let dt = time::OffsetDateTime::now_utc();
    Timestamp {
        year: dt.year(),
        month: u8::from(dt.month()),
        day: dt.day(),
        hour: dt.hour(),
        minute: dt.minute(),
    }
}

/// The time to report: the local reading when the local offset was known,
/// the UTC reading otherwise.
pub fn local_or_utc(local: Option<Timestamp>, utc: Timestamp) -> (r: Timestamp)
    ensures
        r == match local {
            Some(t) => t,
            None => utc,
        },
{
    match local {
        Some(t) => t,
        None => utc,
    }
}

/// The current time: local when the local offset is known, UTC otherwise
/// (the clock is read both ways, and `local_or_utc` chooses).
pub fn current_timestamp() -> (r: Timestamp)
    ensures
        r.is_valid(),
{
    let local = local_now();
    let utc = utc_now();
    local_or_utc(local, utc)
}

/// `YYYY-MM-DD HH:MM`, each field zero-padded.
pub open spec fn timestamp_text_spec(t: Timestamp) -> Seq<char> {
    zero_padded(t.year as int, 4) + seq!['-'] + zero_padded(t.month as int, 2) + seq!['-']
        + zero_padded(t.day as int, 2) + seq![' '] + zero_padded(t.hour as int, 2) + seq![':']
        + zero_padded(t.minute as int, 2)
}

/// Formats a timestamp as `YYYY-MM-DD HH:MM`.
pub fn format_timestamp(t: &Timestamp) -> (r: String)
    ensures
        r@ == timestamp_text_spec(*t),
{
    let mut r = format_zero_padded(t.year as i64, 4);
    push_char(&mut r, '-');
    let month = format_zero_padded(t.month as i64, 2);
    r.append(month.as_str());
    push_char(&mut r, '-');
    let day = format_zero_padded(t.day as i64, 2);
    r.append(day.as_str());
    push_char(&mut r, ' ');
    let hour = format_zero_padded(t.hour as i64, 2);
    r.append(hour.as_str());
    push_char(&mut r, ':');
    let minute = format_zero_padded(t.minute as i64, 2);
    r.append(minute.as_str());
    r
}

/// The current time as `YYYY-MM-DD HH:MM`.
pub fn current_date_text() -> (r: String)
    ensures
        exists|t: Timestamp| t.is_valid() && r@ == timestamp_text_spec(t),
{
    let t = current_timestamp();
    format_timestamp(&t)
}

/// The history file's name inside the log directory.
pub const HISTORY_FILE: &'static str = ".qc_history.md";

/// The errors file's name inside the log directory.
pub const ERRORS_FILE: &'static str = ".qc_errors.log";

/// The path of the errors file as reported to the user.
pub const ERRORS_LOG_PATH: &'static str = "tools/cargo-qc/.qc_errors.log";

/// The title and table header written when the history file is created.
pub const HISTORY_HEADER: &'static str = "# Cargo QC History\n\n| Date | Version | Fmt | Clippy | Build | Test | Overall | Duration |\n|---|---|---|---|---|---|---|---|\n";

/// One row of the history table: date, version (as code), the four checks,
/// the overall result and the duration.
pub open spec fn history_row_spec(
    date: Seq<char>,
    version: Seq<char>,
    results: CheckResults,
    duration: Seq<char>,
) -> Seq<char> {
    "| "@ + date + " | `"@ + version + "` | "@ + icon_spec(results.fmt_pass) + " | "@ + icon_spec(
        results.clippy_pass,
    ) + " | "@ + icon_spec(results.build_pass) + " | "@ + icon_spec(results.test_pass) + " | "@
        + icon_spec(results.all_passed_spec()) + " | "@ + duration + " |\n"@
}

/// Builds the history row of a run.
pub fn history_row(date: &str, version: &str, results: &CheckResults, duration: &str) -> (r:
    String)
    ensures
        r@ == history_row_spec(date@, version@, *results, duration@),
{
    let mut r = "| ".to_owned();
    r.append(date);
    r.append(" | `");
    r.append(version);
    r.append("` | ");
    r.append(icon(results.fmt_pass));
    r.append(" | ");
    r.append(icon(results.clippy_pass));
    r.append(" | ");
    r.append(icon(results.build_pass));
    r.append(" | ");
    r.append(icon(results.test_pass));
    r.append(" | ");
    r.append(icon(results.all_passed()));
    r.append(" | ");
    r.append(duration);
    r.append(" |\n");
    r
}

/// The rule that frames the header of an errors entry.
pub const ERRORS_RULE: &'static str = "========================================";

/// One entry of the errors file: a framed header with date and version,
/// then the collected error output.
pub open spec fn errors_entry_spec(date: Seq<char>, version: Seq<char>, err_log: Seq<char>) -> Seq<
    char,
> {
    ERRORS_RULE@ + "\nDATE: "@ + date + " | VERSION: "@ + version + "\n"@ + ERRORS_RULE@ + "\n"@
        + err_log + "\n"@
}

/// Builds the errors-file entry of a failed run.
pub fn errors_entry(date: &str, version: &str, err_log: &str) -> (r: String)
    ensures
        r@ == errors_entry_spec(date@, version@, err_log@),
{
    let mut r = ERRORS_RULE.to_owned();
    r.append("\nDATE: ");
    r.append(date);
    r.append(" | VERSION: ");
    r.append(version);
    r.append("\n");
    r.append(ERRORS_RULE);
    r.append("\n");
    r.append(err_log);
    r.append("\n");
    r
}

/// The message of a run in which every check passed.
pub const SUCCESS_MESSAGE: &'static str = "All checks passed. Log written to tools/cargo-qc/.qc_history.md";

/// The final line of a successful run.
pub open spec fn success_line_spec(no_color: bool) -> Seq<char> {
    log_line_spec(
        if no_color {
            SUCCESS_MESSAGE@
        } else {
            bold_spec(green_spec(SUCCESS_MESSAGE@))
        },
        no_color,
    )
}

/// Builds the final line of a successful run: the success message, bold green
/// when colours are on.
pub fn log_success(no_color: bool) -> (r: String)
    ensures
        r@ == success_line_spec(no_color),
{
    if no_color {
        log_line(SUCCESS_MESSAGE, no_color)
    } else {
        let green = paint_green(SUCCESS_MESSAGE);
        let message = paint_bold(green.as_str());
        log_line(message.as_str(), no_color)
    }
}

} // verus!
