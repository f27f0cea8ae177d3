//! The telemetry report sent with `curl` at the end of a run.
use vstd::prelude::*;

use crate::runner::CheckResults;
use crate::style::{bold_spec, paint_bold};
use crate::{log_warning, log_warning_spec};

verus! {

/// `true` or `false`, as JSON writes a boolean.
pub open spec fn json_bool_spec(b: bool) -> Seq<char> {
    if b {
        "true"@
    } else {
        "false"@
    }
}

fn json_bool(b: bool) -> (r: &'static str)
    ensures
        r@ == json_bool_spec(b),
{
    if b {
        "true"
    } else {
        "false"
    }
}

/// The JSON object sent: the version, the four results, the overall result
/// and the duration in seconds (written by the caller with one decimal).
/// The version is written between quotes as it is.
pub open spec fn payload_spec(version: Seq<char>, results: CheckResults, duration_sec: Seq<char>) -> Seq<
    char,
> {
    "{\"version\":\""@ + version + "\",\"fmt_pass\":"@ + json_bool_spec(results.fmt_pass)
        + ",\"clippy_pass\":"@ + json_bool_spec(results.clippy_pass) + ",\"build_pass\":"@
        + json_bool_spec(results.build_pass) + ",\"test_pass\":"@ + json_bool_spec(
        results.test_pass,
    ) + ",\"all_passed\":"@ + json_bool_spec(results.all_passed_spec()) + ",\"duration_sec\":"@
        + duration_sec + "}"@
}

/// Builds the JSON report of a run.
pub fn payload(version: &str, results: &CheckResults, duration_sec: &str) -> (r: String)
    ensures
        r@ == payload_spec(version@, *results, duration_sec@),
{
    let mut r = "{\"version\":\"".to_owned();
    r.append(version);
    r.append("\",\"fmt_pass\":");
    r.append(json_bool(results.fmt_pass));
    r.append(",\"clippy_pass\":");
    r.append(json_bool(results.clippy_pass));
    r.append(",\"build_pass\":");
    r.append(json_bool(results.build_pass));
    r.append(",\"test_pass\":");
    r.append(json_bool(results.test_pass));
    r.append(",\"all_passed\":");
    r.append(json_bool(results.all_passed()));
    r.append(",\"duration_sec\":");
    r.append(duration_sec);
    r.append("}");
    r
}

/// The arguments given to `curl`: a silent POST of the JSON payload to the
/// URL, given up after three seconds.
pub open spec fn curl_args_spec(url: Seq<char>, payload: Seq<char>) -> Seq<Seq<char>> {
    seq![
        "-X"@,
        "POST"@,
        "-H"@,
        "Content-Type: application/json"@,
        "-d"@,
        payload,
        "--silent"@,
        "--max-time"@,
        "3"@,
        url,
    ]
}

/// Builds the arguments of the `curl` command.
pub fn curl_args(url: &str, payload: &str) -> (r: Vec<String>)
    ensures
        r@.map_values(|a: String| a@) == curl_args_spec(url@, payload@),
{
    let r = vec![
        "-X".to_owned(),
        "POST".to_owned(),
        "-H".to_owned(),
        "Content-Type: application/json".to_owned(),
        "-d".to_owned(),
        payload.to_owned(),
        "--silent".to_owned(),
        "--max-time".to_owned(),
        "3".to_owned(),
        url.to_owned(),
    ];
    assert(r@.map_values(|a: String| a@) =~= curl_args_spec(url@, payload@));
    r
}

/// The warning printed when telemetry was asked for but `curl` is missing.
pub open spec fn curl_missing_spec(no_color: bool) -> Seq<char> {
    log_warning_spec(
        "Telemetry was requested, but '"@ + (if no_color {
            "curl"@
        } else {
            bold_spec("curl"@)
        }) + "' is not installed or not in PATH."@,
        no_color,
    )
}

/// Builds the warning printed when `curl` is missing.
pub fn curl_missing_warning(no_color: bool) -> (r: String)
    ensures
        r@ == curl_missing_spec(no_color),
{
    let mut m = "Telemetry was requested, but '".to_owned();
    if no_color {
        m.append("curl");
    } else {
        let b = paint_bold("curl");
        m.append(b.as_str());
    }
    m.append("' is not installed or not in PATH.");
    log_warning(m.as_str(), no_color)
}

} // verus!
