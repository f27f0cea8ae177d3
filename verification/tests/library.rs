use cargo_qc::cli::{parse_args, CliCommand};
use cargo_qc::config::{
    answer_hint, classify_answer, gitignore_action, pkgid_version, prompt_follow_up, prompt_text,
    Answer, GitignoreAction, ProjectContext, PromptFollowUp, QcOptions, GITIGNORE_ENTRY,
};
use cargo_qc::error::QcError;
use cargo_qc::history::{
    current_date_text, errors_entry, format_timestamp, history_row, local_or_utc, log_success,
    Timestamp,
    ERRORS_LOG_PATH, HISTORY_HEADER,
};
use cargo_qc::pipeline::Pipeline;
use cargo_qc::runner::{
    check_passed, conclude_check, planned_checks, record_failure_text, split_lines, strip_ansi,
    truncate_for_term, CheckKind, CheckResults, CommandResult, ProcessOutput,
};
use cargo_qc::spinner::{finish_line, frame, frame_line, start_line};
use cargo_qc::telemetry::{curl_args, curl_missing_warning, payload};
use cargo_qc::text::{
    after_last, contains_text, decimal_chars, format_zero_padded, same_text, trim, white_space,
};
use cargo_qc::{
    directory_line, icon, log_check, log_error, log_line, log_warning, pad_right, project_line,
    run_outcome, slow_notice, title_line,
};
use owo_colors::OwoColorize;
use std::path::PathBuf;

fn strings(list: &[&str]) -> Vec<String> {
    list.iter().map(|s| s.to_string()).collect()
}

// ---------- text ----------

#[test]
fn white_space_matches_std() {
    for code in 0u32..=0x10FFFF {
        if let Some(c) = char::from_u32(code) {
            assert_eq!(white_space(c), c.is_whitespace(), "U+{:04X}", code);
        }
    }
}

#[test]
fn trim_matches_std() {
    for s in [
        "",
        "   ",
        "  0.6.6\n",
        "\t\u{a0}x y\u{3000}\r\n",
        "abc",
        "\u{2028}mid dle\u{85}",
        " \n ",
    ] {
        assert_eq!(trim(s), s.trim());
    }
}

#[test]
fn after_last_finds_last_delimiter() {
    assert_eq!(after_last("a@b@c", '@').as_deref(), Some("c"));
    assert_eq!(after_last("a@", '@').as_deref(), Some(""));
    assert_eq!(after_last("abc", '@'), None);
    assert_eq!(after_last("", '#'), None);
}

#[test]
fn contains_text_cases() {
    assert!(contains_text("target/\ntools/cargo-qc/\n", "tools/cargo-qc"));
    assert!(contains_text("abc", ""));
    assert!(!contains_text("tools/cargo", "tools/cargo-qc"));
    assert!(!contains_text("", "x"));
    assert!(contains_text("xxtools/cargo-qcxx", "tools/cargo-qc"));
}

#[test]
fn same_text_cases() {
    assert!(same_text("--ci", "--ci"));
    assert!(!same_text("--ci", "--c"));
    assert!(!same_text("ab", "ba"));
    assert!(same_text("", ""));
}

#[test]
fn zero_padding_matches_format() {
    for (n, w) in [
        (-5i64, 4usize),
        (2026, 4),
        (7, 2),
        (123, 2),
        (0, 2),
        (0, 0),
        (-9999, 4),
        (i64::MIN, 4),
        (i64::MAX, 1),
        (-1, 0),
    ] {
        assert_eq!(format_zero_padded(n, w), format!("{:0w$}", n, w = w), "{} {}", n, w);
    }
    let digits: String = decimal_chars(1_234_567_890).into_iter().collect();
    assert_eq!(digits, "1234567890");
}

// ---------- styling and log lines ----------

#[test]
fn log_line_plain_and_colored() {
    assert_eq!(log_line("hello", true), "[cargo-qc] hello");
    assert_eq!(log_line("hello", false), format!("{} hello", "[cargo-qc]".dimmed()));
    assert_eq!(log_line("hello", false), "\u{1b}[2m[cargo-qc]\u{1b}[0m hello");
}

#[test]
fn log_check_pads_label() {
    let label = "Running cargo fmt --check";
    assert_eq!(log_check(label, true, true), format!("[cargo-qc] {label:<34}✅"));
    assert_eq!(
        log_check(label, false, false),
        format!("{} {label:<34}❌", "[cargo-qc]".dimmed())
    );
    let long = "a label that is longer than thirty-four characters";
    assert_eq!(log_check(long, true, true), format!("[cargo-qc] {long}✅"));
}

#[test]
fn log_error_and_warning_lines() {
    assert_eq!(log_error("boom", true), "error: boom");
    assert_eq!(log_error("boom", false), format!("{} boom", "error:".red().bold()));
    assert_eq!(log_warning("careful", true), "warning: careful");
    assert_eq!(log_warning("careful", false), format!("{} careful", "warning:".yellow().bold()));
}

#[test]
fn colored_lines_strip_to_plain_lines() {
    // law: the coloured form without its escape sequences is the plain form
    for m in ["x", "", "Project: demo v1"] {
        assert_eq!(strip_ansi(&log_line(m, false)), log_line(m, true));
        assert_eq!(strip_ansi(&log_error(m, false)), log_error(m, true));
        assert_eq!(strip_ansi(&log_warning(m, false)), log_warning(m, true));
        assert_eq!(strip_ansi(&log_check(m, true, false)), log_check(m, true, true));
    }
    assert_eq!(strip_ansi(&log_success(false)), log_success(true));
    for k in [CheckKind::Fmt, CheckKind::Clippy, CheckKind::Build, CheckKind::Test] {
        assert_eq!(strip_ansi(&k.hint_line(false)), k.hint_line(true));
    }
    assert!(!log_success(true).contains('\u{1b}'));
    assert_eq!(strip_ansi(&title_line(false)), title_line(true));
    assert_eq!(strip_ansi(&project_line("demo", "1.0.0", false)), project_line("demo", "1.0.0", true));
    assert_eq!(strip_ansi(&slow_notice(false)), slow_notice(true));
    assert_eq!(strip_ansi(&prompt_text("Add?", false)), prompt_text("Add?", true));
    assert_eq!(strip_ansi(&answer_hint(false)), answer_hint(true));
    assert_eq!(strip_ansi(&curl_missing_warning(false)), curl_missing_warning(true));
    for tick in 0..12 {
        assert_eq!(strip_ansi(&frame_line("m", tick, false)), frame_line("m", tick, true));
    }
    assert_eq!(strip_ansi(&start_line("m", false)), start_line("m", true));
    assert_eq!(strip_ansi(&finish_line("m", false, false, false)), finish_line("m", false, false, true));
}

#[test]
fn pad_and_icon() {
    assert_eq!(pad_right("ab", 4), "ab  ");
    assert_eq!(pad_right("abcdef", 4), "abcdef");
    assert_eq!(pad_right("é", 3), "é  ");
    assert_eq!(icon(true), "✅");
    assert_eq!(icon(false), "❌");
}

#[test]
fn banner_lines() {
    assert_eq!(title_line(true), "[cargo-qc] Local Quality Control");
    assert_eq!(
        title_line(false),
        format!("{} {}", "[cargo-qc]".dimmed(), "Local Quality Control".bold())
    );
    assert_eq!(project_line("demo", "0.1.0", true), "[cargo-qc] Project: demo v0.1.0");
    assert_eq!(
        project_line("demo", "0.1.0", false),
        format!("{} Project: {} v{}", "[cargo-qc]".dimmed(), "demo".bold(), "0.1.0".cyan())
    );
    assert_eq!(directory_line("/tmp/x", true), "[cargo-qc] Directory: /tmp/x");
    assert_eq!(
        slow_notice(true),
        "\n[cargo-qc] Note: The process is taking longer than expected (15s). Please be patient..."
    );
    assert_eq!(
        slow_notice(false),
        format!(
            "\n{} Note: The process is taking longer than expected (15s). Please be patient...",
            "[cargo-qc]".dimmed()
        )
    );
}

// ---------- escape stripping and truncation ----------

#[test]
fn strip_ansi_removes_sequences() {
    assert_eq!(strip_ansi("\u{1b}[31mred\u{1b}[0m text"), "red text");
    assert_eq!(strip_ansi("plain"), "plain");
    assert_eq!(strip_ansi("\u{1b}[1;32mok\u{1b}[0m\n"), "ok\n");
    assert_eq!(strip_ansi("unterminated \u{1b}[12"), "unterminated ");
    assert_eq!(strip_ansi(""), "");
}

#[test]
fn strip_ansi_is_idempotent() {
    for s in ["\u{1b}[2mx\u{1b}[0m", "a\u{1b}\u{1b}[mb", "\u{1b}[31", "plain"] {
        let once = strip_ansi(s);
        assert_eq!(strip_ansi(&once), once);
        assert!(!once.contains('\u{1b}'));
    }
}

#[test]
fn split_lines_matches_std() {
    for s in ["", "a", "a\n", "a\nb", "a\r\nb\r\n", "\n\n", "a\rb\n", "x\r", "\r\n"] {
        let mine: Vec<String> = split_lines(s).into_iter().map(|l| l.into_iter().collect()).collect();
        let std: Vec<String> = s.lines().map(|l| l.to_string()).collect();
        assert_eq!(mine, std, "{:?}", s);
    }
}

#[test]
fn truncate_keeps_short_output() {
    let fifteen: String = (1..=15).map(|i| format!("line {i}\n")).collect();
    assert_eq!(truncate_for_term(&fifteen), fifteen);
    assert_eq!(truncate_for_term(""), "");
}

#[test]
fn terminal_report_is_plain() {
    let colored: String = (1..=20).map(|i| format!("\u{1b}[31mline {i}\u{1b}[0m\n")).collect();
    let shown = truncate_for_term(&strip_ansi(&colored));
    assert!(!shown.contains('\u{1b}'));
    assert!(shown.starts_with("line 1\nline 2\n"));
    assert_eq!(cargo_qc::Options::default().skip_fmt, false);
}

#[test]
fn truncate_cuts_long_output() {
    let sixteen: String = (1..=16).map(|i| format!("line {i}\r\n")).collect();
    let expected: Vec<String> = (1..=15).map(|i| format!("line {i}")).collect();
    let expected =
        format!("{}\n... (output truncated, see logs for full details)", expected.join("\n"));
    assert_eq!(truncate_for_term(&sixteen), expected);
}

// ---------- checks ----------

#[test]
fn cargo_arguments() {
    assert_eq!(CheckKind::Fmt.cargo_args(false), vec!["fmt", "--", "--check"]);
    assert_eq!(CheckKind::Clippy.cargo_args(false), vec!["clippy", "--", "-D", "warnings"]);
    assert_eq!(
        CheckKind::Clippy.cargo_args(true),
        vec![
            "clippy",
            "--",
            "-D",
            "warnings",
            "-D",
            "clippy::cognitive_complexity",
            "-D",
            "clippy::too_many_arguments",
            "-D",
            "clippy::type_complexity"
        ]
    );
    assert_eq!(CheckKind::Build.cargo_args(true), vec!["build"]);
    assert_eq!(CheckKind::Test.cargo_args(true), vec!["test"]);
}

#[test]
fn check_texts() {
    assert_eq!(CheckKind::Fmt.spinner_message(), "Running cargo fmt --check");
    assert_eq!(CheckKind::Test.spinner_message(), "Running cargo test");
    assert_eq!(CheckKind::Clippy.error_header(), "--- CLIPPY ERROR ---\n");
    assert_eq!(CheckKind::Build.hint(), "hint: fix compiler errors above.");
    assert_eq!(
        CheckKind::Fmt.hint_line(false),
        format!("{}", "hint: run 'cargo fmt' to automatically fix formatting issues.".yellow())
    );
}

#[test]
fn results_count_failures() {
    let mut r = CheckResults::new();
    assert!(r.all_passed());
    assert_eq!(r.failed_count(), 0);
    r.record(CheckKind::Clippy, false);
    r.record(CheckKind::Test, false);
    assert!(!r.all_passed());
    assert_eq!(r.failed_count(), 2);
    r.record(CheckKind::Test, true);
    assert_eq!(r.failed_count(), 1);
}

#[test]
fn planned_checks_follow_skips() {
    let mut opts = QcOptions::default();
    assert_eq!(
        planned_checks(&opts),
        vec![CheckKind::Fmt, CheckKind::Clippy, CheckKind::Build, CheckKind::Test]
    );
    opts.skip_clippy = true;
    opts.skip_test = true;
    assert_eq!(planned_checks(&opts), vec![CheckKind::Fmt, CheckKind::Build]);
}

#[test]
fn check_passed_needs_a_successful_run() {
    assert!(!check_passed(&CommandResult::NotStarted("no cargo".to_string())));
    let ok = ProcessOutput { success: true, stdout: vec![], stderr: vec![] };
    assert!(check_passed(&CommandResult::Finished(ok)));
    let bad = ProcessOutput { success: false, stdout: vec![], stderr: vec![] };
    assert!(!check_passed(&CommandResult::Finished(bad)));
}

#[test]
fn failure_is_logged_in_full() {
    let mut log = String::from("before\n");
    let report =
        record_failure_text(CheckKind::Fmt, "\u{1b}[1mout\u{1b}[0m", "err\n", &mut log, true);
    assert_eq!(log, "before\n--- FMT ERROR ---\nouterr\n\n");
    assert_eq!(report.terminal, "err\n");
    assert_eq!(
        report.hint.as_deref(),
        Some("hint: run 'cargo fmt' to automatically fix formatting issues.")
    );
}

#[test]
fn conclude_check_decodes_output() {
    let mut log = String::new();
    let out = ProcessOutput {
        success: false,
        stdout: b"ok \xff".to_vec(),
        stderr: "é\n".as_bytes().to_vec(),
    };
    let report =
        conclude_check(CheckKind::Build, &CommandResult::Finished(out), &mut log, true).unwrap();
    assert_eq!(log, "--- BUILD ERROR ---\nok \u{fffd}é\n\n");
    assert_eq!(report.terminal, "é\n");
    assert_eq!(report.hint.as_deref(), Some("hint: fix compiler errors above."));

    let mut untouched = String::from("x");
    let ok = ProcessOutput { success: true, stdout: b"a".to_vec(), stderr: b"b".to_vec() };
    assert!(conclude_check(CheckKind::Test, &CommandResult::Finished(ok), &mut untouched, true)
        .is_none());
    assert_eq!(untouched, "x");
}

#[test]
fn launch_failure_is_logged() {
    let mut log = String::from("x");
    let report = conclude_check(
        CheckKind::Clippy,
        &CommandResult::NotStarted("No such file or directory (os error 2)".to_string()),
        &mut log,
        false,
    )
    .unwrap();
    assert_eq!(
        log,
        "x--- CLIPPY ERROR ---\nfailed to run cargo clippy: No such file or directory (os error 2)\n"
    );
    assert_eq!(
        report.terminal,
        "failed to run cargo clippy: No such file or directory (os error 2)"
    );
    assert!(report.hint.is_none());
    assert_eq!(
        CheckKind::Test.launch_error("gone".to_string()).message(),
        "failed to run cargo test: gone"
    );
}

// ---------- the run ----------

#[test]
fn pipeline_runs_planned_checks_in_order() {
    let mut opts = QcOptions::default();
    opts.skip_clippy = true;
    let mut p = Pipeline::new(&opts);
    let mut seen = vec![];
    let mut passes = vec![false, true, true].into_iter();
    while let Some(k) = p.next_check() {
        seen.push(k);
        p.record(passes.next().unwrap());
    }
    assert_eq!(seen, vec![CheckKind::Fmt, CheckKind::Build, CheckKind::Test]);
    let r = p.results();
    assert!(!r.fmt_pass && r.clippy_pass && r.build_pass && r.test_pass);
    match p.outcome() {
        Err(QcError::ChecksFailed { failed_count, log_path }) => {
            assert_eq!(failed_count, 1);
            assert_eq!(log_path, ERRORS_LOG_PATH);
        }
        other => panic!("unexpected {:?}", other),
    }
}

#[test]
fn skipped_check_counts_as_passed() {
    let mut opts = QcOptions::default();
    opts.skip_fmt = true;
    let mut p = Pipeline::new(&opts);
    while p.next_check().is_some() {
        p.record(true);
    }
    assert!(p.results().fmt_pass);
    assert!(p.outcome().is_ok());
}

#[test]
fn run_outcome_counts() {
    let r = CheckResults { fmt_pass: false, clippy_pass: false, build_pass: true, test_pass: false };
    match run_outcome(&r) {
        Err(e) => {
            assert_eq!(e.message(), "3 check(s) failed. See tools/cargo-qc/.qc_errors.log for details.")
        }
        Ok(()) => panic!("should fail"),
    }
    assert!(run_outcome(&CheckResults::new()).is_ok());
}

// ---------- configuration ----------

#[test]
fn pkgid_formats() {
    assert_eq!(
        pkgid_version("path+file:///home/u/cargo-qc#cargo-qc@0.6.6\n").as_deref(),
        Some("0.6.6")
    );
    assert_eq!(pkgid_version("https://github.com/x/y#0.1.0\n").as_deref(), Some("0.1.0"));
    assert_eq!(pkgid_version("registry+https://x/y#name@ 1.2.3 ").as_deref(), Some("1.2.3"));
    assert_eq!(pkgid_version("no version here"), None);
    assert_eq!(pkgid_version("path+file:///home/a@b/proj#0.1.0\n").as_deref(), Some("0.1.0"));
    assert_eq!(
        pkgid_version("path+file:///home/a@b/proj#proj@0.2.0\n").as_deref(),
        Some("0.2.0")
    );
    assert_eq!(pkgid_version("name@3.0.0").as_deref(), Some("3.0.0"));
}

#[test]
fn project_context_fallbacks() {
    let ctx = ProjectContext::from_parts(
        PathBuf::from("/w/demo"),
        Some("demo".to_string()),
        Some(b"path+file:///w/demo#demo@2.0.1\n".to_vec()),
        PathBuf::from("/w/demo/tools/cargo-qc"),
    );
    assert_eq!(ctx.project_name, "demo");
    assert_eq!(ctx.version, "2.0.1");
    assert_eq!(ctx.log_dir, PathBuf::from("/w/demo/tools/cargo-qc"));
    let ctx = ProjectContext::from_parts(PathBuf::from("/"), None, None, PathBuf::from("/t"));
    assert_eq!(ctx.project_name, "project");
    assert_eq!(ctx.version, "unknown");
    let ctx = ProjectContext::from_parts(
        PathBuf::from("/"),
        None,
        Some(b"garbage".to_vec()),
        PathBuf::from("/t"),
    );
    assert_eq!(ctx.version, "unknown");
}

#[test]
fn answers() {
    for yes in ["\n", " \n", "y\n", "Y\r\n", "", "y"] {
        assert_eq!(classify_answer(yes), Answer::Yes, "{:?}", yes);
    }
    for no in ["n\n", "N\r\n", "N"] {
        assert_eq!(classify_answer(no), Answer::No, "{:?}", no);
    }
    for unclear in ["yes\n", "  \n", "x", "n n\n", " y"] {
        assert_eq!(classify_answer(unclear), Answer::Unclear, "{:?}", unclear);
    }
}

#[test]
fn answer_ignores_line_end() {
    for t in ["y", "n", "", "maybe"] {
        assert_eq!(classify_answer(&format!("{t}\n")), classify_answer(t));
        assert_eq!(classify_answer(&format!("{t}\r")), classify_answer(t));
    }
}

#[test]
fn prompt_lines() {
    assert_eq!(prompt_text("Add it?", true), "[cargo-qc] Add it? [Y/n]: ");
    assert_eq!(prompt_text("Add it?", false), format!("{} Add it? [Y/n]: ", "[cargo-qc]".dimmed()));
    assert_eq!(answer_hint(true), "hint: Please enter Y (yes) or N (no).");
    assert_eq!(answer_hint(false), format!("{} Please enter Y (yes) or N (no).", "hint:".yellow()));
}

#[test]
fn gitignore_decisions() {
    assert_eq!(gitignore_action(true, None, false), GitignoreAction::Nothing);
    assert_eq!(gitignore_action(false, Some("target\ntools/cargo-qc/\n"), false), GitignoreAction::Nothing);
    assert_eq!(gitignore_action(false, Some("target\n"), false), GitignoreAction::Ask);
    assert_eq!(gitignore_action(false, None, false), GitignoreAction::Ask);
    assert_eq!(gitignore_action(false, Some("target\n"), true), GitignoreAction::AddEntry);
}

#[test]
fn prompt_follow_ups() {
    assert!(matches!(prompt_follow_up(Ok(true), true), PromptFollowUp::AddEntry));
    assert!(matches!(prompt_follow_up(Ok(false), true), PromptFollowUp::RememberRefusal));
    match prompt_follow_up(Err("EOF reached while reading stdin".to_string()), true) {
        PromptFollowUp::SkipWithWarning(line) => assert_eq!(
            line,
            "warning: Failed to read stdin: EOF reached while reading stdin. Skipping gitignore prompt."
        ),
        other => panic!("unexpected {:?}", other),
    }
}

#[test]
fn gitignore_entry_settles_the_question() {
    let content = format!("target\n{}", GITIGNORE_ENTRY);
    assert_eq!(gitignore_action(false, Some(&content), false), GitignoreAction::Nothing);
    assert_eq!(gitignore_action(false, Some(GITIGNORE_ENTRY), true), GitignoreAction::Nothing);
}

#[test]
fn options_from_environment() {
    let o = QcOptions::default();
    assert!(!o.no_color && !o.ci && !o.strict && o.telemetry.is_none());
    assert!(!o.clone().with_no_color_env(false).no_color);
    assert!(o.clone().with_no_color_env(true).no_color);
    assert!(o.spinners_disabled(false));
    assert!(!o.spinners_disabled(true));
    let mut ci = QcOptions::default();
    ci.ci = true;
    assert!(ci.spinners_disabled(true));
}

// ---------- command line laws ----------

fn parsed_options(list: &[&str]) -> QcOptions {
    match parse_args(&strings(list)) {
        CliCommand::Run(o) => o,
        other => panic!("unexpected {:?}", other),
    }
}

#[test]
fn switch_order_and_repeats_do_not_matter() {
    let a = parsed_options(&["--ci", "--strict", "--no-color"]);
    let b = parsed_options(&["--no-color", "--strict", "--strict", "--ci"]);
    assert_eq!(format!("{:?}", a), format!("{:?}", b));
}

#[test]
fn cargo_subcommand_name_is_skipped() {
    let a = parsed_options(&["qc", "--skip-fmt"]);
    let b = parsed_options(&["--skip-fmt"]);
    assert_eq!(format!("{:?}", a), format!("{:?}", b));
    assert!(matches!(parse_args(&strings(&["qc", "qc"])), CliCommand::UnexpectedArgument(_)));
    assert!(matches!(parse_args(&strings(&["--ci", "qc"])), CliCommand::UnexpectedArgument(_)));
}

#[test]
fn help_wins_over_later_errors() {
    assert!(matches!(parse_args(&strings(&["-h", "--bogus"])), CliCommand::Help));
    assert!(matches!(parse_args(&strings(&["-V", "--telemetry"])), CliCommand::Version));
    assert!(matches!(
        parse_args(&strings(&["--bogus", "-h"])),
        CliCommand::UnexpectedArgument(_)
    ));
}

#[test]
fn telemetry_takes_next_argument() {
    let o = parsed_options(&["--telemetry", "--ci"]);
    assert_eq!(o.telemetry.as_deref(), Some("--ci"));
    assert!(!o.ci);
    assert!(matches!(parse_args(&strings(&[])), CliCommand::Run(_)));
}

// ---------- errors ----------

#[test]
fn error_messages() {
    let io = "denied".to_string();
    let cases = vec![
        (QcError::VersionDetection(io.clone()), "could not detect project version: denied"),
        (QcError::VersionParse, "failed to parse cargo pkgid output"),
        (QcError::LogDirectoryCreation(io.clone()), "failed to create log directory: denied"),
        (QcError::FmtCheck(io.clone()), "failed to run cargo fmt: denied"),
        (QcError::ClippyCheck(io.clone()), "failed to run cargo clippy: denied"),
        (QcError::BuildCheck(io.clone()), "failed to run cargo build: denied"),
        (QcError::TestCheck(io.clone()), "failed to run cargo test: denied"),
        (QcError::HistoryFile(io.clone()), "failed to open history file: denied"),
        (QcError::ErrorsFile(io.clone()), "failed to open errors file: denied"),
        (
            QcError::ChecksFailed { failed_count: 12, log_path: "x.log".to_string() },
            "12 check(s) failed. See x.log for details.",
        ),
    ];
    for (e, text) in cases {
        assert_eq!(e.message(), text);
        match &e {
            QcError::VersionParse | QcError::ChecksFailed { .. } => assert!(e.source().is_none()),
            _ => assert_eq!(e.source().map(|s| s.as_str()), Some("denied")),
        }
    }
}

// ---------- history ----------

#[test]
fn timestamp_format() {
    let t = Timestamp { year: 2026, month: 7, day: 24, hour: 1, minute: 5 };
    assert_eq!(format_timestamp(&t), "2026-07-24 01:05");
    let t = Timestamp { year: 33, month: 12, day: 1, hour: 23, minute: 59 };
    assert_eq!(format_timestamp(&t), "0033-12-01 23:59");
    let t = Timestamp { year: -7, month: 1, day: 1, hour: 0, minute: 0 };
    assert_eq!(format_timestamp(&t), "-007-01-01 00:00");
}

#[test]
fn local_time_preferred_over_utc() {
    let local = Timestamp { year: 2026, month: 7, day: 24, hour: 3, minute: 0 };
    let utc = Timestamp { year: 2026, month: 7, day: 24, hour: 1, minute: 0 };
    assert_eq!(local_or_utc(Some(local), utc).hour, 3);
    assert_eq!(local_or_utc(None, utc).hour, 1);
}

#[test]
fn current_date_has_calendar_shape() {
    let d = current_date_text();
    assert_eq!(d.chars().count(), 16, "{d}");
    let b: Vec<char> = d.chars().collect();
    assert_eq!((b[4], b[7], b[10], b[13]), ('-', '-', ' ', ':'));
    let month: u32 = d[5..7].parse().unwrap();
    let hour: u32 = d[11..13].parse().unwrap();
    assert!((1..=12).contains(&month) && hour < 24);
}

#[test]
fn history_texts() {
    assert_eq!(
        HISTORY_HEADER,
        "# Cargo QC History\n\n| Date | Version | Fmt | Clippy | Build | Test | Overall | Duration |\n|---|---|---|---|---|---|---|---|\n"
    );
    let r = CheckResults { fmt_pass: true, clippy_pass: false, build_pass: true, test_pass: true };
    assert_eq!(
        history_row("2026-07-24 01:22", "0.1.0", &r, "3.4s"),
        "| 2026-07-24 01:22 | `0.1.0` | ✅ | ❌ | ✅ | ✅ | ❌ | 3.4s |\n"
    );
    assert_eq!(
        history_row("d", "v", &CheckResults::new(), "0.0s"),
        "| d | `v` | ✅ | ✅ | ✅ | ✅ | ✅ | 0.0s |\n"
    );
    assert_eq!(
        errors_entry("2026-07-24 01:22", "0.1.0", "--- FMT ERROR ---\n..."),
        "========================================\nDATE: 2026-07-24 01:22 | VERSION: 0.1.0\n========================================\n--- FMT ERROR ---\n...\n"
    );
    assert_eq!(
        log_success(true),
        "[cargo-qc] All checks passed. Log written to tools/cargo-qc/.qc_history.md"
    );
    assert_eq!(
        log_success(false),
        format!(
            "{} {}",
            "[cargo-qc]".dimmed(),
            "All checks passed. Log written to tools/cargo-qc/.qc_history.md".green().bold()
        )
    );
}

// ---------- spinner ----------

#[test]
fn spinner_frames_cycle() {
    let frames = ["⠋", "⠙", "⠹", "⠸", "⠼", "⠴", "⠦", "⠧", "⠇", "⠏"];
    for i in 0..25 {
        assert_eq!(frame(i), frames[i % 10]);
    }
}

#[test]
fn spinner_lines() {
    assert_eq!(start_line("Running cargo build", true), "[cargo-qc] Running cargo build ... ");
    assert_eq!(frame_line("Running cargo build", 3, true), "\r[cargo-qc] ⠸ Running cargo build ... ");
    assert_eq!(
        frame_line("Running cargo build", 0, false),
        format!("\r{} {} Running cargo build ... ", "[cargo-qc]".dimmed(), "⠋".cyan())
    );
    assert_eq!(finish_line("Running cargo build", true, true, true), "✅");
    // 34 - (19 + 14) = 1 space
    assert_eq!(
        finish_line("Running cargo build", false, false, true),
        "\r[cargo-qc] Running cargo build ... ❌"
            .replace("... ❌", "...  ❌")
    );
    // 25 bytes: no padding
    assert_eq!(
        finish_line("Running cargo fmt --check", true, false, true),
        "\r[cargo-qc] Running cargo fmt --check ... ✅"
    );
    // the padding counts bytes: "é" takes two
    assert_eq!(finish_line("é", true, false, true), format!("\r[cargo-qc] é ... {}✅", " ".repeat(18)));
}

// ---------- telemetry ----------

#[test]
fn telemetry_payload() {
    let r = CheckResults { fmt_pass: true, clippy_pass: true, build_pass: false, test_pass: true };
    assert_eq!(
        payload("0.6.6", &r, "1.5"),
        r#"{"version":"0.6.6","fmt_pass":true,"clippy_pass":true,"build_pass":false,"test_pass":true,"all_passed":false,"duration_sec":1.5}"#
    );
    assert_eq!(
        curl_args("http://h/x", "{}"),
        strings(&[
            "-X",
            "POST",
            "-H",
            "Content-Type: application/json",
            "-d",
            "{}",
            "--silent",
            "--max-time",
            "3",
            "http://h/x"
        ])
    );
    assert_eq!(
        curl_missing_warning(true),
        "warning: Telemetry was requested, but 'curl' is not installed or not in PATH."
    );
    assert_eq!(
        curl_missing_warning(false),
        format!(
            "{} Telemetry was requested, but '{}' is not installed or not in PATH.",
            "warning:".yellow().bold(),
            "curl".bold()
        )
    );
}
