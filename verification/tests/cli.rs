use cargo_qc::cli::{
    early_exit_code, missing_value_message, parse_args, unexpected_argument_message, version_line,
    CliCommand, HELP,
};
use cargo_qc::history::log_success;
use cargo_qc::pipeline::Pipeline;

fn args(list: &[&str]) -> Vec<String> {
    // Every scenario runs in CI mode, as an automated run would.
    let mut v = vec!["--ci".to_string()];
    v.extend(list.iter().map(|s| s.to_string()));
    v
}

#[test]
fn test_help() {
    let cmd = parse_args(&args(&["--help"]));
    assert!(matches!(cmd, CliCommand::Help));
    assert_eq!(early_exit_code(&cmd), Some(0));
    assert!(HELP.contains("A custom cargo command for quality control"));
}

#[test]
fn test_version() {
    let cmd = parse_args(&args(&["--version"]));
    assert!(matches!(cmd, CliCommand::Version));
    assert_eq!(early_exit_code(&cmd), Some(0));
    assert!(version_line().contains("cargo-qc 0.6.6"));
}

#[test]
fn test_unknown_flag() {
    let cmd = parse_args(&args(&["--some-unknown-flag"]));
    match &cmd {
        CliCommand::UnexpectedArgument(a) => {
            assert_eq!(a, "--some-unknown-flag");
            assert!(unexpected_argument_message(a)
                .contains("error: Found argument '--some-unknown-flag' which wasn't expected"));
        }
        other => panic!("unexpected {:?}", other),
    }
    assert_eq!(early_exit_code(&cmd), Some(1));
}

#[test]
fn test_strict_mode() {
    let cmd = parse_args(&args(&["--strict", "--version"]));
    assert!(matches!(cmd, CliCommand::Version));
    assert_eq!(early_exit_code(&cmd), Some(0));
}

fn run_to_end(cmd: CliCommand) -> (cargo_qc::config::QcOptions, Result<(), cargo_qc::error::QcError>) {
    match cmd {
        CliCommand::Run(opts) => {
            let p = Pipeline::new(&opts);
            assert!(p.next_check().is_none());
            let outcome = p.outcome();
            (opts, outcome)
        }
        other => panic!("expected a run, got {:?}", other),
    }
}

#[test]
fn test_all_skip_flags() {
    let cmd = parse_args(&args(&["--skip-fmt", "--skip-clippy", "--skip-build", "--skip-test"]));
    let (opts, outcome) = run_to_end(cmd);
    assert!(opts.skip_fmt && opts.skip_clippy && opts.skip_build && opts.skip_test && opts.ci);
    assert!(outcome.is_ok());
    assert!(log_success(opts.no_color).contains("All checks passed"));
}

#[test]
fn test_telemetry_missing_value() {
    let cmd = parse_args(&args(&["--telemetry"]));
    match &cmd {
        CliCommand::MissingValue(a) => {
            assert_eq!(a, "--telemetry");
            assert!(missing_value_message(a).contains(
                "error: The argument '--telemetry' requires a value but none was supplied"
            ));
        }
        other => panic!("unexpected {:?}", other),
    }
    assert_eq!(early_exit_code(&cmd), Some(1));
}

#[test]
fn test_telemetry_valid_parsing() {
    let cmd = parse_args(&args(&[
        "--skip-fmt",
        "--skip-clippy",
        "--skip-build",
        "--skip-test",
        "--telemetry",
        "http://localhost:9999/dummy-test-endpoint",
    ]));
    let (opts, outcome) = run_to_end(cmd);
    assert_eq!(opts.telemetry.as_deref(), Some("http://localhost:9999/dummy-test-endpoint"));
    assert!(outcome.is_ok());
}

#[test]
fn test_no_color_env_var() {
    let cmd = parse_args(&args(&["--skip-fmt", "--skip-clippy", "--skip-build", "--skip-test"]));
    let (opts, outcome) = run_to_end(cmd);
    let opts = opts.with_no_color_env(true);
    assert!(opts.no_color);
    assert!(outcome.is_ok());
    let line = log_success(opts.no_color);
    assert!(line.contains("All checks passed"));
    assert!(!line.contains('\u{1b}'));
}
