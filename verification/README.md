# cargo-qc

`cargo qc` runs `cargo fmt -- --check`, `cargo clippy -- -D warnings`,
`cargo build` and `cargo test` one after the other, records each run in
`tools/cargo-qc/.qc_history.md`, and saves the output of failed checks to
`tools/cargo-qc/.qc_errors.log`.

Layout:

- `src/` is the library, verified with Verus: the command line, the order
  of a run and its tally, the cleaning and shortening of a check's output,
  the version read from `cargo pkgid`, the `.gitignore` decision, the
  answers to the prompt, and the exact text of every line and file entry,
  coloured or plain. `src/laws.rs` proves properties that span these
  functions (for instance that a coloured line without its escape
  sequences is the plain line).
- `app/` is the program: it reads the arguments and the environment, runs
  the commands, animates the spinner, and writes the files, using the
  library for every decision and text.
- `tests/` exercises the library on concrete values.
