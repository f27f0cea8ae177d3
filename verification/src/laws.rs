//! Properties that hold across the library's functions.
use vstd::prelude::*;

use crate::cli::{command_line_spec, parse_from, CliModel};
use crate::config::{
    answer_hint_spec, answer_spec, gitignore_action_spec, pkgid_version_spec, prompt_spec,
    trim_line_end, GitignoreAction, OptionsModel, GITIGNORE_ENTRY, GITIGNORE_MARKER,
};
use crate::history::{
    history_row_spec, success_line_spec, timestamp_text_spec, Timestamp, HISTORY_HEADER,
    SUCCESS_MESSAGE,
};
use crate::pipeline::ran_and_failed;
use crate::runner::{
    ansi_scan, ansi_step, is_ascii_letter, is_escape, join_spec, line_scan, line_step, lines_spec,
    planned_checks_spec, strip_ansi_spec, strip_cr, truncate_spec, CheckKind, CheckResults,
    TERMINAL_LINES,
};
use crate::spinner::{
    finish_line_spec, finish_padding_spec, frame_line_spec, frames_spec, start_line_spec,
    FRAME_COUNT,
};
use crate::style::{dimmed_spec, sgr, styled};
use crate::telemetry::{curl_missing_spec, json_bool_spec, payload_spec};
use crate::text::{after_last_spec, contains_spec, decimal, last_index_of, occurs_at, trim_spec};
use crate::{
    icon_spec, log_check_spec, log_error_spec, log_line_spec, log_warning_spec, pad_right_spec,
    project_line_spec, slow_notice_spec, title_line_spec, CHECK_LABEL_WIDTH, PREFIX, TITLE,
};

verus! {

/// No character of `s` is the escape character.
pub open spec fn escape_free(s: Seq<char>) -> bool {
    forall|i: int| 0 <= i < s.len() ==> !is_escape(#[trigger] s[i])
}

/// The escape-stripping scan of `s`, started from `st` rather than from the empty state.
pub open spec fn ansi_scan_from(st: (Seq<char>, bool), s: Seq<char>) -> (Seq<char>, bool)
    decreases s.len(),
{
    if s.len() == 0 {
        st
    } else {
        ansi_step(ansi_scan_from(st, s.drop_last()), s.last())
    }
}

proof fn lemma_scan_from_empty(s: Seq<char>)
    ensures
        ansi_scan_from((Seq::empty(), false), s) == ansi_scan(s),
    decreases s.len(),
{
    if s.len() > 0 {
        lemma_scan_from_empty(s.drop_last());
    }
}

proof fn lemma_scan_from_concat(st: (Seq<char>, bool), a: Seq<char>, b: Seq<char>)
    ensures
        ansi_scan_from(st, a + b) == ansi_scan_from(ansi_scan_from(st, a), b),
    decreases b.len(),
{
    if b.len() == 0 {
        assert(a + b == a);
    } else {
        lemma_scan_from_concat(st, a, b.drop_last());
        assert((a + b).drop_last() == a + b.drop_last());
        assert((a + b).last() == b.last());
    }
}

/// From a state outside any sequence, the scan keeps what came before and
/// appends what the scan of `b` alone would give.
proof fn lemma_scan_from_clean(out: Seq<char>, b: Seq<char>)
    ensures
        ansi_scan_from((out, false), b) == (out + ansi_scan(b).0, ansi_scan(b).1),
    decreases b.len(),
{
    if b.len() == 0 {
        assert(out + Seq::<char>::empty() == out);
    } else {
        lemma_scan_from_clean(out, b.drop_last());
        let inner = ansi_scan(b.drop_last());
        assert(out + inner.0.push(b.last()) == (out + inner.0).push(b.last()));
    }
}

/// Stripping text that follows text which ends outside an escape sequence.
pub proof fn lemma_strip_concat(a: Seq<char>, b: Seq<char>)
    requires
        !ansi_scan(a).1,
    ensures
        strip_ansi_spec(a + b) == strip_ansi_spec(a) + strip_ansi_spec(b),
        ansi_scan(a + b).1 == ansi_scan(b).1,
{
    lemma_scan_from_empty(a + b);
    lemma_scan_from_concat((Seq::empty(), false), a, b);
    lemma_scan_from_empty(a);
    lemma_scan_from_clean(ansi_scan(a).0, b);
}

/// Text without escape characters is left as it is, and the scan ends outside a sequence.
pub proof fn lemma_strip_escape_free(s: Seq<char>)
    requires
        escape_free(s),
    ensures
        strip_ansi_spec(s) == s,
        !ansi_scan(s).1,
    decreases s.len(),
{
    if s.len() > 0 {
        assert(escape_free(s.drop_last()));
        lemma_strip_escape_free(s.drop_last());
        assert(!is_escape(s[s.len() - 1]));
        assert(s.drop_last().push(s.last()) == s);
    }
}

/// The characters between `ESC [` and `m` of a style's control sequence.
pub open spec fn plain_code(code: Seq<char>) -> bool {
    forall|i: int| 0 <= i < code.len() ==> !is_escape(#[trigger] code[i]) && !is_ascii_letter(code[i])
}

proof fn lemma_scan_inside(code: Seq<char>)
    requires
        plain_code(code),
    ensures
        ansi_scan(seq!['\u{1b}', '['] + code) == (Seq::<char>::empty(), true),
    decreases code.len(),
{
    let p = seq!['\u{1b}', '['];
    if code.len() == 0 {
        assert(p + code == p);
        assert(p.drop_last() == seq!['\u{1b}']);
        assert(seq!['\u{1b}'].drop_last() == Seq::<char>::empty());
        assert(seq!['\u{1b}'].last() == '\u{1b}');
        assert(ansi_scan(Seq::<char>::empty()) == (Seq::<char>::empty(), false));
        assert(ansi_scan(seq!['\u{1b}']) == (Seq::<char>::empty(), true));
        assert(p.last() == '[');
        assert(ansi_scan(p) == (Seq::<char>::empty(), true));
    } else {
        assert(plain_code(code.drop_last()));
        lemma_scan_inside(code.drop_last());
        assert((p + code).drop_last() == p + code.drop_last());
        assert((p + code).last() == code[code.len() - 1]);
    }
}

/// A control sequence `ESC [ code m` is removed entirely.
pub proof fn lemma_strip_sgr(code: Seq<char>)
    requires
        plain_code(code),
    ensures
        strip_ansi_spec(sgr(code)) == Seq::<char>::empty(),
        !ansi_scan(sgr(code)).1,
{
    lemma_scan_inside(code);
    assert(sgr(code).drop_last() == seq!['\u{1b}', '['] + code);
    assert(sgr(code).last() == 'm');
}

/// A styled text loses the control sequences of its style.
pub proof fn lemma_strip_styled(on: Seq<char>, off: Seq<char>, text: Seq<char>)
    requires
        plain_code(on),
        plain_code(off),
        !ansi_scan(text).1,
    ensures
        strip_ansi_spec(styled(on, off, text)) == strip_ansi_spec(text),
        !ansi_scan(styled(on, off, text)).1,
{
    lemma_strip_sgr(on);
    lemma_strip_sgr(off);
    lemma_strip_concat(sgr(on), text);
    lemma_strip_concat(sgr(on) + text, sgr(off));
    assert(Seq::<char>::empty() + strip_ansi_spec(text) == strip_ansi_spec(text));
    assert(strip_ansi_spec(text) + Seq::<char>::empty() == strip_ansi_spec(text));
}

proof fn lemma_escape_free_concat(a: Seq<char>, b: Seq<char>)
    requires
        escape_free(a),
        escape_free(b),
    ensures
        escape_free(a + b),
{
    assert forall|i: int| 0 <= i < (a + b).len() implies !is_escape(#[trigger] (a + b)[i]) by {
        if i < a.len() {
            assert((a + b)[i] == a[i]);
        } else {
            assert((a + b)[i] == b[i - a.len()]);
        }
    }
}

/// A plain piece followed by `rest`: stripping leaves the piece and strips `rest`.
proof fn lemma_strip_plain_then(piece: Seq<char>, rest: Seq<char>)
    requires
        escape_free(piece),
    ensures
        strip_ansi_spec(piece + rest) == piece + strip_ansi_spec(rest),
        ansi_scan(piece + rest).1 == ansi_scan(rest).1,
{
    lemma_strip_escape_free(piece);
    lemma_strip_concat(piece, rest);
}

/// A styled piece of plain text followed by `rest`.
proof fn lemma_strip_styled_then(on: Seq<char>, off: Seq<char>, text: Seq<char>, rest: Seq<char>)
    requires
        plain_code(on),
        plain_code(off),
        escape_free(text),
    ensures
        strip_ansi_spec(styled(on, off, text) + rest) == text + strip_ansi_spec(rest),
        ansi_scan(styled(on, off, text) + rest).1 == ansi_scan(rest).1,
{
    lemma_strip_escape_free(text);
    lemma_strip_styled(on, off, text);
    lemma_strip_concat(styled(on, off, text), rest);
}

/// The prefix holds no escape character.
proof fn lemma_prefix_plain()
    ensures
        escape_free(PREFIX@),
{
    reveal_strlit("[cargo-qc]");
}

/// With colours off, a log line is exactly its coloured form with the
/// escape sequences removed, and holds no escape character of its own.
pub proof fn law_log_line_plain(message: Seq<char>)
    requires
        escape_free(message),
    ensures
        strip_ansi_spec(log_line_spec(message, false)) == log_line_spec(message, true),
        escape_free(log_line_spec(message, true)),
{
    lemma_prefix_plain();
    let rest = seq![' '] + message;
    assert(escape_free(seq![' ']));
    lemma_escape_free_concat(seq![' '], message);
    lemma_strip_escape_free(rest);
    lemma_strip_styled_then(seq!['2'], seq!['0'], PREFIX@, rest);
    assert(log_line_spec(message, false) == styled(seq!['2'], seq!['0'], PREFIX@) + rest);
    assert(log_line_spec(message, true) == PREFIX@ + rest);
    lemma_escape_free_concat(PREFIX@, rest);
}

/// A bold, coloured piece of plain text followed by `rest`.
proof fn lemma_strip_bold_colored_then(code: Seq<char>, text: Seq<char>, rest: Seq<char>)
    requires
        plain_code(code),
        escape_free(text),
    ensures
        strip_ansi_spec(styled(seq!['1'], seq!['0'], styled(code, seq!['3', '9'], text)) + rest)
            == text + strip_ansi_spec(rest),
{
    let inner = styled(code, seq!['3', '9'], text);
    lemma_strip_escape_free(text);
    lemma_strip_styled(code, seq!['3', '9'], text);
    lemma_strip_styled(seq!['1'], seq!['0'], inner);
    lemma_strip_concat(styled(seq!['1'], seq!['0'], inner), rest);
}

/// With colours off, an error line is its coloured form without escape
/// sequences, and holds no escape character of its own.
pub proof fn law_log_error_plain(message: Seq<char>)
    requires
        escape_free(message),
    ensures
        strip_ansi_spec(log_error_spec(message, false)) == log_error_spec(message, true),
        escape_free(log_error_spec(message, true)),
{
    reveal_strlit("error:");
    reveal_strlit("error: ");
    let rest = seq![' '] + message;
    lemma_escape_free_concat(seq![' '], message);
    lemma_strip_escape_free(rest);
    lemma_strip_bold_colored_then(seq!['3', '1'], "error:"@, rest);
    assert(log_error_spec(message, false) =~= styled(
        seq!['1'],
        seq!['0'],
        styled(seq!['3', '1'], seq!['3', '9'], "error:"@),
    ) + rest);
    assert("error: "@ == "error:"@ + seq![' ']);
    assert(log_error_spec(message, true) =~= "error:"@ + rest);
    lemma_escape_free_concat("error:"@, rest);
}

/// With colours off, a warning line is its coloured form without escape
/// sequences, and holds no escape character of its own.
pub proof fn law_log_warning_plain(message: Seq<char>)
    requires
        escape_free(message),
    ensures
        strip_ansi_spec(log_warning_spec(message, false)) == log_warning_spec(message, true),
        escape_free(log_warning_spec(message, true)),
{
    reveal_strlit("warning:");
    reveal_strlit("warning: ");
    let rest = seq![' '] + message;
    lemma_escape_free_concat(seq![' '], message);
    lemma_strip_escape_free(rest);
    lemma_strip_bold_colored_then(seq!['3', '3'], "warning:"@, rest);
    assert(log_warning_spec(message, false) =~= styled(
        seq!['1'],
        seq!['0'],
        styled(seq!['3', '3'], seq!['3', '9'], "warning:"@),
    ) + rest);
    assert("warning: "@ == "warning:"@ + seq![' ']);
    assert(log_warning_spec(message, true) =~= "warning:"@ + rest);
    lemma_escape_free_concat("warning:"@, rest);
}

proof fn lemma_icon_plain(passed: bool)
    ensures
        escape_free(icon_spec(passed)),
{
    reveal_strlit("✅");
    reveal_strlit("❌");
}

proof fn lemma_spaces_plain(n: nat)
    ensures
        escape_free(Seq::new(n, |k: int| ' ')),
{
}

/// With colours off, a check's line is its coloured form without escape
/// sequences, and holds no escape character of its own.
pub proof fn law_log_check_plain(label: Seq<char>, passed: bool)
    requires
        escape_free(label),
    ensures
        strip_ansi_spec(log_check_spec(label, passed, false)) == log_check_spec(label, passed, true),
        escape_free(log_check_spec(label, passed, true)),
{
    let padded = pad_right_spec(label, CHECK_LABEL_WIDTH as nat);
    if label.len() < CHECK_LABEL_WIDTH {
        lemma_spaces_plain((CHECK_LABEL_WIDTH - label.len()) as nat);
        lemma_escape_free_concat(label, Seq::new((CHECK_LABEL_WIDTH - label.len()) as nat, |k: int| ' '));
    }
    assert(escape_free(padded));
    lemma_icon_plain(passed);
    lemma_escape_free_concat(padded, icon_spec(passed));
    law_log_line_plain(padded + icon_spec(passed));
    assert(log_check_spec(label, passed, false) == log_line_spec(padded + icon_spec(passed), false));
    assert(log_check_spec(label, passed, true) == log_line_spec(padded + icon_spec(passed), true));
}

/// With colours off, the success line is its coloured form without escape
/// sequences, and holds no escape character of its own.
pub proof fn law_success_line_plain()
    ensures
        strip_ansi_spec(success_line_spec(false)) == success_line_spec(true),
        escape_free(success_line_spec(true)),
{
    reveal_strlit("[cargo-qc]");
    reveal_strlit("All checks passed. Log written to tools/cargo-qc/.qc_history.md");
    let m = SUCCESS_MESSAGE@;
    assert(escape_free(m));
    let colored = styled(seq!['1'], seq!['0'], styled(seq!['3', '2'], seq!['3', '9'], m));
    lemma_strip_escape_free(m);
    lemma_strip_styled(seq!['3', '2'], seq!['3', '9'], m);
    lemma_strip_styled(seq!['1'], seq!['0'], styled(seq!['3', '2'], seq!['3', '9'], m));
    let rest = seq![' '] + colored;
    lemma_strip_plain_then(seq![' '], colored);
    lemma_strip_styled_then(seq!['2'], seq!['0'], PREFIX@, rest);
    assert(success_line_spec(false) == styled(seq!['2'], seq!['0'], PREFIX@) + rest);
    law_log_line_plain(m);
    assert(strip_ansi_spec(success_line_spec(false)) =~= PREFIX@ + (seq![' '] + m));
}

/// With colours off, a check's hint is its coloured form without escape
/// sequences, and holds no escape character of its own.
pub proof fn law_hint_line_plain(kind: CheckKind)
    ensures
        strip_ansi_spec(kind.hint_line_spec(false)) == kind.hint_line_spec(true),
        escape_free(kind.hint_line_spec(true)),
{
    reveal_strlit("hint: run 'cargo fmt' to automatically fix formatting issues.");
    reveal_strlit("hint: run 'cargo clippy --fix' to automatically resolve warnings.");
    reveal_strlit("hint: fix compiler errors above.");
    reveal_strlit("hint: review failing tests and try again.");
    let h = kind.hint_spec();
    assert(escape_free(h));
    lemma_strip_escape_free(h);
    lemma_strip_styled(seq!['3', '3'], seq!['3', '9'], h);
}

proof fn lemma_scan_output_plain(s: Seq<char>)
    ensures
        escape_free(ansi_scan(s).0),
    decreases s.len(),
{
    if s.len() > 0 {
        lemma_scan_output_plain(s.drop_last());
        let prev = ansi_scan(s.drop_last());
        if !is_escape(s.last()) && !prev.1 {
            assert(escape_free(seq![s.last()]));
            lemma_escape_free_concat(prev.0, seq![s.last()]);
            assert(prev.0.push(s.last()) == prev.0 + seq![s.last()]);
        }
    }
}

/// Stripping escape sequences leaves no escape character, so stripping
/// twice is stripping once.
pub proof fn law_strip_ansi_idempotent(s: Seq<char>)
    ensures
        escape_free(strip_ansi_spec(s)),
        strip_ansi_spec(strip_ansi_spec(s)) == strip_ansi_spec(s),
{
    lemma_scan_output_plain(s);
    lemma_strip_escape_free(strip_ansi_spec(s));
}

/// Text without escape characters passes through stripping unchanged.
pub proof fn law_strip_ansi_plain_text(s: Seq<char>)
    requires
        escape_free(s),
    ensures
        strip_ansi_spec(s) == s,
{
    lemma_strip_escape_free(s);
}

/// The options that take no value.
pub open spec fn is_switch(a: Seq<char>) -> bool {
    ||| a == "--skip-fmt"@
    ||| a == "--skip-clippy"@
    ||| a == "--skip-build"@
    ||| a == "--skip-test"@
    ||| a == "--ci"@
    ||| a == "--no-color"@
    ||| a == "--strict"@
}

/// The options after the switch `a`.
pub open spec fn apply_switch(a: Seq<char>, o: OptionsModel) -> OptionsModel {
    if a == "--skip-fmt"@ {
        OptionsModel { skip_fmt: true, ..o }
    } else if a == "--skip-clippy"@ {
        OptionsModel { skip_clippy: true, ..o }
    } else if a == "--skip-build"@ {
        OptionsModel { skip_build: true, ..o }
    } else if a == "--skip-test"@ {
        OptionsModel { skip_test: true, ..o }
    } else if a == "--ci"@ {
        OptionsModel { ci: true, ..o }
    } else if a == "--no-color"@ {
        OptionsModel { no_color: true, ..o }
    } else {
        OptionsModel { strict: true, ..o }
    }
}

/// A switch sets its option and reading goes on with the rest.
pub proof fn lemma_parse_switch(a: Seq<char>, rest: Seq<Seq<char>>, o: OptionsModel)
    requires
        is_switch(a),
    ensures
        parse_from(seq![a] + rest, o) == parse_from(rest, apply_switch(a, o)),
{
    assert((seq![a] + rest)[0] == a);
    assert((seq![a] + rest).drop_first() == rest);
}

/// Giving a switch twice in a row is giving it once.
pub proof fn law_switch_repeat(a: Seq<char>, rest: Seq<Seq<char>>, o: OptionsModel)
    requires
        is_switch(a),
    ensures
        parse_from(seq![a, a] + rest, o) == parse_from(seq![a] + rest, o),
{
    assert(seq![a, a] + rest == seq![a] + (seq![a] + rest));
    lemma_parse_switch(a, seq![a] + rest, o);
    lemma_parse_switch(a, rest, apply_switch(a, o));
    lemma_parse_switch(a, rest, o);
    assert(apply_switch(a, apply_switch(a, o)) == apply_switch(a, o));
}

/// The order in which two switches are given does not matter.
pub proof fn law_switches_commute(a: Seq<char>, b: Seq<char>, rest: Seq<Seq<char>>, o: OptionsModel)
    requires
        is_switch(a),
        is_switch(b),
    ensures
        parse_from(seq![a, b] + rest, o) == parse_from(seq![b, a] + rest, o),
{
    assert(seq![a, b] + rest == seq![a] + (seq![b] + rest));
    assert(seq![b, a] + rest == seq![b] + (seq![a] + rest));
    lemma_parse_switch(a, seq![b] + rest, o);
    lemma_parse_switch(b, rest, apply_switch(a, o));
    lemma_parse_switch(b, seq![a] + rest, o);
    lemma_parse_switch(a, rest, apply_switch(b, o));
    assert(apply_switch(b, apply_switch(a, o)) == apply_switch(a, apply_switch(b, o)));
}

/// `cargo qc ARGS` and `cargo-qc ARGS` mean the same: the `qc` that cargo
/// passes first is skipped (unless the arguments themselves start with `qc`).
pub proof fn law_cargo_subcommand(rest: Seq<Seq<char>>)
    requires
        rest.len() == 0 || rest[0] != "qc"@,
    ensures
        command_line_spec(seq!["qc"@] + rest) == command_line_spec(rest),
{
    assert((seq!["qc"@] + rest)[0] == "qc"@);
    assert((seq!["qc"@] + rest).drop_first() == rest);
}

/// Help or version, asked before anything else, wins whatever follows.
pub proof fn law_help_and_version_first(a: Seq<char>, rest: Seq<Seq<char>>, o: OptionsModel)
    ensures
        (a == "-h"@ || a == "--help"@) ==> parse_from(seq![a] + rest, o) == CliModel::Help,
        (a == "-V"@ || a == "--version"@) ==> parse_from(seq![a] + rest, o) == CliModel::Version,
{
    reveal_strlit("--skip-fmt");
    reveal_strlit("--skip-clippy");
    reveal_strlit("--skip-build");
    reveal_strlit("--skip-test");
    reveal_strlit("--ci");
    reveal_strlit("--no-color");
    reveal_strlit("--strict");
    reveal_strlit("--telemetry");
    reveal_strlit("-h");
    reveal_strlit("--help");
    reveal_strlit("-V");
    reveal_strlit("--version");
    reveal_strlit("qc");
    assert((seq![a] + rest)[0] == a);
    assert("-V"@[1] != "-h"@[1]);
    assert("-V"@ != "-h"@);
    assert("--version"@.len() != "--help"@.len());
    assert("-V"@ != "--help"@);
    assert("--version"@ != "-h"@);
}

/// With all four checks skipped, nothing is run.
pub proof fn law_all_skipped_runs_nothing(o: OptionsModel)
    requires
        o.skip_fmt,
        o.skip_clippy,
        o.skip_build,
        o.skip_test,
    ensures
        planned_checks_spec(o).len() == 0,
{
}

/// Every check passed exactly when none failed.
pub proof fn law_all_passed_iff_no_failures(r: CheckResults)
    ensures
        r.all_passed_spec() <==> r.failed_count_spec() == 0,
        r.failed_count_spec() <= 4,
{
}

/// A check that the options skip never counts as failed, whatever the
/// checks that ran gave.
pub proof fn law_skipped_check_counts_as_passed(o: OptionsModel, outcomes: Seq<bool>, k: CheckKind)
    requires
        match k {
            CheckKind::Fmt => o.skip_fmt,
            CheckKind::Clippy => o.skip_clippy,
            CheckKind::Build => o.skip_build,
            CheckKind::Test => o.skip_test,
        },
    ensures
        !ran_and_failed(planned_checks_spec(o), outcomes, k),
{
    let p = planned_checks_spec(o);
    let a = if o.skip_fmt { seq![] } else { seq![CheckKind::Fmt] };
    let b = if o.skip_clippy { seq![] } else { seq![CheckKind::Clippy] };
    let c = if o.skip_build { seq![] } else { seq![CheckKind::Build] };
    let d = if o.skip_test { seq![] } else { seq![CheckKind::Test] };
    assert(p == a + b + c + d);
    assert forall|i: int| 0 <= i < p.len() implies p[i] != k by {
    }
}

proof fn lemma_last_index_push(a: Seq<char>, c: char)
    ensures
        last_index_of(a.push(c), c) == a.len(),
{
    assert(a.push(c).last() == c);
}

proof fn lemma_last_index_skips(a: Seq<char>, v: Seq<char>, c: char)
    requires
        forall|i: int| 0 <= i < v.len() ==> v[i] != c,
    ensures
        last_index_of(a + v, c) == last_index_of(a, c),
    decreases v.len(),
{
    if v.len() == 0 {
        assert(a + v == a);
    } else {
        lemma_last_index_skips(a, v.drop_last(), c);
        assert((a + v).drop_last() == a + v.drop_last());
        assert((a + v).last() == v[v.len() - 1]);
    }
}

/// What follows a delimiter that does not occur later.
proof fn lemma_after_delimiter(a: Seq<char>, c: char, v: Seq<char>)
    requires
        forall|i: int| 0 <= i < v.len() ==> v[i] != c,
    ensures
        after_last_spec(a.push(c) + v, c) == Some(v),
{
    lemma_last_index_skips(a.push(c), v, c);
    lemma_last_index_push(a, c);
    assert((a.push(c) + v).subrange(a.len() + 1int, (a.push(c) + v).len() as int) == v);
}

/// `cargo pkgid` names a package `<source>#<name>@<version>`: the version is
/// read back as it was written, whatever the source holds (an `@` in a path too).
pub proof fn law_pkgid_version_read_back(source: Seq<char>, name: Seq<char>, version: Seq<char>)
    requires
        forall|i: int| 0 <= i < name.len() ==> name[i] != '#',
        forall|i: int| 0 <= i < version.len() ==> version[i] != '@' && version[i] != '#',
        trim_spec(version) == version,
    ensures
        pkgid_version_spec(source.push('#') + (name.push('@') + version)) == Some(version),
{
    let fragment = name.push('@') + version;
    assert forall|i: int| 0 <= i < fragment.len() implies fragment[i] != '#' by {
        if i < name.len() {
            assert(fragment[i] == name[i]);
        } else if i > name.len() {
            assert(fragment[i] == version[i - name.len() - 1]);
        }
    }
    lemma_after_delimiter(source, '#', fragment);
    lemma_after_delimiter(name, '@', version);
}

/// Older cargo names a package `<source>#<version>`: the version is read back
/// as it was written, whatever the source holds.
pub proof fn law_pkgid_old_format_read_back(source: Seq<char>, version: Seq<char>)
    requires
        forall|i: int| 0 <= i < version.len() ==> version[i] != '@' && version[i] != '#',
        trim_spec(version) == version,
    ensures
        pkgid_version_spec(source.push('#') + version) == Some(version),
{
    lemma_after_delimiter(source, '#', version);
    lemma_last_index_skips(Seq::empty(), version, '@');
    assert(Seq::<char>::empty() + version == version);
}

/// The line ending typed after an answer does not change its meaning.
pub proof fn law_answer_ignores_line_end(typed: Seq<char>, c: char)
    requires
        c == '\n' || c == '\r',
    ensures
        answer_spec(typed.push(c)) == answer_spec(typed),
{
    assert(typed.push(c).drop_last() == typed);
    assert(trim_line_end(typed.push(c)) == trim_line_end(typed));
}

/// Once the entry is appended to `.gitignore`, nothing is asked or added again.
pub proof fn law_gitignore_entry_settles(content: Seq<char>, is_ci: bool)
    ensures
        gitignore_action_spec(false, Some(content + GITIGNORE_ENTRY@), is_ci)
            == GitignoreAction::Nothing,
{
    reveal_strlit("\n# cargo-qc logs\ntools/cargo-qc/\n");
    reveal_strlit("tools/cargo-qc");
    let all = content + GITIGNORE_ENTRY@;
    let at: int = content.len() + 17int;
    assert(all.subrange(at, at + GITIGNORE_MARKER@.len() as int) =~= GITIGNORE_MARKER@);
    assert(occurs_at(all, GITIGNORE_MARKER@, at));
}

proof fn lemma_decimal_two_digits(n: nat)
    requires
        n < 100,
    ensures
        1 <= decimal(n).len() <= 2,
{
    if n >= 10 {
        assert(decimal(n / 10).len() == 1);
    }
}

proof fn lemma_decimal_four_digits(n: nat)
    requires
        n < 10000,
    ensures
        1 <= decimal(n).len() <= 4,
{
    if n >= 10 {
        if n / 10 >= 10 {
            if n / 10 / 10 >= 10 {
                lemma_decimal_two_digits(n / 10 / 10 / 10);
                assert(decimal(n / 10 / 10).len() <= 2);
            } else {
                assert(decimal(n / 10 / 10).len() == 1);
            }
            assert(decimal(n / 10).len() <= 3);
        } else {
            assert(decimal(n / 10).len() == 1);
        }
    }
}

/// For the years 0 to 9999, a timestamp is written in sixteen characters,
/// `YYYY-MM-DD HH:MM`.
pub proof fn law_timestamp_width(t: Timestamp)
    requires
        t.is_valid(),
        0 <= t.year <= 9999,
    ensures
        timestamp_text_spec(t).len() == 16,
{
    lemma_decimal_four_digits(t.year as nat);
    lemma_decimal_two_digits(t.month as nat);
    lemma_decimal_two_digits(t.day as nat);
    lemma_decimal_two_digits(t.hour as nat);
    lemma_decimal_two_digits(t.minute as nat);
}

/// Stripping a coloured log line strips its message and drops the prefix's style.
pub proof fn lemma_strip_log_line(message: Seq<char>)
    ensures
        strip_ansi_spec(log_line_spec(message, false)) == log_line_spec(
            strip_ansi_spec(message),
            true,
        ),
{
    lemma_prefix_plain();
    lemma_strip_plain_then(seq![' '], message);
    lemma_strip_styled_then(seq!['2'], seq!['0'], PREFIX@, seq![' '] + message);
    assert(log_line_spec(message, false) =~= styled(seq!['2'], seq!['0'], PREFIX@) + (seq![' ']
        + message));
    assert(log_line_spec(strip_ansi_spec(message), true) =~= PREFIX@ + (seq![' '] + strip_ansi_spec(
        message,
    )));
}

/// With colours off, the title line is its coloured form without escape
/// sequences, and holds no escape character of its own.
pub proof fn law_title_line_plain()
    ensures
        strip_ansi_spec(title_line_spec(false)) == title_line_spec(true),
        escape_free(title_line_spec(true)),
{
    reveal_strlit("Local Quality Control");
    assert(escape_free(TITLE@));
    lemma_strip_escape_free(TITLE@);
    lemma_strip_styled(seq!['1'], seq!['0'], TITLE@);
    lemma_strip_log_line(styled(seq!['1'], seq!['0'], TITLE@));
    law_log_line_plain(TITLE@);
}

/// With colours off, the project line is its coloured form without escape
/// sequences, and holds no escape character of its own.
pub proof fn law_project_line_plain(name: Seq<char>, version: Seq<char>)
    requires
        escape_free(name),
        escape_free(version),
    ensures
        strip_ansi_spec(project_line_spec(name, version, false)) == project_line_spec(
            name,
            version,
            true,
        ),
        escape_free(project_line_spec(name, version, true)),
{
    reveal_strlit("Project: ");
    reveal_strlit(" v");
    let head = "Project: "@;
    let mid = " v"@;
    assert(escape_free(head));
    assert(escape_free(mid));
    let cyan = styled(seq!['3', '6'], seq!['3', '9'], version);
    let colored = head + (styled(seq!['1'], seq!['0'], name) + (mid + cyan));
    lemma_strip_escape_free(version);
    lemma_strip_styled(seq!['3', '6'], seq!['3', '9'], version);
    lemma_strip_plain_then(mid, cyan);
    lemma_strip_styled_then(seq!['1'], seq!['0'], name, mid + cyan);
    lemma_strip_plain_then(head, styled(seq!['1'], seq!['0'], name) + (mid + cyan));
    let plain = head + name + mid + version;
    assert(strip_ansi_spec(colored) =~= plain);
    assert(project_line_spec(name, version, false) =~= log_line_spec(colored, false));
    assert(project_line_spec(name, version, true) =~= log_line_spec(plain, true));
    lemma_strip_log_line(colored);
    lemma_escape_free_concat(head, name);
    lemma_escape_free_concat(head + name, mid);
    lemma_escape_free_concat(head + name + mid, version);
    law_log_line_plain(plain);
}

/// With colours off, the long-run notice is its coloured form without escape
/// sequences, and holds no escape character of its own.
pub proof fn law_slow_notice_plain()
    ensures
        strip_ansi_spec(slow_notice_spec(false)) == slow_notice_spec(true),
        escape_free(slow_notice_spec(true)),
{
    let tail = " Note: The process is taking longer than expected (15s). Please be patient..."@;
    reveal_strlit(" Note: The process is taking longer than expected (15s). Please be patient...");
    assert(escape_free(tail));
    lemma_prefix_plain();
    lemma_strip_escape_free(tail);
    lemma_strip_styled_then(seq!['2'], seq!['0'], PREFIX@, tail);
    lemma_strip_plain_then(seq!['\n'], dimmed_spec(PREFIX@) + tail);
    assert(slow_notice_spec(false) =~= seq!['\n'] + (dimmed_spec(PREFIX@) + tail));
    lemma_escape_free_concat(seq!['\n'], PREFIX@);
    lemma_escape_free_concat(seq!['\n'] + PREFIX@, tail);
}

/// With colours off, the prompt is its coloured form without escape
/// sequences, and holds no escape character of its own.
pub proof fn law_prompt_plain(question: Seq<char>)
    requires
        escape_free(question),
    ensures
        strip_ansi_spec(prompt_spec(question, false)) == prompt_spec(question, true),
        escape_free(prompt_spec(question, true)),
{
    reveal_strlit(" [Y/n]: ");
    assert(escape_free(" [Y/n]: "@));
    lemma_escape_free_concat(question, " [Y/n]: "@);
    law_log_line_plain(question + " [Y/n]: "@);
    assert(prompt_spec(question, false) =~= log_line_spec(question + " [Y/n]: "@, false));
    assert(prompt_spec(question, true) =~= log_line_spec(question + " [Y/n]: "@, true));
}

/// With colours off, the answer hint is its coloured form without escape
/// sequences, and holds no escape character of its own.
pub proof fn law_answer_hint_plain()
    ensures
        strip_ansi_spec(answer_hint_spec(false)) == answer_hint_spec(true),
        escape_free(answer_hint_spec(true)),
{
    reveal_strlit("hint:");
    reveal_strlit(" Please enter Y (yes) or N (no).");
    reveal_strlit("hint: Please enter Y (yes) or N (no).");
    let rest = " Please enter Y (yes) or N (no)."@;
    assert(escape_free("hint:"@));
    assert(escape_free(rest));
    lemma_strip_escape_free(rest);
    lemma_strip_styled_then(seq!['3', '3'], seq!['3', '9'], "hint:"@, rest);
    assert("hint: Please enter Y (yes) or N (no)."@ =~= "hint:"@ + rest);
}

/// With colours off, the warning about a missing `curl` is its coloured form
/// without escape sequences, and holds no escape character of its own.
#[verifier::spinoff_prover]
#[verifier::rlimit(40)]
pub proof fn law_curl_warning_plain()
    ensures
        strip_ansi_spec(curl_missing_spec(false)) == curl_missing_spec(true),
        escape_free(curl_missing_spec(true)),
{
    reveal_strlit("Telemetry was requested, but '");
    reveal_strlit("curl");
    reveal_strlit("' is not installed or not in PATH.");
    let a = "Telemetry was requested, but '"@;
    let c = "curl"@;
    let z = "' is not installed or not in PATH."@;
    assert(escape_free(a));
    assert(escape_free(c));
    assert(escape_free(z));
    lemma_strip_escape_free(z);
    lemma_strip_styled_then(seq!['1'], seq!['0'], c, z);
    lemma_strip_plain_then(a, styled(seq!['1'], seq!['0'], c) + z);
    let colored = a + styled(seq!['1'], seq!['0'], c) + z;
    assert(colored =~= a + (styled(seq!['1'], seq!['0'], c) + z));
    let plain = a + c + z;
    assert(strip_ansi_spec(colored) =~= plain);
    lemma_escape_free_concat(a, c);
    lemma_escape_free_concat(a + c, z);
    law_log_warning_plain(plain);
    // the coloured warning strips to the warning of the stripped message
    reveal_strlit("warning:");
    assert(escape_free("warning:"@));
    let rest = seq![' '] + colored;
    lemma_strip_plain_then(seq![' '], colored);
    lemma_strip_bold_colored_then(seq!['3', '3'], "warning:"@, rest);
    assert(curl_missing_spec(false) =~= styled(
        seq!['1'],
        seq!['0'],
        styled(seq!['3', '3'], seq!['3', '9'], "warning:"@),
    ) + rest);
    assert(curl_missing_spec(true) =~= log_warning_spec(plain, true));
    reveal_strlit("warning: ");
    assert(log_warning_spec(plain, true) =~= "warning:"@ + (seq![' '] + plain));
}

/// With colours off, a spinner prints its coloured lines without escape
/// sequences, and none of its own.
pub proof fn law_spinner_lines_plain(msg: Seq<char>, tick: usize, success: bool, disabled: bool)
    requires
        escape_free(msg),
    ensures
        strip_ansi_spec(start_line_spec(msg, false)) == start_line_spec(msg, true),
        escape_free(start_line_spec(msg, true)),
        strip_ansi_spec(frame_line_spec(msg, tick, false)) == frame_line_spec(msg, tick, true),
        escape_free(frame_line_spec(msg, tick, true)),
        strip_ansi_spec(finish_line_spec(msg, success, disabled, false)) == finish_line_spec(
            msg,
            success,
            disabled,
            true,
        ),
        escape_free(finish_line_spec(msg, success, disabled, true)),
{
    reveal_strlit(" ... ");
    let dots = " ... "@;
    assert(escape_free(dots));
    // start line
    lemma_escape_free_concat(msg, dots);
    law_log_line_plain(msg + dots);
    assert(start_line_spec(msg, false) =~= log_line_spec(msg + dots, false));
    assert(start_line_spec(msg, true) =~= log_line_spec(msg + dots, true));
    // frame line
    reveal_strlit("⠋");
    reveal_strlit("⠙");
    reveal_strlit("⠹");
    reveal_strlit("⠸");
    reveal_strlit("⠼");
    reveal_strlit("⠴");
    reveal_strlit("⠦");
    reveal_strlit("⠧");
    reveal_strlit("⠇");
    reveal_strlit("⠏");
    let f = frames_spec()[(tick % FRAME_COUNT) as int];
    assert(escape_free(f));
    let tail = seq![' '] + msg + dots;
    lemma_escape_free_concat(seq![' '], msg);
    lemma_escape_free_concat(seq![' '] + msg, dots);
    lemma_strip_escape_free(tail);
    lemma_strip_styled_then(seq!['3', '6'], seq!['3', '9'], f, tail);
    let after_prefix_col = seq![' '] + (styled(seq!['3', '6'], seq!['3', '9'], f) + tail);
    lemma_strip_plain_then(seq![' '], styled(seq!['3', '6'], seq!['3', '9'], f) + tail);
    lemma_prefix_plain();
    lemma_strip_styled_then(seq!['2'], seq!['0'], PREFIX@, after_prefix_col);
    lemma_strip_plain_then(seq!['\r'], dimmed_spec(PREFIX@) + after_prefix_col);
    assert(frame_line_spec(msg, tick, false) =~= seq!['\r'] + (dimmed_spec(PREFIX@)
        + after_prefix_col));
    assert(frame_line_spec(msg, tick, true) =~= seq!['\r'] + PREFIX@ + seq![' '] + f + tail);
    lemma_escape_free_concat(seq!['\r'], PREFIX@);
    lemma_escape_free_concat(seq!['\r'] + PREFIX@, seq![' ']);
    lemma_escape_free_concat(seq!['\r'] + PREFIX@ + seq![' '], f);
    lemma_escape_free_concat(seq!['\r'] + PREFIX@ + seq![' '] + f, tail);
    // finish line
    lemma_icon_plain(success);
    if !disabled {
        let spaces = Seq::new(finish_padding_spec(msg), |k: int| ' ');
        lemma_spaces_plain(finish_padding_spec(msg));
        let end = seq![' '] + msg + dots + spaces + icon_spec(success);
        lemma_escape_free_concat(seq![' '] + msg + dots, spaces);
        lemma_escape_free_concat(seq![' '] + msg + dots + spaces, icon_spec(success));
        lemma_strip_escape_free(end);
        lemma_strip_styled_then(seq!['2'], seq!['0'], PREFIX@, end);
        lemma_strip_plain_then(seq!['\r'], dimmed_spec(PREFIX@) + end);
        assert(finish_line_spec(msg, success, disabled, false) =~= seq!['\r'] + (dimmed_spec(
            PREFIX@,
        ) + end));
        assert(finish_line_spec(msg, success, disabled, true) =~= seq!['\r'] + PREFIX@ + end);
        lemma_escape_free_concat(seq!['\r'] + PREFIX@, end);
    } else {
        lemma_strip_escape_free(icon_spec(success));
    }
}

/// The history row's overall column shows `✅` exactly when the run ends
/// without failed checks, that is when the program exits successfully.
pub proof fn law_history_overall_matches_outcome(r: CheckResults)
    ensures
        (icon_spec(r.all_passed_spec()) == "✅"@) <==> r.failed_count_spec() == 0,
{
    reveal_strlit("✅");
    reveal_strlit("❌");
    assert("✅"@ != "❌"@) by {
        assert("✅"@[0] != "❌"@[0]);
    }
}

proof fn lemma_escape_free_drop_last(s: Seq<char>)
    requires
        escape_free(s),
        s.len() > 0,
    ensures
        escape_free(s.drop_last()),
{
    assert forall|i: int| 0 <= i < s.drop_last().len() implies !is_escape(#[trigger] s.drop_last()[i]) by {
        assert(s.drop_last()[i] == s[i]);
    }
}

proof fn lemma_line_scan_plain(s: Seq<char>)
    requires
        escape_free(s),
    ensures
        forall|k: int| 0 <= k < line_scan(s).0.len() ==> escape_free(#[trigger] line_scan(s).0[k]),
        escape_free(line_scan(s).1),
    decreases s.len(),
{
    if s.len() > 0 {
        lemma_escape_free_drop_last(s);
        lemma_line_scan_plain(s.drop_last());
        let prev = line_scan(s.drop_last());
        let c = s.last();
        assert(!is_escape(s[s.len() - 1]));
        if c == '\n' {
            let line = strip_cr(prev.1);
            if prev.1.len() > 0 && prev.1.last() == '\r' {
                lemma_escape_free_drop_last(prev.1);
            }
            assert(escape_free(line));
            assert forall|k: int| 0 <= k < prev.0.push(line).len() implies escape_free(
                #[trigger] prev.0.push(line)[k],
            ) by {
                if k < prev.0.len() {
                    assert(prev.0.push(line)[k] == prev.0[k]);
                }
            }
            assert(escape_free(Seq::<char>::empty()));
        } else {
            assert(escape_free(seq![c]));
            lemma_escape_free_concat(prev.1, seq![c]);
            assert(prev.1.push(c) == prev.1 + seq![c]);
        }
    }
}

proof fn lemma_lines_plain(s: Seq<char>)
    requires
        escape_free(s),
    ensures
        forall|k: int| 0 <= k < lines_spec(s).len() ==> escape_free(#[trigger] lines_spec(s)[k]),
{
    lemma_line_scan_plain(s);
    let st = line_scan(s);
    if st.1.len() > 0 {
        assert forall|k: int| 0 <= k < st.0.push(st.1).len() implies escape_free(
            #[trigger] st.0.push(st.1)[k],
        ) by {
            if k < st.0.len() {
                assert(st.0.push(st.1)[k] == st.0[k]);
            }
        }
    }
}

proof fn lemma_join_plain(list: Seq<Seq<char>>, sep: Seq<char>)
    requires
        forall|k: int| 0 <= k < list.len() ==> escape_free(#[trigger] list[k]),
        escape_free(sep),
    ensures
        escape_free(join_spec(list, sep)),
    decreases list.len(),
{
    if list.len() == 0 {
        assert(escape_free(Seq::<char>::empty()));
    } else if list.len() == 1 {
        assert(escape_free(list[0]));
    } else {
        assert forall|k: int| 0 <= k < list.drop_last().len() implies escape_free(
            #[trigger] list.drop_last()[k],
        ) by {
            assert(list.drop_last()[k] == list[k]);
        }
        lemma_join_plain(list.drop_last(), sep);
        assert(escape_free(list[list.len() - 1]));
        lemma_escape_free_concat(join_spec(list.drop_last(), sep), sep);
        lemma_escape_free_concat(join_spec(list.drop_last(), sep) + sep, list.last());
    }
}

/// What the terminal shows of a failed check's error output holds no escape
/// character: the output is stripped before it is shortened.
pub proof fn law_terminal_report_plain(stderr: Seq<char>)
    ensures
        escape_free(truncate_spec(strip_ansi_spec(stderr))),
{
    law_strip_ansi_idempotent(stderr);
    let clean = strip_ansi_spec(stderr);
    let ls = lines_spec(clean);
    if ls.len() > TERMINAL_LINES {
        lemma_lines_plain(clean);
        let first = ls.take(TERMINAL_LINES as int);
        assert forall|k: int| 0 <= k < first.len() implies escape_free(#[trigger] first[k]) by {
            assert(first[k] == ls[k]);
        }
        assert(escape_free(seq!['\n']));
        lemma_join_plain(first, seq!['\n']);
        reveal_strlit("\n... (output truncated, see logs for full details)");
        let note = "\n... (output truncated, see logs for full details)"@;
        assert(escape_free(note));
        lemma_escape_free_concat(join_spec(first, seq!['\n']), note);
    }
}

/// The terminal line of a check whose command could not be started holds no
/// escape character when the error's text holds none.
pub proof fn law_launch_error_plain(kind: CheckKind, error: Seq<char>)
    requires
        escape_free(error),
    ensures
        escape_free(kind.launch_error_spec(error)),
{
    reveal_strlit("failed to run cargo fmt: ");
    reveal_strlit("failed to run cargo clippy: ");
    reveal_strlit("failed to run cargo build: ");
    reveal_strlit("failed to run cargo test: ");
    let head = match kind {
        CheckKind::Fmt => "failed to run cargo fmt: "@,
        CheckKind::Clippy => "failed to run cargo clippy: "@,
        CheckKind::Build => "failed to run cargo build: "@,
        CheckKind::Test => "failed to run cargo test: "@,
    };
    assert(escape_free(head));
    lemma_escape_free_concat(head, error);
}

/// Whether the options skip check `k`, by that check's own flag.
pub open spec fn skipped(o: OptionsModel, k: CheckKind) -> bool {
    match k {
        CheckKind::Fmt => o.skip_fmt,
        CheckKind::Clippy => o.skip_clippy,
        CheckKind::Build => o.skip_build,
        CheckKind::Test => o.skip_test,
    }
}

/// The position of a check in a run and in the history table: fmt, clippy, build, test.
pub open spec fn check_column(k: CheckKind) -> int {
    match k {
        CheckKind::Fmt => 0,
        CheckKind::Clippy => 1,
        CheckKind::Build => 2,
        CheckKind::Test => 3,
    }
}

/// A check is planned exactly when its own skip flag is off, whatever the
/// other flags say, and the planned checks come in the order fmt, clippy,
/// build, test, each at most once.
pub proof fn law_planned_checks(o: OptionsModel)
    ensures
        forall|k: CheckKind| #[trigger] planned_checks_spec(o).contains(k) <==> !skipped(o, k),
        forall|i: int, j: int|
            0 <= i < j < planned_checks_spec(o).len() ==> check_column(
                #[trigger] planned_checks_spec(o)[i],
            ) < check_column(#[trigger] planned_checks_spec(o)[j]),
{
    let p = planned_checks_spec(o);
    let a = if o.skip_fmt { seq![] } else { seq![CheckKind::Fmt] };
    let b = if o.skip_clippy { seq![] } else { seq![CheckKind::Clippy] };
    let c = if o.skip_build { seq![] } else { seq![CheckKind::Build] };
    let d = if o.skip_test { seq![] } else { seq![CheckKind::Test] };
    assert(p == a + b + c + d);
    assert forall|k: CheckKind| #[trigger] p.contains(k) <==> !skipped(o, k) by {
        if !skipped(o, k) {
            match k {
                CheckKind::Fmt => assert(p[0] == k),
                CheckKind::Clippy => assert(p[a.len() as int] == k),
                CheckKind::Build => assert(p[(a.len() + b.len()) as int] == k),
                CheckKind::Test => assert(p[(a.len() + b.len() + c.len()) as int] == k),
            }
        }
    }
}

/// Reading goes on after `--telemetry` and its URL: the URL is recorded and
/// the rest of the arguments is read as if the two were not there.
pub proof fn law_telemetry_then_rest(url: Seq<char>, rest: Seq<Seq<char>>, o: OptionsModel)
    ensures
        parse_from(seq!["--telemetry"@, url] + rest, o) == parse_from(
            rest,
            OptionsModel { telemetry: Some(url), ..o },
        ),
{
    reveal_strlit("--skip-fmt");
    reveal_strlit("--skip-clippy");
    reveal_strlit("--skip-build");
    reveal_strlit("--skip-test");
    reveal_strlit("--ci");
    reveal_strlit("--no-color");
    reveal_strlit("--strict");
    reveal_strlit("--telemetry");
    let all = seq!["--telemetry"@, url] + rest;
    let t = "--telemetry"@;
    assert(t.len() == 11);
    assert(t.len() != "--skip-fmt"@.len());
    assert(t.len() != "--skip-clippy"@.len());
    assert(t.len() != "--skip-build"@.len());
    assert(t[2] != "--skip-test"@[2]);
    assert(t.len() != "--ci"@.len());
    assert(t.len() != "--no-color"@.len());
    assert(t.len() != "--strict"@.len());
    assert(all[0] == "--telemetry"@);
    assert(all.drop_first()[0] == url);
    assert(all.drop_first().drop_first() == rest);
}

/// The icon of a history cell.
pub open spec fn icon_char(passed: bool) -> char {
    if passed {
        '\u{2705}'
    } else {
        '\u{274c}'
    }
}

/// Each check's column of the history row shows that check's own result.
/// The cells after the date and version hold one icon each, separated by
/// ` | `, in the order of the header's `Fmt | Clippy | Build | Test | Overall`:
/// the cell of check `k` is at `start + 4 * check_column(k)` and the overall
/// cell at `start + 16`, where `start` is the length of `| date | `version` | `.
pub proof fn law_history_row_columns(
    date: Seq<char>,
    version: Seq<char>,
    r: CheckResults,
    duration: Seq<char>,
)
    ensures
        ({
            let row = history_row_spec(date, version, r, duration);
            let start: int = date.len() + version.len() + 10int;
            &&& row.subrange(0, start) == "| "@ + date + " | `"@ + version + "` | "@
            &&& forall|k: CheckKind| #[trigger]
                row[start + 4 * check_column(k)] == icon_char(r.passed_spec(k))
            &&& row[start + 16] == icon_char(r.all_passed_spec())
            &&& row.subrange(start + 1, start + 4) == " | "@
            &&& row.subrange(start + 5, start + 8) == " | "@
            &&& row.subrange(start + 9, start + 12) == " | "@
            &&& row.subrange(start + 13, start + 16) == " | "@
            &&& row.subrange(start + 17, start + 20) == " | "@
        }),
        contains_spec(
            HISTORY_HEADER@,
            "| Date | Version | Fmt | Clippy | Build | Test | Overall | Duration |"@,
        ),
{
    reveal_strlit("| ");
    reveal_strlit(" | `");
    reveal_strlit("` | ");
    reveal_strlit(" | ");
    reveal_strlit(" |\n");
    reveal_strlit("✅");
    reveal_strlit("❌");
    let row = history_row_spec(date, version, r, duration);
    let start: int = date.len() + version.len() + 10int;
    let head = "| "@ + date + " | `"@ + version + "` | "@;
    let cells = seq![
        icon_char(r.fmt_pass),
        ' ',
        '|',
        ' ',
        icon_char(r.clippy_pass),
        ' ',
        '|',
        ' ',
        icon_char(r.build_pass),
        ' ',
        '|',
        ' ',
        icon_char(r.test_pass),
        ' ',
        '|',
        ' ',
        icon_char(r.all_passed_spec()),
        ' ',
        '|',
        ' ',
    ];
    assert(icon_spec(r.fmt_pass) == seq![icon_char(r.fmt_pass)]);
    assert(icon_spec(r.clippy_pass) == seq![icon_char(r.clippy_pass)]);
    assert(icon_spec(r.build_pass) == seq![icon_char(r.build_pass)]);
    assert(icon_spec(r.test_pass) == seq![icon_char(r.test_pass)]);
    assert(icon_spec(r.all_passed_spec()) == seq![icon_char(r.all_passed_spec())]);
    assert(row =~= head + cells + duration + " |\n"@);
    assert(head.len() == start);
    assert(row.subrange(0, start) =~= head);
    assert forall|k: CheckKind| #[trigger]
        row[start + 4 * check_column(k)] == icon_char(r.passed_spec(k)) by {
        assert(row[start + 4 * check_column(k)] == cells[4 * check_column(k)]);
    }
    assert(row[start + 16] == cells[16]);
    assert(row.subrange(start + 1, start + 4) =~= seq![' ', '|', ' ']);
    assert(row.subrange(start + 5, start + 8) =~= seq![' ', '|', ' ']);
    assert(row.subrange(start + 9, start + 12) =~= seq![' ', '|', ' ']);
    assert(row.subrange(start + 13, start + 16) =~= seq![' ', '|', ' ']);
    assert(row.subrange(start + 17, start + 20) =~= seq![' ', '|', ' ']);
    reveal_strlit(
        "# Cargo QC History\n\n| Date | Version | Fmt | Clippy | Build | Test | Overall | Duration |\n|---|---|---|---|---|---|---|---|\n",
    );
    reveal_strlit("| Date | Version | Fmt | Clippy | Build | Test | Overall | Duration |");
    let line = "| Date | Version | Fmt | Clippy | Build | Test | Overall | Duration |"@;
    assert(HISTORY_HEADER@.subrange(20, 20 + line.len() as int) =~= line);
    assert(occurs_at(HISTORY_HEADER@, line, 20));
}

proof fn lemma_occurs_between(a: Seq<char>, n: Seq<char>, b: Seq<char>)
    ensures
        contains_spec(a + n + b, n),
{
    assert((a + n + b).subrange(a.len() as int, (a.len() + n.len()) as int) =~= n);
    assert(occurs_at(a + n + b, n, a.len() as int));
}

/// The keys and values of the telemetry report, one after the other.
#[verifier::rlimit(100)]
#[verifier::spinoff_prover]
proof fn lemma_payload_pieces(version: Seq<char>, r: CheckResults, duration: Seq<char>)
    ensures
        payload_spec(version, r, duration) =~= "{\"version\":\""@ + version + seq!['"', ',']
            + ("\"fmt_pass\":"@ + json_bool_spec(r.fmt_pass) + ","@) + ("\"clippy_pass\":"@
            + json_bool_spec(r.clippy_pass) + ","@) + ("\"build_pass\":"@ + json_bool_spec(
            r.build_pass,
        ) + ","@) + ("\"test_pass\":"@ + json_bool_spec(r.test_pass) + ","@) + ("\"all_passed\":"@
            + json_bool_spec(r.all_passed_spec()) + ","@) + ("\"duration_sec\":"@ + duration + "}"@),
{
    reveal_strlit("\",\"fmt_pass\":");
    reveal_strlit(",\"clippy_pass\":");
    reveal_strlit(",\"build_pass\":");
    reveal_strlit(",\"test_pass\":");
    reveal_strlit(",\"all_passed\":");
    reveal_strlit(",\"duration_sec\":");
    reveal_strlit("\"fmt_pass\":");
    reveal_strlit("\"clippy_pass\":");
    reveal_strlit("\"build_pass\":");
    reveal_strlit("\"test_pass\":");
    reveal_strlit("\"all_passed\":");
    reveal_strlit("\"duration_sec\":");
    reveal_strlit(",");
    let comma = ","@;
    assert("\",\"fmt_pass\":"@ =~= seq!['"', ','] + "\"fmt_pass\":"@);
    assert(",\"clippy_pass\":"@ =~= comma + "\"clippy_pass\":"@);
    assert(",\"build_pass\":"@ =~= comma + "\"build_pass\":"@);
    assert(",\"test_pass\":"@ =~= comma + "\"test_pass\":"@);
    assert(",\"all_passed\":"@ =~= comma + "\"all_passed\":"@);
    assert(",\"duration_sec\":"@ =~= comma + "\"duration_sec\":"@);
}

/// The value after each key of the telemetry report is that key's own
/// result: the report holds `"fmt_pass":<fmt>,`, `"clippy_pass":<clippy>,`,
/// `"build_pass":<build>,`, `"test_pass":<test>,` and `"all_passed":<all>,`.
#[verifier::spinoff_prover]
#[verifier::rlimit(50)]
pub proof fn law_payload_fields(version: Seq<char>, r: CheckResults, duration: Seq<char>)
    ensures
        contains_spec(
            payload_spec(version, r, duration),
            "\"fmt_pass\":"@ + json_bool_spec(r.fmt_pass) + ","@,
        ),
        contains_spec(
            payload_spec(version, r, duration),
            "\"clippy_pass\":"@ + json_bool_spec(r.clippy_pass) + ","@,
        ),
        contains_spec(
            payload_spec(version, r, duration),
            "\"build_pass\":"@ + json_bool_spec(r.build_pass) + ","@,
        ),
        contains_spec(
            payload_spec(version, r, duration),
            "\"test_pass\":"@ + json_bool_spec(r.test_pass) + ","@,
        ),
        contains_spec(
            payload_spec(version, r, duration),
            "\"all_passed\":"@ + json_bool_spec(r.all_passed_spec()) + ","@,
        ),
{
    lemma_payload_pieces(version, r, duration);
    let p = payload_spec(version, r, duration);
    let o = "{\"version\":\""@ + version + seq!['"', ','];
    let f = "\"fmt_pass\":"@ + json_bool_spec(r.fmt_pass) + ","@;
    let c = "\"clippy_pass\":"@ + json_bool_spec(r.clippy_pass) + ","@;
    let b = "\"build_pass\":"@ + json_bool_spec(r.build_pass) + ","@;
    let t = "\"test_pass\":"@ + json_bool_spec(r.test_pass) + ","@;
    let a = "\"all_passed\":"@ + json_bool_spec(r.all_passed_spec()) + ","@;
    let d = "\"duration_sec\":"@ + duration + "}"@;
    assert(p == o + f + c + b + t + a + d);
    assert(p =~= o + f + (c + b + t + a + d));
    lemma_occurs_between(o, f, c + b + t + a + d);
    assert(p =~= (o + f) + c + (b + t + a + d));
    lemma_occurs_between(o + f, c, b + t + a + d);
    assert(p =~= (o + f + c) + b + (t + a + d));
    lemma_occurs_between(o + f + c, b, t + a + d);
    assert(p =~= (o + f + c + b) + t + (a + d));
    lemma_occurs_between(o + f + c + b, t, a + d);
    assert(p =~= (o + f + c + b + t) + a + d);
    lemma_occurs_between(o + f + c + b + t, a, d);
}

/// The line scan of `s`, started from `st`.
pub open spec fn line_scan_from(st: (Seq<Seq<char>>, Seq<char>), s: Seq<char>) -> (
    Seq<Seq<char>>,
    Seq<char>,
)
    decreases s.len(),
{
    if s.len() == 0 {
        st
    } else {
        line_step(line_scan_from(st, s.drop_last()), s.last())
    }
}

/// `s` holds no line break.
pub open spec fn no_newline(s: Seq<char>) -> bool {
    forall|i: int| 0 <= i < s.len() ==> #[trigger] s[i] != '\n'
}

proof fn lemma_line_scan_from_empty(s: Seq<char>)
    ensures
        line_scan_from((Seq::empty(), Seq::empty()), s) == line_scan(s),
    decreases s.len(),
{
    if s.len() > 0 {
        lemma_line_scan_from_empty(s.drop_last());
    }
}

proof fn lemma_line_scan_from_concat(st: (Seq<Seq<char>>, Seq<char>), a: Seq<char>, b: Seq<char>)
    ensures
        line_scan_from(st, a + b) == line_scan_from(line_scan_from(st, a), b),
    decreases b.len(),
{
    if b.len() == 0 {
        assert(a + b == a);
    } else {
        lemma_line_scan_from_concat(st, a, b.drop_last());
        assert((a + b).drop_last() == a + b.drop_last());
        assert((a + b).last() == b.last());
    }
}

/// Text without a line break only extends the line being read.
proof fn lemma_line_scan_from_word(done: Seq<Seq<char>>, cur: Seq<char>, w: Seq<char>)
    requires
        no_newline(w),
    ensures
        line_scan_from((done, cur), w) == (done, cur + w),
    decreases w.len(),
{
    if w.len() == 0 {
        assert(cur + w == cur);
    } else {
        assert(no_newline(w.drop_last()));
        lemma_line_scan_from_word(done, cur, w.drop_last());
        assert(w[w.len() - 1] != '\n');
        assert(cur + w.drop_last().push(w.last()) == cur + w);
        assert((cur + w.drop_last()).push(w.last()) == cur + w.drop_last().push(w.last()));
    }
}

proof fn lemma_line_scan_newline(done: Seq<Seq<char>>, cur: Seq<char>)
    ensures
        line_scan_from((done, cur), seq!['\n']) == (done.push(strip_cr(cur)), Seq::<char>::empty()),
{
    assert(seq!['\n'].drop_last() =~= Seq::<char>::empty());
    assert(line_scan_from((done, cur), Seq::<char>::empty()) == (done, cur));
    assert(seq!['\n'].last() == '\n');
}

/// Lines joined with line breaks, plus a final break, scan back to the lines
/// (each without one trailing carriage return).
proof fn lemma_scan_joined(list: Seq<Seq<char>>)
    requires
        list.len() > 0,
        forall|k: int| 0 <= k < list.len() ==> no_newline(#[trigger] list[k]),
    ensures
        line_scan(join_spec(list, seq!['\n']) + seq!['\n']) == (
            list.map_values(|l: Seq<char>| strip_cr(l)),
            Seq::<char>::empty(),
        ),
    decreases list.len(),
{
    let e = (Seq::<Seq<char>>::empty(), Seq::<char>::empty());
    let nl = seq!['\n'];
    if list.len() == 1 {
        let x = list[0];
        assert(no_newline(x));
        lemma_line_scan_from_empty(x + nl);
        lemma_line_scan_from_concat(e, x, nl);
        lemma_line_scan_from_word(Seq::empty(), Seq::empty(), x);
        assert(Seq::<char>::empty() + x == x);
        lemma_line_scan_newline(Seq::empty(), x);
        assert(list.map_values(|l: Seq<char>| strip_cr(l)) =~= seq![strip_cr(x)]);
    } else {
        let front = list.drop_last();
        let last = list.last();
        assert forall|k: int| 0 <= k < front.len() implies no_newline(#[trigger] front[k]) by {
            assert(front[k] == list[k]);
        }
        assert(no_newline(list[list.len() - 1]));
        lemma_scan_joined(front);
        let a = join_spec(front, nl) + nl;
        assert(join_spec(list, nl) + nl == a + last + nl);
        lemma_line_scan_from_empty(a + last + nl);
        lemma_line_scan_from_concat(e, a + last, nl);
        lemma_line_scan_from_concat(e, a, last);
        lemma_line_scan_from_empty(a);
        let mapped = front.map_values(|l: Seq<char>| strip_cr(l));
        lemma_line_scan_from_word(mapped, Seq::empty(), last);
        assert(Seq::<char>::empty() + last == last);
        lemma_line_scan_newline(mapped, last);
        assert(list.map_values(|l: Seq<char>| strip_cr(l)) =~= mapped.push(strip_cr(last)));
    }
}

proof fn lemma_line_scan_no_newline(s: Seq<char>)
    ensures
        forall|k: int| 0 <= k < line_scan(s).0.len() ==> no_newline(#[trigger] line_scan(s).0[k]),
        no_newline(line_scan(s).1),
    decreases s.len(),
{
    if s.len() > 0 {
        lemma_line_scan_no_newline(s.drop_last());
        let prev = line_scan(s.drop_last());
        let c = s.last();
        if c == '\n' {
            let line = strip_cr(prev.1);
            assert(no_newline(line)) by {
                if prev.1.len() > 0 && prev.1.last() == '\r' {
                    assert forall|i: int| 0 <= i < line.len() implies #[trigger] line[i] != '\n' by {
                        assert(line[i] == prev.1[i]);
                    }
                }
            }
            assert forall|k: int| 0 <= k < prev.0.push(line).len() implies no_newline(
                #[trigger] prev.0.push(line)[k],
            ) by {
                if k < prev.0.len() {
                    assert(prev.0.push(line)[k] == prev.0[k]);
                }
            }
        } else {
            assert forall|i: int| 0 <= i < prev.1.push(c).len() implies #[trigger] prev.1.push(
                c,
            )[i] != '\n' by {
                if i < prev.1.len() {
                    assert(prev.1.push(c)[i] == prev.1[i]);
                }
            }
        }
    }
}

proof fn lemma_lines_no_newline(s: Seq<char>)
    ensures
        forall|k: int| 0 <= k < lines_spec(s).len() ==> no_newline(#[trigger] lines_spec(s)[k]),
{
    lemma_line_scan_no_newline(s);
    let st = line_scan(s);
    if st.1.len() > 0 {
        assert forall|k: int| 0 <= k < st.0.push(st.1).len() implies no_newline(
            #[trigger] st.0.push(st.1)[k],
        ) by {
            if k < st.0.len() {
                assert(st.0.push(st.1)[k] == st.0[k]);
            }
        }
    }
}

/// The note that ends a shortened output.
pub open spec fn truncation_note() -> Seq<char> {
    "... (output truncated, see logs for full details)"@
}

/// Output of more than fifteen lines is shown as its first fifteen lines
/// followed by one line, the note; output of at most fifteen lines is shown
/// as it is. (A shown line loses one trailing carriage return, as the line
/// break that follows it is a plain `\n`.)
pub proof fn law_truncation_keeps_first_lines(output: Seq<char>)
    ensures
        lines_spec(output).len() <= TERMINAL_LINES ==> truncate_spec(output) == output,
        lines_spec(output).len() > TERMINAL_LINES ==> {
            let shown = lines_spec(truncate_spec(output));
            &&& shown.len() == TERMINAL_LINES + 1
            &&& forall|k: int|
                0 <= k < TERMINAL_LINES ==> #[trigger] shown[k] == strip_cr(lines_spec(output)[k])
            &&& shown[TERMINAL_LINES as int] == truncation_note()
        },
{
    let ls = lines_spec(output);
    if ls.len() > TERMINAL_LINES {
        reveal_strlit("\n... (output truncated, see logs for full details)");
        reveal_strlit("... (output truncated, see logs for full details)");
        let n = truncation_note();
        let nl = seq!['\n'];
        assert("\n... (output truncated, see logs for full details)"@ =~= nl + n);
        assert(no_newline(n));
        let first = ls.take(TERMINAL_LINES as int);
        lemma_lines_no_newline(output);
        assert forall|k: int| 0 <= k < first.len() implies no_newline(#[trigger] first[k]) by {
            assert(first[k] == ls[k]);
        }
        lemma_scan_joined(first);
        let j = join_spec(first, nl);
        let t = truncate_spec(output);
        assert(t =~= (j + nl) + n);
        let mapped = first.map_values(|l: Seq<char>| strip_cr(l));
        let e = (Seq::<Seq<char>>::empty(), Seq::<char>::empty());
        lemma_line_scan_from_empty((j + nl) + n);
        lemma_line_scan_from_concat(e, j + nl, n);
        lemma_line_scan_from_empty(j + nl);
        lemma_line_scan_from_word(mapped, Seq::empty(), n);
        assert(Seq::<char>::empty() + n == n);
        assert(line_scan(t) == (mapped, n));
        assert(n.len() > 0);
        assert(lines_spec(t) == mapped.push(n));
    }
}

} // verus!
