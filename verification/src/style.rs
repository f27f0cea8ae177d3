//! Terminal styling through `owo-colors`: each style wraps its text in ANSI
//! "select graphic rendition" sequences.
use owo_colors::OwoColorize;
use vstd::prelude::*;

verus! {

/// The control sequence `ESC [ code m`.
pub open spec fn sgr(code: Seq<char>) -> Seq<char> {
    seq!['\u{1b}', '['] + code + seq!['m']
}

/// A text style: `text` between the sequence that turns it on and the one that resets it.
pub open spec fn styled(on: Seq<char>, off: Seq<char>, text: Seq<char>) -> Seq<char> {
    sgr(on) + text + sgr(off)
}

/// Dim text (`ESC[2m` ... `ESC[0m`).
pub open spec fn dimmed_spec(text: Seq<char>) -> Seq<char> {
    styled(seq!['2'], seq!['0'], text)
}

/// Bold text (`ESC[1m` ... `ESC[0m`).
pub open spec fn bold_spec(text: Seq<char>) -> Seq<char> {
    styled(seq!['1'], seq!['0'], text)
}

/// Red foreground (`ESC[31m` ... `ESC[39m`).
pub open spec fn red_spec(text: Seq<char>) -> Seq<char> {
    styled(seq!['3', '1'], seq!['3', '9'], text)
}

/// Green foreground (`ESC[32m` ... `ESC[39m`).
pub open spec fn green_spec(text: Seq<char>) -> Seq<char> {
    styled(seq!['3', '2'], seq!['3', '9'], text)
}

/// Yellow foreground (`ESC[33m` ... `ESC[39m`).
pub open spec fn yellow_spec(text: Seq<char>) -> Seq<char> {
    styled(seq!['3', '3'], seq!['3', '9'], text)
}

/// Cyan foreground (`ESC[36m` ... `ESC[39m`).
pub open spec fn cyan_spec(text: Seq<char>) -> Seq<char> {
    styled(seq!['3', '6'], seq!['3', '9'], text)
}

/// Renders `text.dimmed()` of `owo_colors::OwoColorize`; its `Display` writes
/// `ESC[2m`, the text, then `ESC[0m`.
#[verifier::external_body]
pub(crate) fn paint_dimmed(text: &str) -> (r: String)
    ensures
        r@ == dimmed_spec(text@),
{
    format!("{}", text.dimmed())
}

/// Renders `text.bold()` of `owo_colors::OwoColorize`; its `Display` writes
/// `ESC[1m`, the text, then `ESC[0m`.
#[verifier::external_body]
pub(crate) fn paint_bold(text: &str) -> (r: String)
    ensures
        r@ == bold_spec(text@),
{
    format!("{}", text.bold())
}

/// Renders `text.red()` of `owo_colors::OwoColorize`; its `Display` writes
/// `ESC[31m`, the text, then `ESC[39m`.
#[verifier::external_body]
pub(crate) fn paint_red(text: &str) -> (r: String)
    ensures
        r@ == red_spec(text@),
{
    format!("{}", text.red())
}

/// Renders `text.green()` of `owo_colors::OwoColorize`; its `Display` writes
/// `ESC[32m`, the text, then `ESC[39m`.
#[verifier::external_body]
pub(crate) fn paint_green(text: &str) -> (r: String)
    ensures
        r@ == green_spec(text@),
{
    format!("{}", text.green())
}

/// Renders `text.yellow()` of `owo_colors::OwoColorize`; its `Display` writes
/// `ESC[33m`, the text, then `ESC[39m`.
#[verifier::external_body]
pub(crate) fn paint_yellow(text: &str) -> (r: String)
    ensures
        r@ == yellow_spec(text@),
{
    format!("{}", text.yellow())
}

/// Renders `text.cyan()` of `owo_colors::OwoColorize`; its `Display` writes
/// `ESC[36m`, the text, then `ESC[39m`.
#[verifier::external_body]
pub(crate) fn paint_cyan(text: &str) -> (r: String)
    ensures
        r@ == cyan_spec(text@),
{
    format!("{}", text.cyan())
}

} // verus!
