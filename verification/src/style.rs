//! Terminal styling of the messages that the server prints.

use vstd::prelude::*;

verus! {

/// A foreground colour of the terminal.
#[derive(Clone, Copy, Debug, PartialEq, Eq)]
pub enum Tint {
    Red,
    Yellow,
    Blue,
}

/// The number by which a select-graphic-rendition sequence names the colour.
pub open spec fn tint_code(tint: Tint) -> Seq<char> {
    match tint {
        Tint::Red => "31"@,
        Tint::Yellow => "33"@,
        Tint::Blue => "34"@,
    }
}

/// The code for bold text.
pub open spec fn bold_code() -> Seq<char> {
    "1"@
}

/// `text` between the escape sequence that switches the style `code` on and
/// the one that resets every style.
pub open spec fn styled(code: Seq<char>, text: Seq<char>) -> Seq<char> {
    "\u{1b}["@ + code + "m"@ + text + "\u{1b}[0m"@
}

/// `ansi_term::Colour::paint`, written out as a string. For a plain foreground
/// colour the crate writes `ESC [`, the colour's number and `m`, then the text
/// unchanged, then the reset sequence `ESC [ 0 m`.
#[verifier::external_body]
pub(crate) fn paint(tint: Tint, text: &str) -> (out: String)
    ensures
        out@ == styled(tint_code(tint), text@),
{
    let colour = match tint {
        Tint::Red => ansi_term::Colour::Red,
        Tint::Yellow => ansi_term::Colour::Yellow,
        Tint::Blue => ansi_term::Colour::Blue,
    };
    colour.paint(text).to_string()
}

/// `ansi_term::Style::paint` on the bold style, written out as a string:
/// `ESC [ 1 m`, the text unchanged, and the reset sequence.
#[verifier::external_body]
pub(crate) fn paint_bold(text: &str) -> (out: String)
    ensures
        out@ == styled(bold_code(), text@),
{
    ansi_term::Style::new().bold().paint(text).to_string()
}

} // verus!
