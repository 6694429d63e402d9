//! What the command line decides about the output, apart from reading the
//! arguments and writing to the terminal.

use vstd::prelude::*;
use vstd::string::StringExecFns;
use crate::repos::text::has_prefix;
use crate::repos::text::starts_with;

verus! {

/// Whether the output is written in color.
#[derive(Clone, Copy, Debug, PartialEq, Eq, Structural)]
pub enum ColorChoice {
    /// In color when the output goes to a terminal that supports it.
    Auto,
    /// Always in color.
    Always,
    /// Never in color.
    Never,
}

impl Default for ColorChoice {
    fn default() -> (choice: ColorChoice)
        ensures
            choice == ColorChoice::Auto,
    {
        ColorChoice::Auto
    }
}

impl ColorChoice {
    /// The choice for a stream: `Auto` on a stream that is no terminal is
    /// `Never`, and every other choice stands.
    pub open spec fn on_stream_spec(self, is_terminal: bool) -> ColorChoice {
        if self == ColorChoice::Auto && !is_terminal {
            ColorChoice::Never
        } else {
            self
        }
    }

    /// Settles the choice for a stream of which it is known whether it is
    /// a terminal.
    pub fn on_stream(self, is_terminal: bool) -> (choice: ColorChoice)
        ensures
            choice == self.on_stream_spec(is_terminal),
    {
        match self {
            ColorChoice::Auto => if is_terminal {
                ColorChoice::Auto
            } else {
                ColorChoice::Never
            },
            ColorChoice::Always => ColorChoice::Always,
            ColorChoice::Never => ColorChoice::Never,
        }
    }
}

/// The text in lower case, as `str::to_lowercase` gives it.
pub uninterp spec fn lowercase_of(text: Seq<char>) -> Seq<char>;

/// Calls `str::to_lowercase`.
#[verifier::external_body]
fn lowercase(text: &str) -> (lower: String)
    ensures
        lower@ == lowercase_of(text@),
{
    text.to_lowercase()
}

/// The line that reports a failure: the message with a line end, and with
/// `Error: ` in front of it unless it begins with the word itself, in
/// whatever case.
pub open spec fn failure_line_of(message: Seq<char>) -> Seq<char> {
    if has_prefix(lowercase_of(message + "\n"@), "error"@) {
        message + "\n"@
    } else {
        "Error: "@ + (message + "\n"@)
    }
}

/// Makes the line that reports a failure.
pub fn failure_line(message: &str) -> (line: String)
    ensures
        line@ == failure_line_of(message@),
{
    let line = String::from_str(message).concat("\n");
    let lower = lowercase(line.as_str());
    if starts_with(lower.as_str(), "error") {
        line
    } else {
        String::from_str("Error: ").concat(line.as_str())
    }
}

} // verus!
