//! Terminal styles for the severity label and the diagnostic code.
//!
//! Styling is an overlay on finished text: a caller that sets `color` to
//! `false` gets the text itself.

use crate::severity::Severity;
use owo_colors::OwoColorize;
use vstd::prelude::*;

verus! {

/// The styles that a report uses.
#[derive(Clone, Copy, Debug, PartialEq, Eq, Structural)]
pub enum Style {
    BrightRed,
    BrightYellow,
    BrightWhite,
    BrightCyan,
    Bold,
}

/// The terminal control sequence with the given parameter: escape, `[`, the
/// parameter, `m`.
pub open spec fn control_sequence(parameter: Seq<char>) -> Seq<char> {
    seq!['\u{1b}', '['] + parameter + seq!['m']
}

impl Style {
    /// The sequence that switches the style on.
    pub open spec fn prefix(self) -> Seq<char> {
        match self {
            Style::BrightRed => control_sequence(seq!['9', '1']),
            Style::BrightYellow => control_sequence(seq!['9', '3']),
            Style::BrightWhite => control_sequence(seq!['9', '7']),
            Style::BrightCyan => control_sequence(seq!['9', '6']),
            Style::Bold => control_sequence(seq!['1']),
        }
    }

    /// The sequence that switches the style off again: the default foreground
    /// after a color, a full reset after bold.
    pub open spec fn suffix(self) -> Seq<char> {
        match self {
            Style::Bold => control_sequence(seq!['0']),
            _ => control_sequence(seq!['3', '9']),
        }
    }

    /// Text in this style.
    pub open spec fn applied(self, text: Seq<char>) -> Seq<char> {
        self.prefix() + text + self.suffix()
    }

    /// The style of a severity level's label.
    pub open spec fn of_severity(level: Severity) -> Style {
        match level {
            Severity::Error => Style::BrightRed,
            Severity::Warning => Style::BrightYellow,
            Severity::Information => Style::BrightWhite,
            Severity::Hint => Style::BrightCyan,
        }
    }

    /// The style of a severity level's label: bright red for an error, yellow
    /// for a warning, white for an information, cyan for a hint.
    pub fn for_severity(level: Severity) -> (style: Style)
        ensures
            style == Style::of_severity(level),
    {
        match level {
            Severity::Error => Style::BrightRed,
            Severity::Warning => Style::BrightYellow,
            Severity::Information => Style::BrightWhite,
            Severity::Hint => Style::BrightCyan,
        }
    }

    /// Text in this style.
    pub fn paint(self, text: &str) -> (painted: String)
        ensures
            painted@ == self.applied(text@),
    {
        match self {
            Style::BrightRed => bright_red(text),
            Style::BrightYellow => bright_yellow(text),
            Style::BrightWhite => bright_white(text),
            Style::BrightCyan => bright_cyan(text),
            Style::Bold => bold(text),
        }
    }
}

/// The text as it is, or in the given style where `color` is set.
pub open spec fn styled_text(style: Style, text: Seq<char>, color: bool) -> Seq<char> {
    if color {
        style.applied(text)
    } else {
        text
    }
}

/// The text as it is, or in the given style where `color` is set.
pub fn styled(style: Style, text: &str, color: bool) -> (out: String)
    ensures
        out@ == styled_text(style, text@, color),
{
    if color {
        style.paint(text)
    } else {
        String::from_str(text)
    }
}

/// `OwoColorize::bright_red` of owo_colors, formatted: the text between the
/// sequence for foreground color 91 and the one for the default foreground.
#[verifier::external_body]
fn bright_red(text: &str) -> (painted: String)
    ensures
        painted@ == Style::BrightRed.applied(text@),
{
    text.bright_red().to_string()
}

/// `OwoColorize::bright_yellow` of owo_colors, formatted: the text between the
/// sequence for foreground color 93 and the one for the default foreground.
#[verifier::external_body]
fn bright_yellow(text: &str) -> (painted: String)
    ensures
        painted@ == Style::BrightYellow.applied(text@),
{
    text.bright_yellow().to_string()
}

/// `OwoColorize::bright_white` of owo_colors, formatted: the text between the
/// sequence for foreground color 97 and the one for the default foreground.
#[verifier::external_body]
fn bright_white(text: &str) -> (painted: String)
    ensures
        painted@ == Style::BrightWhite.applied(text@),
{
    text.bright_white().to_string()
}

/// `OwoColorize::bright_cyan` of owo_colors, formatted: the text between the
/// sequence for foreground color 96 and the one for the default foreground.
#[verifier::external_body]
fn bright_cyan(text: &str) -> (painted: String)
    ensures
        painted@ == Style::BrightCyan.applied(text@),
{
    text.bright_cyan().to_string()
}

/// `OwoColorize::bold` of owo_colors, formatted: the text between the sequence
/// for bold and the one that resets all attributes.
#[verifier::external_body]
fn bold(text: &str) -> (painted: String)
    ensures
        painted@ == Style::Bold.applied(text@),
{
    text.bold().to_string()
}

} // verus!
