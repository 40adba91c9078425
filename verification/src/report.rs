//! Progress lines: one per step, numbered `[i/N]`.

use vstd::prelude::*;
use vstd::string::*;
use crate::text::{decimal, decimal_text};

verus! {

/// How many steps a run has. Every progress line names it.
pub const TOTAL_STEPS: usize = 8;

/// How a step went, which decides the colour of its line.
#[derive(Clone, Copy, Debug, PartialEq, Eq, Structural)]
pub enum Tone {
    /// The step did its work.
    Success,
    /// The step had nothing to do.
    Skipped,
    /// The step failed; the run goes on.
    Failure,
}

/// A colour of the terminal, by its red, green and blue parts.
#[derive(Clone, Copy, Debug, PartialEq, Eq, Structural)]
pub struct Colour {
    pub red: u8,
    pub green: u8,
    pub blue: u8,
}

impl Tone {
    /// The colour of the bold parts of a line: green for a success, yellow
    /// for a step that was skipped, red for a failure.
    pub open spec fn bold_colour(self) -> Colour {
        match self {
            Tone::Success => Colour { red: 50, green: 205, blue: 50 },
            Tone::Skipped => Colour { red: 255, green: 255, blue: 51 },
            Tone::Failure => Colour { red: 255, green: 0, blue: 0 },
        }
    }

    /// The colour of the italic parts of a line: the same magenta for
    /// every tone.
    pub open spec fn italic_colour(self) -> Colour {
        Colour { red: 139, green: 0, blue: 139 }
    }

    /// The colour in which the bold parts of a line are shown.
    pub fn bold(self) -> (colour: Colour)
        ensures
            colour == self.bold_colour(),
    {
        match self {
            Tone::Success => Colour { red: 50, green: 205, blue: 50 },
            Tone::Skipped => Colour { red: 255, green: 255, blue: 51 },
            Tone::Failure => Colour { red: 255, green: 0, blue: 0 },
        }
    }

    /// The colour in which the italic parts of a line are shown.
    pub fn italic(self) -> (colour: Colour)
        ensures
            colour == self.italic_colour(),
    {
        Colour { red: 139, green: 0, blue: 139 }
    }
}

/// One progress line, in inline Markdown: bold for the step number, italic
/// for names and errors. It ends with a line feed.
#[derive(Clone, Debug)]
pub struct Report {
    pub tone: Tone,
    pub text: String,
}

/// A progress line as the contracts see it.
pub struct ReportView {
    pub tone: Tone,
    pub text: Seq<char>,
}

impl View for Report {
    type V = ReportView;

    open spec fn view(&self) -> ReportView {
        ReportView { tone: self.tone, text: self.text@ }
    }
}

/// The bold head of a line: `**[<step>/<total>]** `.
pub open spec fn tag(step: nat) -> Seq<char> {
    "**["@ + decimal(step) + "/"@ + decimal(TOTAL_STEPS as nat) + "]** "@
}

/// The whole line of a step: its head, then what happened.
pub open spec fn line(tone: Tone, step: nat, body: Seq<char>) -> ReportView {
    ReportView { tone, text: tag(step) + body }
}

/// Numbers `body` as the line of step `step`.
pub fn progress_line(tone: Tone, step: usize, body: &str) -> (report: Report)
    ensures
        report@ == line(tone, step as nat, body@),
{
    let mut text = String::from_str("**[");
    let number = decimal_text(step);
    text.append(number.as_str());
    text.append("/");
    let total = decimal_text(TOTAL_STEPS);
    text.append(total.as_str());
    text.append("]** ");
    text.append(body);
    assert(text@ =~= tag(step as nat) + body@);
    Report { tone, text }
}

} // verus!
