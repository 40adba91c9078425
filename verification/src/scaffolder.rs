//! The run, step by step.
//!
//! A [`Scaffolder`] names the next [`Action`]; the caller performs it and
//! reports the [`Outcome`]; [`Scaffolder::advance`] answers with the progress
//! line and the state of the next step. No failure ends the run.

use vstd::prelude::*;
use vstd::string::*;
use crate::report::{line, progress_line, Report, ReportView, Tone, TOTAL_STEPS};
use crate::template::{main_content, main_source, makefile_content, makefile_source};
use crate::text::name_of;

verus! {

/// What the user asked for. It does not change during a run.
#[derive(Clone, Debug)]
pub struct Options {
    /// The root directory of the project, as it is shown to the user.
    pub name: String,
    /// The name of the input file, if one is wanted.
    pub input: Option<String>,
    /// The name of the output file, if one is wanted.
    pub output: Option<String>,
    /// Whether to make the root directory a git repository.
    pub git: bool,
}

/// The options as the contracts see them.
pub struct OptionsView {
    pub name: Seq<char>,
    pub input: Option<Seq<char>>,
    pub output: Option<Seq<char>>,
    pub git: bool,
}

impl View for Options {
    type V = OptionsView;

    open spec fn view(&self) -> OptionsView {
        OptionsView {
            name: self.name@,
            input: name_of(self.input),
            output: name_of(self.output),
            git: self.git,
        }
    }
}

/// The steps of a run, in their order.
#[derive(Clone, Copy, Debug, PartialEq, Eq, Structural)]
pub enum Phase {
    Directory,
    Input,
    Output,
    CreateMain,
    WriteMain,
    CreateMakefile,
    WriteMakefile,
    Repository,
    Finished,
}

/// What the caller is to do for the step at hand.
#[derive(Clone, Debug)]
pub enum Action {
    /// Create the root directory and its missing parents.
    CreateDirectory,
    /// Create the named file, empty, in the root directory.
    TouchFile(String),
    /// Create the named file in the root directory and keep it open.
    CreateFile(String),
    /// Write the text to the named file, created in the step before.
    WriteFile(String, String),
    /// Make the root directory a git repository.
    InitRepository,
    /// Nothing: the step only reports.
    Nothing,
    /// The run is over.
    Finished,
}

/// An action as the contracts see it.
pub enum ActionView {
    CreateDirectory,
    TouchFile(Seq<char>),
    CreateFile(Seq<char>),
    WriteFile(Seq<char>, Seq<char>),
    InitRepository,
    Nothing,
    Finished,
}

impl View for Action {
    type V = ActionView;

    open spec fn view(&self) -> ActionView {
        match *self {
            Action::CreateDirectory => ActionView::CreateDirectory,
            Action::TouchFile(name) => ActionView::TouchFile(name@),
            Action::CreateFile(name) => ActionView::CreateFile(name@),
            Action::WriteFile(name, text) => ActionView::WriteFile(name@, text@),
            Action::InitRepository => ActionView::InitRepository,
            Action::Nothing => ActionView::Nothing,
            Action::Finished => ActionView::Finished,
        }
    }
}

/// How the action of a step went. A failure carries the error's text.
#[derive(Clone, Debug)]
pub enum Outcome {
    Succeeded,
    Failed(String),
}

/// An outcome as the contracts see it.
pub enum OutcomeView {
    Succeeded,
    Failed(Seq<char>),
}

impl View for Outcome {
    type V = OutcomeView;

    open spec fn view(&self) -> OutcomeView {
        match *self {
            Outcome::Succeeded => OutcomeView::Succeeded,
            Outcome::Failed(error) => OutcomeView::Failed(error@),
        }
    }
}

/// The state of a run as the contracts see it.
pub struct State {
    pub options: OptionsView,
    pub phase: Phase,
    /// The number that the next progress line shows.
    pub step: nat,
    /// Whether the input file was asked for and created.
    pub has_input: bool,
    /// Whether the output file was asked for and created.
    pub has_output: bool,
}

/// The place of a phase in the run, from 0.
pub open spec fn rank(phase: Phase) -> nat {
    match phase {
        Phase::Directory => 0,
        Phase::Input => 1,
        Phase::Output => 2,
        Phase::CreateMain => 3,
        Phase::WriteMain => 4,
        Phase::CreateMakefile => 5,
        Phase::WriteMakefile => 6,
        Phase::Repository => 7,
        Phase::Finished => 8,
    }
}

/// How many writes were skipped, at most, before a phase: one for each of
/// the two files whose creation may have failed.
pub open spec fn slack(phase: Phase) -> nat {
    match phase {
        Phase::CreateMakefile | Phase::WriteMakefile => 1,
        Phase::Repository | Phase::Finished => 2,
        _ => 0,
    }
}

/// The name of the generated source file.
pub const MAIN_FILE: &'static str = "main.cpp";

/// The name of the generated build file.
pub const MAKE_FILE: &'static str = "Makefile";

impl State {
    /// The state before the first step.
    pub open spec fn initial(options: OptionsView) -> State {
        State { options, phase: Phase::Directory, step: 1, has_input: false, has_output: false }
    }

    /// The states that a run can be in. The step number is one more than
    /// the phase's rank, less one for each write that was skipped; a file
    /// counts as created only from the step after its own, and only if it
    /// was asked for.
    pub open spec fn well_formed(self) -> bool {
        &&& self.step <= rank(self.phase) + 1
        &&& rank(self.phase) + 1 <= self.step + slack(self.phase)
        &&& self.has_input ==> self.options.input is Some && rank(self.phase) > rank(Phase::Input)
        &&& self.has_output ==> self.options.output is Some && rank(self.phase) > rank(
            Phase::Output,
        )
    }

    /// The input file's name, if the file exists.
    pub open spec fn input_file(self) -> Option<Seq<char>> {
        if self.has_input {
            self.options.input
        } else {
            None
        }
    }

    /// The output file's name, if the file exists.
    pub open spec fn output_file(self) -> Option<Seq<char>> {
        if self.has_output {
            self.options.output
        } else {
            None
        }
    }

    /// What is to be done in this state.
    pub open spec fn pending(self) -> ActionView {
        match self.phase {
            Phase::Directory => ActionView::CreateDirectory,
            Phase::Input => match self.options.input {
                Some(name) => ActionView::TouchFile(name),
                None => ActionView::Nothing,
            },
            Phase::Output => match self.options.output {
                Some(name) => ActionView::TouchFile(name),
                None => ActionView::Nothing,
            },
            Phase::CreateMain => ActionView::CreateFile(MAIN_FILE@),
            Phase::WriteMain => ActionView::WriteFile(
                MAIN_FILE@,
                main_source(self.input_file(), self.output_file()),
            ),
            Phase::CreateMakefile => ActionView::CreateFile(MAKE_FILE@),
            Phase::WriteMakefile => ActionView::WriteFile(
                MAKE_FILE@,
                makefile_source(self.input_file(), self.output_file()),
            ),
            Phase::Repository => if self.options.git {
                ActionView::InitRepository
            } else {
                ActionView::Nothing
            },
            Phase::Finished => ActionView::Finished,
        }
    }

    /// The phase that follows, given how the action went. Only a file that
    /// could not be created changes the course: there is nothing to write
    /// to, so its write is left out.
    pub open spec fn next_phase(self, outcome: OutcomeView) -> Phase {
        match self.phase {
            Phase::Directory => Phase::Input,
            Phase::Input => Phase::Output,
            Phase::Output => Phase::CreateMain,
            Phase::CreateMain => if outcome is Succeeded {
                Phase::WriteMain
            } else {
                Phase::CreateMakefile
            },
            Phase::WriteMain => Phase::CreateMakefile,
            Phase::CreateMakefile => if outcome is Succeeded {
                Phase::WriteMakefile
            } else {
                Phase::Repository
            },
            Phase::WriteMakefile => Phase::Repository,
            Phase::Repository => Phase::Finished,
            Phase::Finished => Phase::Finished,
        }
    }

    /// The state after the action of this one went as `outcome` says. Each
    /// step adds one to the step number, whatever happened.
    pub open spec fn next(self, outcome: OutcomeView) -> State {
        if self.phase == Phase::Finished {
            self
        } else {
            State {
                options: self.options,
                phase: self.next_phase(outcome),
                step: self.step + 1,
                has_input: if self.phase == Phase::Input {
                    self.options.input is Some && outcome is Succeeded
                } else {
                    self.has_input
                },
                has_output: if self.phase == Phase::Output {
                    self.options.output is Some && outcome is Succeeded
                } else {
                    self.has_output
                },
            }
        }
    }

    /// What the line of this step says after its number.
    pub open spec fn message(self, outcome: OutcomeView) -> Seq<char> {
        match (self.phase, outcome) {
            (Phase::Directory, OutcomeView::Succeeded) => "Successfully created main folder: *"@
                + self.options.name + "*\n"@,
            (Phase::Directory, OutcomeView::Failed(error)) => "Failed to create main folder: *"@
                + error + "*\n"@,
            (Phase::Input, _) => match (self.options.input, outcome) {
                (None, _) => "No input file provided\n"@,
                (Some(name), OutcomeView::Succeeded) => "Successfully created input file: *"@
                    + name + "*\n"@,
                (Some(_), OutcomeView::Failed(error)) => "Failed to create input file: *"@ + error
                    + "*\n"@,
            },
            (Phase::Output, _) => match (self.options.output, outcome) {
                (None, _) => "No output file provided\n"@,
                (Some(name), OutcomeView::Succeeded) => "Successfully created output file: *"@
                    + name + "*\n"@,
                (Some(_), OutcomeView::Failed(error)) => "Failed to create output file: *"@
                    + error + "*\n"@,
            },
            (Phase::CreateMain, OutcomeView::Succeeded) => created(MAIN_FILE@),
            (Phase::CreateMain, OutcomeView::Failed(error)) => not_created(MAIN_FILE@, error),
            (Phase::WriteMain, OutcomeView::Succeeded) => written(MAIN_FILE@),
            (Phase::WriteMain, OutcomeView::Failed(error)) => not_written(MAIN_FILE@, error),
            (Phase::CreateMakefile, OutcomeView::Succeeded) => created(MAKE_FILE@),
            (Phase::CreateMakefile, OutcomeView::Failed(error)) => not_created(MAKE_FILE@, error),
            (Phase::WriteMakefile, OutcomeView::Succeeded) => written(MAKE_FILE@),
            (Phase::WriteMakefile, OutcomeView::Failed(error)) => not_written(MAKE_FILE@, error),
            (Phase::Repository, _) => if !self.options.git {
                "*git* was not initialized\n"@
            } else {
                match outcome {
                    OutcomeView::Succeeded => "Successfully initialized *git*\n"@,
                    OutcomeView::Failed(error) => "Failed to initialize *git*: "@ + error + "\n"@,
                }
            },
            (Phase::Finished, _) => Seq::empty(),
        }
    }

    /// The colour of this step's line: a step without an action is
    /// skipped, the others succeed or fail as their action did.
    pub open spec fn tone(self, outcome: OutcomeView) -> Tone {
        if self.pending() is Nothing {
            Tone::Skipped
        } else if outcome is Succeeded {
            Tone::Success
        } else {
            Tone::Failure
        }
    }

    /// The progress line of this step; none once the run is over.
    pub open spec fn report(self, outcome: OutcomeView) -> Option<ReportView> {
        if self.phase == Phase::Finished {
            None
        } else {
            Some(line(self.tone(outcome), self.step, self.message(outcome)))
        }
    }
}

/// What is said of a file that was created.
pub open spec fn created(name: Seq<char>) -> Seq<char> {
    "Successfully created: *"@ + name + "*\n"@
}

/// What is said of a file that could not be created.
pub open spec fn not_created(name: Seq<char>, error: Seq<char>) -> Seq<char> {
    "Failed to create *"@ + name + "*: "@ + error + "\n"@
}

/// What is said of a file whose text was written.
pub open spec fn written(name: Seq<char>) -> Seq<char> {
    "Successfully initialized: *"@ + name + "*\n"@
}

/// What is said of a file whose text could not be written.
pub open spec fn not_written(name: Seq<char>, error: Seq<char>) -> Seq<char> {
    "Failed to initialize *"@ + name + "*: "@ + error + "\n"@
}

/// `lead`, `detail` and `tail` in a row.
fn framed(lead: &str, detail: &str, tail: &str) -> (text: String)
    ensures
        text@ == lead@ + detail@ + tail@,
{
    let mut text = String::from_str(lead);
    text.append(detail);
    text.append(tail);
    text
}

/// The body of the line for a file that was created.
fn created_text(name: &str) -> (text: String)
    ensures
        text@ == created(name@),
{
    framed("Successfully created: *", name, "*\n")
}

/// The body of the line for a file that could not be created.
fn not_created_text(name: &str, error: &str) -> (text: String)
    ensures
        text@ == not_created(name@, error@),
{
    let mut text = framed("Failed to create *", name, "*: ");
    text.append(error);
    text.append("\n");
    text
}

/// The body of the line for a file that was written.
fn written_text(name: &str) -> (text: String)
    ensures
        text@ == written(name@),
{
    framed("Successfully initialized: *", name, "*\n")
}

/// The body of the line for a file that could not be written.
fn not_written_text(name: &str, error: &str) -> (text: String)
    ensures
        text@ == not_written(name@, error@),
{
    let mut text = framed("Failed to initialize *", name, "*: ");
    text.append(error);
    text.append("\n");
    text
}

fn copy_of(name: &Option<String>) -> (copy: Option<String>)
    ensures
        name_of(copy) == name_of(*name),
{
    match name {
        Some(n) => Some(n.clone()),
        None => None,
    }
}

/// A run in progress.
pub struct Scaffolder {
    options: Options,
    phase: Phase,
    step: usize,
    has_input: bool,
    has_output: bool,
}

impl View for Scaffolder {
    type V = State;

    closed spec fn view(&self) -> State {
        State {
            options: self.options@,
            phase: self.phase,
            step: self.step as nat,
            has_input: self.has_input,
            has_output: self.has_output,
        }
    }
}

impl Scaffolder {
    #[verifier::type_invariant]
    spec fn valid(self) -> bool {
        self@.well_formed()
    }

    /// Starts a run: nothing is done yet, the first step is the directory.
    pub fn new(options: Options) -> (run: Scaffolder)
        ensures
            run@ == State::initial(options@),
            run@.well_formed(),
    {
        Scaffolder { options, phase: Phase::Directory, step: 1, has_input: false, has_output: false }
    }

    /// What the user asked for.
    pub fn options(&self) -> (options: &Options)
        ensures
            options@ == self@.options,
    {
        &self.options
    }

    /// The step at hand.
    pub fn phase(&self) -> (phase: Phase)
        ensures
            phase == self@.phase,
    {
        self.phase
    }

    /// The number that the next progress line shows. Before the run is
    /// over it lies between 1 and the total.
    pub fn step(&self) -> (step: usize)
        ensures
            step == self@.step,
            self@.well_formed(),
            self@.phase != Phase::Finished ==> 1 <= step <= TOTAL_STEPS,
    {
        proof {
            use_type_invariant(self);
        }
        self.step
    }

    /// Whether the input file was asked for and created.
    pub fn has_input(&self) -> (has: bool)
        ensures
            has == self@.has_input,
    {
        self.has_input
    }

    /// Whether the output file was asked for and created.
    pub fn has_output(&self) -> (has: bool)
        ensures
            has == self@.has_output,
    {
        self.has_output
    }

    /// Whether every step was taken.
    pub fn is_finished(&self) -> (finished: bool)
        ensures
            finished == (self@.phase == Phase::Finished),
    {
        self.phase == Phase::Finished
    }

    /// The text of `main.cpp` for the I/O files created so far.
    pub fn main_text(&self) -> (text: String)
        ensures
            text@ == main_source(self@.input_file(), self@.output_file()),
    {
        let input = if self.has_input { copy_of(&self.options.input) } else { None };
        let output = if self.has_output { copy_of(&self.options.output) } else { None };
        main_content(&input, &output)
    }

    /// The text of the `Makefile` for the I/O files created so far.
    pub fn makefile_text(&self) -> (text: String)
        ensures
            text@ == makefile_source(self@.input_file(), self@.output_file()),
    {
        let input = if self.has_input { copy_of(&self.options.input) } else { None };
        let output = if self.has_output { copy_of(&self.options.output) } else { None };
        makefile_content(&input, &output)
    }

    /// What the caller is to do now.
    pub fn action(&self) -> (action: Action)
        ensures
            action@ == self@.pending(),
    {
        match self.phase {
            Phase::Directory => Action::CreateDirectory,
            Phase::Input => match &self.options.input {
                Some(name) => Action::TouchFile(name.clone()),
                None => Action::Nothing,
            },
            Phase::Output => match &self.options.output {
                Some(name) => Action::TouchFile(name.clone()),
                None => Action::Nothing,
            },
            Phase::CreateMain => Action::CreateFile(String::from_str(MAIN_FILE)),
            Phase::WriteMain => Action::WriteFile(String::from_str(MAIN_FILE), self.main_text()),
            Phase::CreateMakefile => Action::CreateFile(String::from_str(MAKE_FILE)),
            Phase::WriteMakefile => Action::WriteFile(
                String::from_str(MAKE_FILE),
                self.makefile_text(),
            ),
            Phase::Repository => if self.options.git {
                Action::InitRepository
            } else {
                Action::Nothing
            },
            Phase::Finished => Action::Finished,
        }
    }

    /// What the line of this step says after its number.
    fn message_text(&self, outcome: &Outcome) -> (text: String)
        ensures
            text@ == self@.message(outcome@),
    {
        match self.phase {
            Phase::Directory => match outcome {
                Outcome::Succeeded => framed(
                    "Successfully created main folder: *",
                    self.options.name.as_str(),
                    "*\n",
                ),
                Outcome::Failed(error) => framed(
                    "Failed to create main folder: *",
                    error.as_str(),
                    "*\n",
                ),
            },
            Phase::Input => match (&self.options.input, outcome) {
                (None, _) => String::from_str("No input file provided\n"),
                (Some(name), Outcome::Succeeded) => framed(
                    "Successfully created input file: *",
                    name.as_str(),
                    "*\n",
                ),
                (Some(_), Outcome::Failed(error)) => framed(
                    "Failed to create input file: *",
                    error.as_str(),
                    "*\n",
                ),
            },
            Phase::Output => match (&self.options.output, outcome) {
                (None, _) => String::from_str("No output file provided\n"),
                (Some(name), Outcome::Succeeded) => framed(
                    "Successfully created output file: *",
                    name.as_str(),
                    "*\n",
                ),
                (Some(_), Outcome::Failed(error)) => framed(
                    "Failed to create output file: *",
                    error.as_str(),
                    "*\n",
                ),
            },
            Phase::CreateMain => match outcome {
                Outcome::Succeeded => created_text(MAIN_FILE),
                Outcome::Failed(error) => not_created_text(MAIN_FILE, error.as_str()),
            },
            Phase::WriteMain => match outcome {
                Outcome::Succeeded => written_text(MAIN_FILE),
                Outcome::Failed(error) => not_written_text(MAIN_FILE, error.as_str()),
            },
            Phase::CreateMakefile => match outcome {
                Outcome::Succeeded => created_text(MAKE_FILE),
                Outcome::Failed(error) => not_created_text(MAKE_FILE, error.as_str()),
            },
            Phase::WriteMakefile => match outcome {
                Outcome::Succeeded => written_text(MAKE_FILE),
                Outcome::Failed(error) => not_written_text(MAKE_FILE, error.as_str()),
            },
            Phase::Repository => if !self.options.git {
                String::from_str("*git* was not initialized\n")
            } else {
                match outcome {
                    Outcome::Succeeded => String::from_str("Successfully initialized *git*\n"),
                    Outcome::Failed(error) => framed(
                        "Failed to initialize *git*: ",
                        error.as_str(),
                        "\n",
                    ),
                }
            },
            Phase::Finished => String::new(),
        }
    }

    /// The colour of this step's line.
    fn tone_of(&self, outcome: &Outcome) -> (tone: Tone)
        ensures
            tone == self@.tone(outcome@),
    {
        let idle = match self.phase {
            Phase::Input => self.options.input.is_none(),
            Phase::Output => self.options.output.is_none(),
            Phase::Repository => !self.options.git,
            _ => false,
        };
        if idle {
            Tone::Skipped
        } else {
            match outcome {
                Outcome::Succeeded => Tone::Success,
                Outcome::Failed(_) => Tone::Failure,
            }
        }
    }

    /// Takes note of how the action went: answers with the step's progress
    /// line and the run at its next step. Once the run is over there is no
    /// line, and nothing changes.
    pub fn advance(self, outcome: &Outcome) -> (next: (Scaffolder, Option<Report>))
        ensures
            next.0@ == self@.next(outcome@),
            next.0@.well_formed(),
            match next.1 {
                Some(report) => self@.report(outcome@) == Some(report@),
                None => self@.report(outcome@) is None,
            },
    {
        proof {
            use_type_invariant(&self);
        }
        if self.phase == Phase::Finished {
            return (self, None);
        }
        let body = self.message_text(outcome);
        let report = progress_line(self.tone_of(outcome), self.step, body.as_str());
        let succeeded = match outcome {
            Outcome::Succeeded => true,
            Outcome::Failed(_) => false,
        };
        let phase = match self.phase {
            Phase::Directory => Phase::Input,
            Phase::Input => Phase::Output,
            Phase::Output => Phase::CreateMain,
            Phase::CreateMain => if succeeded {
                Phase::WriteMain
            } else {
                Phase::CreateMakefile
            },
            Phase::WriteMain => Phase::CreateMakefile,
            Phase::CreateMakefile => if succeeded {
                Phase::WriteMakefile
            } else {
                Phase::Repository
            },
            Phase::WriteMakefile => Phase::Repository,
            Phase::Repository => Phase::Finished,
            Phase::Finished => Phase::Finished,
        };
        let has_input = if self.phase == Phase::Input {
            self.options.input.is_some() && succeeded
        } else {
            self.has_input
        };
        let has_output = if self.phase == Phase::Output {
            self.options.output.is_some() && succeeded
        } else {
            self.has_output
        };
        let step: usize = self.step + 1;
        let run = Scaffolder { options: self.options, phase, step, has_input, has_output };
        (run, Some(report))
    }
}

} // verus!
