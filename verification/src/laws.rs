//! What holds of every run and of every generated file.

use vstd::prelude::*;
use crate::report::TOTAL_STEPS;
use crate::scaffolder::{rank, OptionsView, OutcomeView, Phase, State};
use crate::template::{
    file_variable, main_source, makefile_source, stream_declaration, touched,
};

verus! {

/// `piece` stands somewhere in `text`, in one run of characters.
pub open spec fn contains(text: Seq<char>, piece: Seq<char>) -> bool {
    exists|at: int|
        0 <= at && at + piece.len() <= text.len() && #[trigger] text.subrange(
            at,
            at + piece.len(),
        ) == piece
}

/// `piece` stands in `before + piece + after`.
pub proof fn lemma_contains_middle(before: Seq<char>, piece: Seq<char>, after: Seq<char>)
    ensures
        contains(before + piece + after, piece),
{
    let text = before + piece + after;
    let at = before.len() as int;
    assert(text.subrange(at, at + piece.len()) =~= piece);
}

/// The state of a run after the outcomes of its first steps, in order.
pub open spec fn run(start: State, outcomes: Seq<OutcomeView>) -> State
    decreases outcomes.len(),
{
    if outcomes.len() == 0 {
        start
    } else {
        run(start, outcomes.drop_last()).next(outcomes.last())
    }
}

/// A run starts in a well-formed state.
pub proof fn lemma_initial_well_formed(options: OptionsView)
    ensures
        State::initial(options).well_formed(),
{
}

/// A step leads from a well-formed state to a well-formed state, whatever
/// its outcome, and leaves the options alone.
pub proof fn lemma_next_well_formed(state: State, outcome: OutcomeView)
    requires
        state.well_formed(),
    ensures
        state.next(outcome).well_formed(),
        state.next(outcome).options == state.options,
{
}

/// Before the run is over, the number shown lies between 1 and the total.
pub proof fn lemma_step_within_total(state: State)
    requires
        state.well_formed(),
        state.phase != Phase::Finished,
    ensures
        1 <= state.step <= TOTAL_STEPS,
{
}

/// No outcome holds a run up or ends it early. Every step moves on to the
/// phase that follows and raises the number by one; only the write of a
/// file that could not be created is left out.
pub proof fn lemma_failure_is_not_fatal(state: State, outcome: OutcomeView)
    requires
        state.phase != Phase::Finished,
    ensures
        state.next(outcome).step == state.step + 1,
        rank(state.next(outcome).phase) == rank(state.phase) + 1 || (rank(
            state.next(outcome).phase,
        ) == rank(state.phase) + 2 && outcome is Failed && (state.phase == Phase::CreateMain
            || state.phase == Phase::CreateMakefile)),
{
}

/// Where the directory cannot be created (it may exist already), the run
/// goes on exactly as if it had been.
pub proof fn lemma_directory_failure_goes_on(options: OptionsView, error: Seq<char>)
    ensures
        State::initial(options).next(OutcomeView::Failed(error)) == State::initial(options).next(
            OutcomeView::Succeeded,
        ),
        State::initial(options).next(OutcomeView::Failed(error)).phase == Phase::Input,
{
}

/// Every state of a run is well formed, and a run is over after as many
/// steps as the total, whatever their outcomes.
pub proof fn lemma_run_finishes(options: OptionsView, outcomes: Seq<OutcomeView>)
    ensures
        run(State::initial(options), outcomes).well_formed(),
        run(State::initial(options), outcomes).options == options,
        rank(run(State::initial(options), outcomes).phase) >= outcomes.len() || run(
            State::initial(options),
            outcomes,
        ).phase == Phase::Finished,
        outcomes.len() >= TOTAL_STEPS ==> run(State::initial(options), outcomes).phase
            == Phase::Finished,
    decreases outcomes.len(),
{
    if outcomes.len() > 0 {
        lemma_run_finishes(options, outcomes.drop_last());
    }
}

/// Every progress line ends with a line feed.
pub proof fn lemma_line_ends_with_line_feed(state: State, outcome: OutcomeView)
    requires
        state.phase != Phase::Finished,
    ensures
        state.report(outcome) is Some,
        state.report(outcome)->0.text.len() > 0,
        state.report(outcome)->0.text.last() == '\n',
{
    reveal_strlit("*\n");
    reveal_strlit("\n");
    reveal_strlit("No input file provided\n");
    reveal_strlit("No output file provided\n");
    reveal_strlit("*git* was not initialized\n");
    reveal_strlit("Successfully initialized *git*\n");
    let body = state.message(outcome);
    assert(body.len() > 0 && body.last() == '\n');
}

/// A repository is asked for in the last step of a run whose options want
/// one, and nowhere else.
pub proof fn lemma_repository_only_on_request(state: State)
    ensures
        state.pending() is InitRepository <==> state.phase == Phase::Repository
            && state.options.git,
{
}

/// Without I/O files `main.cpp` is the greeting program and no more: one
/// include and `main`, no stream.
pub proof fn lemma_plain_main_source()
    ensures
        main_source(None, None) == "#include<iostream>"@
            + "\nint main() {\n\tcout << \"Hello World!\" << endl;\n\treturn 0;\n}"@,
{
    assert(main_source(None, None) =~= "#include<iostream>"@
        + "\nint main() {\n\tcout << \"Hello World!\" << endl;\n\treturn 0;\n}"@);
}

/// Without I/O files the `Makefile` has no I/O block and no `io` target.
pub proof fn lemma_plain_makefile_source()
    ensures
        makefile_source(None, None)
            == "# the compiler\nCC = g++\n\n# compiler flags:\n#  -Wall turns on most, but not all, compiler warnings\nCFLAGS  = -Wall\n\n# the build target executable:\nTARGET = main"@
            + "\n\nall: $(TARGET)"@
            + "\n\t$(CC) $(CFLAGS) -o $(TARGET) $(TARGET).cpp && ./$(TARGET)"@
            + "\n\nclean:\n\t$(RM) $(TARGET)"@,
{
    assert(makefile_source(None, None)
        =~= "# the compiler\nCC = g++\n\n# compiler flags:\n#  -Wall turns on most, but not all, compiler warnings\nCFLAGS  = -Wall\n\n# the build target executable:\nTARGET = main"@
        + "\n\nall: $(TARGET)"@
        + "\n\t$(CC) $(CFLAGS) -o $(TARGET) $(TARGET).cpp && ./$(TARGET)"@
        + "\n\nclean:\n\t$(RM) $(TARGET)"@);
}

/// With an input file `main.cpp` includes `<fstream>`, opens the namespace
/// and declares the stream `in` on that file.
pub proof fn lemma_main_declares_input(name: Seq<char>, output: Option<Seq<char>>)
    ensures
        contains(main_source(Some(name), output), "\n#include<fstream>"@),
        contains(main_source(Some(name), output), "\n\nusing namespace std;\n"@),
        contains(main_source(Some(name), output), "\nifstream in(\""@ + name + "\");"@),
{
    let text = main_source(Some(name), output);
    let fstream = "\n#include<fstream>"@;
    let declaration = "\nifstream in(\""@ + name + "\");"@;
    let head = "#include<iostream>"@;
    let before = head + fstream + "\n\nusing namespace std;\n"@;
    let after = stream_declaration("\nofstream out(\""@, output) + "\n"@
        + "\nint main() {\n\tcout << \"Hello World!\" << endl;\n\treturn 0;\n}"@;
    assert(text =~= before + declaration + after);
    lemma_contains_middle(before, declaration, after);
    let rest = "\n\nusing namespace std;\n"@ + declaration + after;
    assert(text =~= head + fstream + rest);
    lemma_contains_middle(head, fstream, rest);
    assert(text =~= (head + fstream) + "\n\nusing namespace std;\n"@ + (declaration + after));
    lemma_contains_middle(head + fstream, "\n\nusing namespace std;\n"@, declaration + after);
}

/// With an output file `main.cpp` includes `<fstream>`, opens the
/// namespace and declares the stream `out` on that file.
pub proof fn lemma_main_declares_output(input: Option<Seq<char>>, name: Seq<char>)
    ensures
        contains(main_source(input, Some(name)), "\n#include<fstream>"@),
        contains(main_source(input, Some(name)), "\n\nusing namespace std;\n"@),
        contains(main_source(input, Some(name)), "\nofstream out(\""@ + name + "\");"@),
{
    let text = main_source(input, Some(name));
    let fstream = "\n#include<fstream>"@;
    let declaration = "\nofstream out(\""@ + name + "\");"@;
    let head = "#include<iostream>"@;
    let before = head + fstream + "\n\nusing namespace std;\n"@
        + stream_declaration("\nifstream in(\""@, input);
    let after = "\n"@
        + "\nint main() {\n\tcout << \"Hello World!\" << endl;\n\treturn 0;\n}"@;
    assert(text =~= before + declaration + after);
    lemma_contains_middle(before, declaration, after);
    let rest = "\n\nusing namespace std;\n"@ + stream_declaration(
        "\nifstream in(\""@,
        input,
    ) + declaration + after;
    assert(text =~= head + fstream + rest);
    lemma_contains_middle(head, fstream, rest);
    let streams = stream_declaration("\nifstream in(\""@, input) + declaration
        + after;
    assert(text =~= (head + fstream) + "\n\nusing namespace std;\n"@ + streams);
    lemma_contains_middle(head + fstream, "\n\nusing namespace std;\n"@, streams);
}

/// With I/O files the `Makefile` names each in a variable, and its `io`
/// target touches the variables of the files that exist: one alone, or
/// both joined by `&&`.
pub proof fn lemma_makefile_touches_io_files(input: Option<Seq<char>>, output: Option<Seq<char>>)
    requires
        input is Some || output is Some,
    ensures
        contains(makefile_source(input, output), "\n\n# I/O files"@),
        input is Some ==> contains(
            makefile_source(input, output),
            "\nINPUTFILE = "@ + input->0,
        ),
        output is Some ==> contains(
            makefile_source(input, output),
            "\nOUTPUTFILE = "@ + output->0,
        ),
        contains(
            makefile_source(input, output),
            "\n\nio:\n\ttouch "@ + touched(input is Some, output is Some),
        ),
        input is Some && output is Some ==> touched(true, true)
            == "$(INPUTFILE) && $(OUTPUTFILE)"@,
{
    let text = makefile_source(input, output);
    let preamble =
        "# the compiler\nCC = g++\n\n# compiler flags:\n#  -Wall turns on most, but not all, compiler warnings\nCFLAGS  = -Wall\n\n# the build target executable:\nTARGET = main"@;
    let block = "\n\n# I/O files"@;
    let first = file_variable("\nINPUTFILE = "@, input);
    let second = file_variable("\nOUTPUTFILE = "@, output);
    let targets = "\n\nall: $(TARGET)"@
        + "\n\t$(CC) $(CFLAGS) -o $(TARGET) $(TARGET).cpp && ./$(TARGET)"@;
    let io = "\n\nio:\n\ttouch "@ + touched(input is Some, output is Some);
    let clean = "\n\nclean:\n\t$(RM) $(TARGET)"@;
    assert(text =~= preamble + block + (first + second + targets + io + clean));
    lemma_contains_middle(preamble, block, first + second + targets + io + clean);
    assert(text =~= (preamble + block) + first + (second + targets + io + clean));
    lemma_contains_middle(preamble + block, first, second + targets + io + clean);
    assert(text =~= (preamble + block + first) + second + (targets + io + clean));
    lemma_contains_middle(preamble + block + first, second, targets + io + clean);
    assert(text =~= (preamble + block + first + second + targets) + io + clean);
    lemma_contains_middle(preamble + block + first + second + targets, io, clean);
}

} // verus!
