//! The text of the two generated files.
//!
//! Both depend only on which of the two I/O files exist, and on their names.

use vstd::prelude::*;
use vstd::string::*;
use crate::text::{name_of, optional};

verus! {

/// The lines that open a stream on an I/O file: `ifstream in("<name>");`
/// for the input, `ofstream out("<name>");` for the output.
pub open spec fn stream_declaration(opening: Seq<char>, name: Option<Seq<char>>) -> Seq<char> {
    match name {
        Some(n) => opening + n + "\");"@,
        None => Seq::empty(),
    }
}

/// The text of `main.cpp`.
///
/// Without an I/O file it is the one include and `main`, which prints the
/// greeting. With an I/O file the program also includes `<fstream>`, opens
/// the namespace `std` and declares one stream per file, all of it before
/// `main`.
pub open spec fn main_source(input: Option<Seq<char>>, output: Option<Seq<char>>) -> Seq<char> {
    let any = input is Some || output is Some;
    "#include<iostream>"@
        + optional(any, "\n#include<fstream>"@)
        + optional(any, "\n\nusing namespace std;\n"@)
        + stream_declaration("\nifstream in(\""@, input)
        + stream_declaration("\nofstream out(\""@, output)
        + optional(any, "\n"@)
        + "\nint main() {\n\tcout << \"Hello World!\" << endl;\n\treturn 0;\n}"@
}

/// One line of the Makefile's I/O block: `<variable> = <name>`.
pub open spec fn file_variable(assignment: Seq<char>, name: Option<Seq<char>>) -> Seq<char> {
    match name {
        Some(n) => assignment + n,
        None => Seq::empty(),
    }
}

/// What the `io` target touches: the variables of the files that exist,
/// joined by `&&`.
pub open spec fn touched(input: bool, output: bool) -> Seq<char> {
    if input && output {
        "$(INPUTFILE) && $(OUTPUTFILE)"@
    } else if input {
        "$(INPUTFILE)"@
    } else if output {
        "$(OUTPUTFILE)"@
    } else {
        Seq::empty()
    }
}

/// The `io` target, which is there only with an I/O file.
pub open spec fn io_target(input: bool, output: bool) -> Seq<char> {
    if input || output {
        "\n\nio:\n\ttouch "@ + touched(input, output)
    } else {
        Seq::empty()
    }
}

/// The text of the `Makefile`: the compiler preamble, the I/O block if
/// there is an I/O file, then the targets `all`, `io` (with an I/O file
/// only) and `clean`.
pub open spec fn makefile_source(input: Option<Seq<char>>, output: Option<Seq<char>>) -> Seq<char> {
    let any = input is Some || output is Some;
    "# the compiler\nCC = g++\n\n# compiler flags:\n#  -Wall turns on most, but not all, compiler warnings\nCFLAGS  = -Wall\n\n# the build target executable:\nTARGET = main"@
        + optional(any, "\n\n# I/O files"@)
        + file_variable("\nINPUTFILE = "@, input)
        + file_variable("\nOUTPUTFILE = "@, output)
        + "\n\nall: $(TARGET)"@
        + "\n\t$(CC) $(CFLAGS) -o $(TARGET) $(TARGET).cpp && ./$(TARGET)"@
        + io_target(input is Some, output is Some)
        + "\n\nclean:\n\t$(RM) $(TARGET)"@
}

/// Assembles `main.cpp` for the I/O files that exist.
pub fn main_content(input: &Option<String>, output: &Option<String>) -> (content: String)
    ensures
        content@ == main_source(name_of(*input), name_of(*output)),
{
    let any = input.is_some() || output.is_some();
    let mut s = String::from_str("#include<iostream>");
    if any {
        s.append("\n#include<fstream>");
        s.append("\n\nusing namespace std;\n");
    }
    if let Some(name) = input {
        s.append("\nifstream in(\"");
        s.append(name.as_str());
        s.append("\");");
    }
    if let Some(name) = output {
        s.append("\nofstream out(\"");
        s.append(name.as_str());
        s.append("\");");
    }
    if any {
        s.append("\n");
    }
    s.append("\nint main() {\n\tcout << \"Hello World!\" << endl;\n\treturn 0;\n}");
    assert(s@ =~= main_source(name_of(*input), name_of(*output)));
    s
}

/// Assembles the `Makefile` for the I/O files that exist.
pub fn makefile_content(input: &Option<String>, output: &Option<String>) -> (content: String)
    ensures
        content@ == makefile_source(name_of(*input), name_of(*output)),
{
    let any = input.is_some() || output.is_some();
    let mut s = String::from_str(
        "# the compiler\nCC = g++\n\n# compiler flags:\n#  -Wall turns on most, but not all, compiler warnings\nCFLAGS  = -Wall\n\n# the build target executable:\nTARGET = main",
    );
    if any {
        s.append("\n\n# I/O files");
    }
    if let Some(name) = input {
        s.append("\nINPUTFILE = ");
        s.append(name.as_str());
    }
    if let Some(name) = output {
        s.append("\nOUTPUTFILE = ");
        s.append(name.as_str());
    }
    s.append("\n\nall: $(TARGET)");
    s.append("\n\t$(CC) $(CFLAGS) -o $(TARGET) $(TARGET).cpp && ./$(TARGET)");
    if any {
        s.append("\n\nio:\n\ttouch ");
        if input.is_some() && output.is_some() {
            s.append("$(INPUTFILE) && $(OUTPUTFILE)");
        } else if input.is_some() {
            s.append("$(INPUTFILE)");
        } else {
            s.append("$(OUTPUTFILE)");
        }
    }
    s.append("\n\nclean:\n\t$(RM) $(TARGET)");
    assert(s@ =~= makefile_source(name_of(*input), name_of(*output)));
    s
}

} // verus!
