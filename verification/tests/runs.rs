use cpp_scaffold::report::{Report, Tone};
use cpp_scaffold::scaffolder::{Action, Options, Outcome, Phase, Scaffolder};

fn options(input: Option<&str>, output: Option<&str>, git: bool) -> Options {
    Options {
        name: "proj".to_string(),
        input: input.map(|n| n.to_string()),
        output: output.map(|n| n.to_string()),
        git,
    }
}

fn failed(error: &str) -> Outcome {
    Outcome::Failed(error.to_string())
}

fn step(run: Scaffolder, outcome: Outcome) -> (Scaffolder, Report) {
    let (next, report) = run.advance(&outcome);
    (next, report.expect("the run is not over"))
}

fn kind(action: &Action) -> &'static str {
    match action {
        Action::CreateDirectory => "directory",
        Action::TouchFile(_) => "touch",
        Action::CreateFile(_) => "create",
        Action::WriteFile(_, _) => "write",
        Action::InitRepository => "repository",
        Action::Nothing => "nothing",
        Action::Finished => "finished",
    }
}

#[test]
fn plain_run_takes_eight_steps() {
    let mut run = Scaffolder::new(options(None, None, false));
    let mut kinds = Vec::new();
    let mut lines = Vec::new();
    while !run.is_finished() {
        kinds.push(kind(&run.action()));
        let (next, report) = step(run, Outcome::Succeeded);
        lines.push((report.tone, report.text));
        run = next;
    }
    assert_eq!(
        kinds,
        vec!["directory", "nothing", "nothing", "create", "write", "create", "write", "nothing"]
    );
    assert_eq!(
        lines,
        vec![
            (Tone::Success, "**[1/8]** Successfully created main folder: *proj*\n".to_string()),
            (Tone::Skipped, "**[2/8]** No input file provided\n".to_string()),
            (Tone::Skipped, "**[3/8]** No output file provided\n".to_string()),
            (Tone::Success, "**[4/8]** Successfully created: *main.cpp*\n".to_string()),
            (Tone::Success, "**[5/8]** Successfully initialized: *main.cpp*\n".to_string()),
            (Tone::Success, "**[6/8]** Successfully created: *Makefile*\n".to_string()),
            (Tone::Success, "**[7/8]** Successfully initialized: *Makefile*\n".to_string()),
            (Tone::Skipped, "**[8/8]** *git* was not initialized\n".to_string()),
        ]
    );
    assert_eq!(run.step(), 9);
    assert_eq!(kind(&run.action()), "finished");
}

#[test]
fn plain_run_writes_the_greeting_program() {
    let mut run = Scaffolder::new(options(None, None, false));
    let mut written = Vec::new();
    while !run.is_finished() {
        if let Action::WriteFile(name, text) = run.action() {
            written.push((name, text));
        }
        run = run.advance(&Outcome::Succeeded).0;
    }
    assert_eq!(written.len(), 2);
    assert_eq!(written[0].0, "main.cpp");
    assert_eq!(
        written[0].1,
        "#include<iostream>\nint main() {\n\tcout << \"Hello World!\" << endl;\n\treturn 0;\n}"
    );
    assert_eq!(written[1].0, "Makefile");
    assert!(!written[1].1.contains("io:"));
    assert!(!written[1].1.contains("# I/O files"));
}

#[test]
fn new_run_starts_at_the_directory() {
    let run = Scaffolder::new(options(Some("in.txt"), None, true));
    assert_eq!(run.phase(), Phase::Directory);
    assert_eq!(run.step(), 1);
    assert!(!run.has_input());
    assert!(!run.has_output());
    assert!(!run.is_finished());
    assert_eq!(run.options().name, "proj");
    assert_eq!(run.options().input, Some("in.txt".to_string()));
    assert_eq!(run.options().output, None);
    assert!(run.options().git);
}

#[test]
fn input_file_is_touched_and_declared() {
    let run = Scaffolder::new(options(Some("in.txt"), None, false));
    let (run, _) = step(run, Outcome::Succeeded);
    match run.action() {
        Action::TouchFile(name) => assert_eq!(name, "in.txt"),
        other => panic!("unexpected action {:?}", other),
    }
    let (run, report) = step(run, Outcome::Succeeded);
    assert_eq!(report.tone, Tone::Success);
    assert_eq!(report.text, "**[2/8]** Successfully created input file: *in.txt*\n");
    assert!(run.has_input());
    assert!(!run.has_output());
    assert_eq!(kind(&run.action()), "nothing");
    let (run, report) = step(run, Outcome::Succeeded);
    assert_eq!(report.text, "**[3/8]** No output file provided\n");
    assert!(run.main_text().contains("ifstream in(\"in.txt\");"));
    assert!(run.makefile_text().contains("\nINPUTFILE = in.txt\n"));
    assert!(run.makefile_text().contains("\nio:\n\ttouch $(INPUTFILE)\n"));
    let (run, _) = step(run, Outcome::Succeeded);
    match run.action() {
        Action::WriteFile(name, text) => {
            assert_eq!(name, "main.cpp");
            assert_eq!(text, run.main_text());
        }
        other => panic!("unexpected action {:?}", other),
    }
}

#[test]
fn both_files_are_touched_and_declared() {
    let run = Scaffolder::new(options(Some("in.txt"), Some("out.txt"), false));
    let (run, _) = step(run, Outcome::Succeeded);
    let (run, _) = step(run, Outcome::Succeeded);
    match run.action() {
        Action::TouchFile(name) => assert_eq!(name, "out.txt"),
        other => panic!("unexpected action {:?}", other),
    }
    let (run, report) = step(run, Outcome::Succeeded);
    assert_eq!(report.tone, Tone::Success);
    assert_eq!(report.text, "**[3/8]** Successfully created output file: *out.txt*\n");
    assert!(run.has_input());
    assert!(run.has_output());
    let main = run.main_text();
    assert!(main.contains("\nifstream in(\"in.txt\");\nofstream out(\"out.txt\");\n"));
    let make = run.makefile_text();
    assert!(make.contains("\nio:\n\ttouch $(INPUTFILE) && $(OUTPUTFILE)\n"));
    let (run, _) = step(run, Outcome::Succeeded);
    let (run, _) = step(run, Outcome::Succeeded);
    let (run, _) = step(run, Outcome::Succeeded);
    match run.action() {
        Action::WriteFile(name, text) => {
            assert_eq!(name, "Makefile");
            assert_eq!(text, make);
        }
        other => panic!("unexpected action {:?}", other),
    }
}

#[test]
fn io_file_that_fails_is_left_out_of_the_texts() {
    let run = Scaffolder::new(options(Some("in.txt"), Some("out.txt"), false));
    let (run, _) = step(run, Outcome::Succeeded);
    let (run, report) = step(run, failed("permission denied"));
    assert_eq!(report.tone, Tone::Failure);
    assert_eq!(report.text, "**[2/8]** Failed to create input file: *permission denied*\n");
    assert!(!run.has_input());
    let (run, report) = step(run, failed("disk full"));
    assert_eq!(report.tone, Tone::Failure);
    assert_eq!(report.text, "**[3/8]** Failed to create output file: *disk full*\n");
    assert!(!run.has_output());
    assert_eq!(
        run.main_text(),
        "#include<iostream>\nint main() {\n\tcout << \"Hello World!\" << endl;\n\treturn 0;\n}"
    );
    assert!(!run.makefile_text().contains("io:"));
}

#[test]
fn only_the_created_io_file_is_declared() {
    let run = Scaffolder::new(options(Some("in.txt"), Some("out.txt"), false));
    let (run, _) = step(run, Outcome::Succeeded);
    let (run, _) = step(run, failed("no"));
    let (run, _) = step(run, Outcome::Succeeded);
    assert!(!run.has_input());
    assert!(run.has_output());
    assert!(!run.main_text().contains("ifstream"));
    assert!(run.main_text().contains("ofstream out(\"out.txt\");"));
    assert!(run.makefile_text().contains("\nio:\n\ttouch $(OUTPUTFILE)\n"));
}

#[test]
fn directory_failure_does_not_stop_the_run() {
    let run = Scaffolder::new(options(None, None, false));
    assert_eq!(kind(&run.action()), "directory");
    let (mut run, report) = step(run, failed("File exists (os error 17)"));
    assert_eq!(report.tone, Tone::Failure);
    assert_eq!(
        report.text,
        "**[1/8]** Failed to create main folder: *File exists (os error 17)*\n"
    );
    assert_eq!(run.phase(), Phase::Input);
    assert_eq!(run.step(), 2);
    let mut kinds = Vec::new();
    while !run.is_finished() {
        kinds.push(kind(&run.action()));
        run = run.advance(&Outcome::Succeeded).0;
    }
    assert_eq!(kinds, vec!["nothing", "nothing", "create", "write", "create", "write", "nothing"]);
}

#[test]
fn every_failure_still_reaches_the_end() {
    let mut run = Scaffolder::new(options(Some("in.txt"), Some("out.txt"), true));
    let mut phases = Vec::new();
    let mut steps = Vec::new();
    while !run.is_finished() {
        phases.push(run.phase());
        steps.push(run.step());
        let (next, report) = step(run, failed("e"));
        assert_eq!(report.tone, Tone::Failure);
        run = next;
    }
    assert_eq!(
        phases,
        vec![
            Phase::Directory,
            Phase::Input,
            Phase::Output,
            Phase::CreateMain,
            Phase::CreateMakefile,
            Phase::Repository
        ]
    );
    assert_eq!(steps, vec![1, 2, 3, 4, 5, 6]);
    assert_eq!(run.step(), 7);
}

#[test]
fn file_that_cannot_be_created_is_not_written() {
    let run = Scaffolder::new(options(None, None, false));
    let (run, _) = step(run, Outcome::Succeeded);
    let (run, _) = step(run, Outcome::Succeeded);
    let (run, _) = step(run, Outcome::Succeeded);
    match run.action() {
        Action::CreateFile(name) => assert_eq!(name, "main.cpp"),
        other => panic!("unexpected action {:?}", other),
    }
    let (run, report) = step(run, failed("denied"));
    assert_eq!(report.tone, Tone::Failure);
    assert_eq!(report.text, "**[4/8]** Failed to create *main.cpp*: denied\n");
    assert_eq!(run.phase(), Phase::CreateMakefile);
    assert_eq!(run.step(), 5);
    match run.action() {
        Action::CreateFile(name) => assert_eq!(name, "Makefile"),
        other => panic!("unexpected action {:?}", other),
    }
    let (run, report) = step(run, failed("denied"));
    assert_eq!(report.text, "**[5/8]** Failed to create *Makefile*: denied\n");
    assert_eq!(run.phase(), Phase::Repository);
    let (run, report) = step(run, Outcome::Succeeded);
    assert_eq!(report.tone, Tone::Skipped);
    assert_eq!(report.text, "**[6/8]** *git* was not initialized\n");
    assert!(run.is_finished());
}

#[test]
fn write_failure_is_reported_and_passed_over() {
    let run = Scaffolder::new(options(None, None, false));
    let (run, _) = step(run, Outcome::Succeeded);
    let (run, _) = step(run, Outcome::Succeeded);
    let (run, _) = step(run, Outcome::Succeeded);
    let (run, _) = step(run, Outcome::Succeeded);
    assert_eq!(run.phase(), Phase::WriteMain);
    let (run, report) = step(run, failed("broken pipe"));
    assert_eq!(report.tone, Tone::Failure);
    assert_eq!(report.text, "**[5/8]** Failed to initialize *main.cpp*: broken pipe\n");
    assert_eq!(run.phase(), Phase::CreateMakefile);
    let (run, _) = step(run, Outcome::Succeeded);
    assert_eq!(run.phase(), Phase::WriteMakefile);
    let (run, report) = step(run, failed("broken pipe"));
    assert_eq!(report.text, "**[7/8]** Failed to initialize *Makefile*: broken pipe\n");
    assert_eq!(run.phase(), Phase::Repository);
    assert_eq!(run.step(), 8);
}

fn at_repository(git: bool) -> Scaffolder {
    let mut run = Scaffolder::new(options(None, None, git));
    while run.phase() != Phase::Repository {
        assert!(!matches!(run.action(), Action::InitRepository));
        run = run.advance(&Outcome::Succeeded).0;
    }
    run
}

#[test]
fn git_flag_asks_for_a_repository() {
    let run = at_repository(true);
    assert!(matches!(run.action(), Action::InitRepository));
    let (run, report) = step(run, Outcome::Succeeded);
    assert_eq!(report.tone, Tone::Success);
    assert_eq!(report.text, "**[8/8]** Successfully initialized *git*\n");
    assert!(run.is_finished());
}

#[test]
fn git_failure_is_reported() {
    let run = at_repository(true);
    let (run, report) = step(run, failed("not allowed"));
    assert_eq!(report.tone, Tone::Failure);
    assert_eq!(report.text, "**[8/8]** Failed to initialize *git*: not allowed\n");
    assert!(run.is_finished());
}

#[test]
fn without_git_flag_no_repository_is_asked_for() {
    let run = at_repository(false);
    assert!(matches!(run.action(), Action::Nothing));
    let (run, report) = step(run, failed("ignored"));
    assert_eq!(report.tone, Tone::Skipped);
    assert_eq!(report.text, "**[8/8]** *git* was not initialized\n");
    assert!(run.is_finished());
}

#[test]
fn finished_run_stays_finished() {
    let run = at_repository(false);
    let (run, _) = step(run, Outcome::Succeeded);
    assert!(run.is_finished());
    assert!(matches!(run.action(), Action::Finished));
    let (run, report) = run.advance(&Outcome::Succeeded);
    assert!(report.is_none());
    assert!(run.is_finished());
    assert_eq!(run.phase(), Phase::Finished);
    assert_eq!(run.step(), 9);
    let (run, report) = run.advance(&failed("late"));
    assert!(report.is_none());
    assert_eq!(run.step(), 9);
}

#[test]
fn step_number_never_passes_the_total() {
    let outcomes = [Outcome::Succeeded, failed("e")];
    for mask in 0..256usize {
        let mut run = Scaffolder::new(options(Some("a"), Some("b"), mask % 2 == 0));
        let mut taken = 0;
        while !run.is_finished() {
            assert!(run.step() >= 1 && run.step() <= 8);
            let outcome = &outcomes[(mask >> taken) & 1];
            run = run.advance(outcome).0;
            taken += 1;
        }
        assert!(taken >= 6 && taken <= 8);
    }
}
