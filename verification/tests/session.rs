use cmd3::command::{ArgSchema, Command, OptionSpec};
use cmd3::completion::Candidate;
use cmd3::console::Console;
use cmd3::error::ConsoleError;
use cmd3::session::{Action, Event};
use cmd3::stage::{Diagnostic, Stage};

/// A command that writes its words, or what it reads in capitals, or fails.
struct Builtin {
    name: &'static str,
}

impl Command for Builtin {
    fn get_name(&self) -> String {
        self.name.to_string()
    }

    fn get_schema(&self) -> ArgSchema {
        ArgSchema {
            positionals: vec!["text".to_string()],
            options: vec![OptionSpec::Both("verbose".to_string(), 'v')],
        }
    }

    fn validate(&self, words: &Vec<String>) -> Result<clap::ArgMatches, String> {
        clap::Command::new(self.name)
            .arg(clap::Arg::new("text").num_args(0..))
            .arg(
                clap::Arg::new("verbose")
                    .long("verbose")
                    .short('v')
                    .action(clap::ArgAction::SetTrue),
            )
            .try_get_matches_from(words)
            .map_err(|e| e.to_string())
    }

    fn execute(&self, args: clap::ArgMatches, stdin: &str, stdout: &mut String) -> Result<(), String> {
        match self.name {
            "say" => {
                let words: Vec<String> = args
                    .get_many::<String>("text")
                    .map(|values| values.cloned().collect())
                    .unwrap_or_default();
                stdout.push_str(&words.join(" "));
                Ok(())
            }
            "upper" => {
                stdout.push_str(&stdin.to_uppercase());
                Ok(())
            }
            _ => Err(format!("cannot {}", self.name)),
        }
    }
}

fn console() -> Console<Builtin> {
    Console::default()
        .add_command(Builtin { name: "say" })
        .add_command(Builtin { name: "upper" })
        .add_command(Builtin { name: "break" })
}

fn is_read(action: &Action<Builtin>) -> bool {
    matches!(action, Action::Read)
}

fn written(action: Action<Builtin>) -> String {
    match action {
        Action::Write(output) => output,
        _ => panic!("expected output to write"),
    }
}

fn reported(action: Action<Builtin>) -> Diagnostic {
    match action {
        Action::Report(diagnostic) => diagnostic,
        _ => panic!("expected a diagnostic to report"),
    }
}

#[test]
fn console_starts_by_reading() {
    let console = console();
    assert!(is_read(&console.step(Event::Started)));
}

#[test]
fn after_a_report_the_next_line_is_read() {
    let console = console();
    assert!(is_read(&console.step(Event::Reported)));
}

#[test]
fn after_the_output_is_written_the_next_line_is_read() {
    let console = console();
    assert!(is_read(&console.step(Event::Written(true))));
}

#[test]
fn output_that_cannot_be_written_ends_the_loop() {
    let console = console();
    match console.step(Event::Written(false)) {
        Action::Stop(Err(error)) => {
            assert_eq!(error, ConsoleError::StdoutWriteError);
            assert_eq!(error.message(), "Error writing to stdout");
        }
        _ => panic!("expected the loop to end"),
    }
}

#[test]
fn end_of_input_ends_the_loop_in_peace() {
    let console = console();
    assert!(matches!(console.step(Event::EndOfInput), Action::Stop(Ok(()))));
}

#[test]
fn failure_to_read_ends_the_loop() {
    let console = console();
    match console.step(Event::ReadFailed("Interrupted".to_string())) {
        Action::Stop(Err(error)) => {
            assert_eq!(error, ConsoleError::ReadlineError("Interrupted".to_string()));
            assert_eq!(error.message(), "Error with readline: Interrupted");
        }
        _ => panic!("expected the loop to end"),
    }
}

#[test]
fn line_of_registered_commands_is_run_and_its_output_written() {
    let console = console();
    assert_eq!(written(console.step(Event::Line("say hello | upper".to_string()))), "HELLO");
    assert_eq!(written(console.step(Event::Line("say 'a | b'".to_string()))), "a | b");
    assert_eq!(written(console.step(Event::Line("upper".to_string()))), "");
}

#[test]
fn line_in_error_is_reported_and_the_loop_goes_on() {
    let console = console();
    for (line, text) in [
        ("say 'hello", "Error lexing string: say 'hello"),
        ("", "Error: empty command"),
        ("say hello | shout", "Unrecognized command: `shout`"),
        ("break", "Error executing command `break`: cannot break"),
        ("say x | break | upper", "Pipeline broken: Error executing command `break`: cannot break"),
    ] {
        let diagnostic = reported(console.step(Event::Line(line.to_string())));
        assert_eq!(diagnostic.message(), text);
        assert!(is_read(&console.step(Event::Reported)));
    }
}

#[test]
fn words_that_a_command_turns_down_are_reported_as_it_says() {
    let console = console();
    match reported(console.step(Event::Line("say --nosuch".to_string()))) {
        Diagnostic::InvalidArguments(said) => {
            assert!(said.contains("--nosuch"));
            assert_eq!(Diagnostic::InvalidArguments(said.clone()).message(), said);
        }
        other => panic!("expected the words to be turned down, got {:?}", other),
    }
}

#[test]
fn external_stage_is_run_by_the_caller() {
    let console = console();
    let call = match console.step(Event::Line("say hello | !rev -x | upper".to_string())) {
        Action::Spawn(call) => call,
        _ => panic!("expected an external call"),
    };
    assert_eq!(call.program(), "rev");
    assert_eq!(call.args(), &vec!["-x".to_string()]);
    assert_eq!(call.input(), "hello");
    let action = console.step(Event::Exited(call, Ok("olleh".to_string())));
    assert_eq!(written(action), "OLLEH");
}

#[test]
fn external_stage_that_cannot_run_is_reported() {
    let console = console();
    let call = match console.step(Event::Line("!nosuchprogram".to_string())) {
        Action::Spawn(call) => call,
        _ => panic!("expected an external call"),
    };
    let action = console.step(Event::Exited(call, Err("not found".to_string())));
    assert_eq!(
        reported(action),
        Diagnostic::Error(ConsoleError::CommandError(
            "nosuchprogram".to_string(),
            "not found".to_string()
        ))
    );
}

#[test]
fn settle_carries_the_output_or_makes_the_failure() {
    let console = console();
    let pipeline = console.resolve_line("upper | upper").ok().unwrap();
    let pipeline = pipeline.settle("first".to_string(), Ok("abc".to_string())).ok().unwrap();
    assert_eq!(pipeline.remaining(), 2);
    match pipeline.advance() {
        cmd3::pipeline::Progress::Finished(output) => assert_eq!(output, "ABC"),
        _ => panic!("expected the line to finish"),
    }
    let pipeline = console.resolve_line("upper | upper").ok().unwrap();
    match pipeline.settle("first".to_string(), Err("no".to_string())) {
        Err(error) => assert_eq!(
            error.message(),
            "Pipeline broken: Error executing command `first`: no"
        ),
        Ok(_) => panic!("expected a failure"),
    }
    let pipeline = console.resolve_line("upper").ok().unwrap();
    match pipeline.settle("only".to_string(), Err("no".to_string())) {
        Err(error) => assert_eq!(error.message(), "Error executing command `only`: no"),
        Ok(_) => panic!("expected a failure"),
    }
}

#[test]
fn bind_stage_keeps_what_the_command_said() {
    let console = console();
    match console.bind_stage(1, Err("bad words".to_string())) {
        Err(diagnostic) => {
            assert_eq!(diagnostic, Diagnostic::InvalidArguments("bad words".to_string()))
        }
        Ok(_) => panic!("expected a diagnostic"),
    }
    let bound = clap::Command::new("x").try_get_matches_from(["x"]).unwrap();
    match console.bind_stage(1, Ok(bound.clone())) {
        Ok(Stage::Builtin { command, name, matches }) => {
            assert_eq!(command.name, "upper");
            assert_eq!(name, "upper");
            assert_eq!(matches, bound);
        }
        _ => panic!("expected a stage of a registered command"),
    }
}

#[test]
fn completer_of_a_console_knows_its_commands() {
    let completer = console().completer();
    let names = |found: (usize, Vec<Candidate>)| {
        found.1.into_iter().map(|candidate| candidate.replacement).collect::<Vec<_>>()
    };
    assert_eq!(names(completer.complete("", 0)), vec!["say", "upper", "break"]);
    assert_eq!(names(completer.complete("u", 1)), vec!["upper"]);
    assert_eq!(names(completer.complete("say --v", 7)), vec!["--verbose"]);
    assert_eq!(names(completer.complete("say -", 5)), vec!["-v "]);
    assert_eq!(
        completer.complete("upper ", 6),
        (6, vec![Candidate { display: "text".to_string(), replacement: "".to_string() }])
    );
}
