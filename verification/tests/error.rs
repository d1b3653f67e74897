use cmd3::error::ConsoleError;

#[test]
fn every_error_has_its_line() {
    assert_eq!(ConsoleError::Uncategorized.message(), "Uncategorized");
    assert_eq!(
        ConsoleError::ReadlineError("Interrupted".to_string()).message(),
        "Error with readline: Interrupted"
    );
    assert_eq!(ConsoleError::StdoutWriteError.message(), "Error writing to stdout");
    assert_eq!(
        ConsoleError::LexingError("echo 'a".to_string()).message(),
        "Error lexing string: echo 'a"
    );
    assert_eq!(ConsoleError::EmptyCommandLineError.message(), "Error: empty command");
    assert_eq!(
        ConsoleError::UnrecognizedCommand("dir".to_string()).message(),
        "Unrecognized command: `dir`"
    );
    assert_eq!(
        ConsoleError::CommandError("dir".to_string(), "denied".to_string()).message(),
        "Error executing command `dir`: denied"
    );
}

#[test]
fn broken_pipe_shows_the_failure_that_it_wraps() {
    let inner = ConsoleError::CommandError("upper".to_string(), "boom".to_string());
    let error = ConsoleError::BrokenPipeError(Box::new(inner));
    assert_eq!(error.message(), "Pipeline broken: Error executing command `upper`: boom");
    let twice = ConsoleError::BrokenPipeError(Box::new(error));
    assert_eq!(
        twice.message(),
        "Pipeline broken: Pipeline broken: Error executing command `upper`: boom"
    );
}
