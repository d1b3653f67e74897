//! What can go wrong while a console handles a line.

use vstd::prelude::*;
use vstd::string::StringExecFns;

verus! {

/// An error of the console.
#[derive(Debug, PartialEq, Eq)]
pub enum ConsoleError {
    /// A failure that fits no other variant.
    Uncategorized,
    /// The line editor failed for another reason than the end of input; holds what it
    /// said.
    ReadlineError(String),
    /// The output of a pipeline could not be written out.
    StdoutWriteError,
    /// A stage could not be broken into words; holds the text of the stage.
    LexingError(String),
    /// A stage held no word at all.
    EmptyCommandLineError,
    /// The first word of a stage names no registered command; holds that word.
    UnrecognizedCommand(String),
    /// A stage failed while it ran; holds the name of its command or program, then
    /// what the stage said.
    CommandError(String, String),
    /// A stage failed in a pipeline of several stages; holds the failure of the stage.
    BrokenPipeError(Box<ConsoleError>),
}

/// A [`ConsoleError`] with each string taken by its characters.
pub enum ErrorView {
    Uncategorized,
    ReadlineError(Seq<char>),
    StdoutWriteError,
    LexingError(Seq<char>),
    EmptyCommandLineError,
    UnrecognizedCommand(Seq<char>),
    CommandError(Seq<char>, Seq<char>),
    BrokenPipeError(Box<ErrorView>),
}

impl ErrorView {
    /// The one line that reports the error.
    pub open spec fn text(self) -> Seq<char>
        decreases self,
    {
        match self {
            ErrorView::Uncategorized => "Uncategorized"@,
            ErrorView::ReadlineError(said) => "Error with readline: "@ + said,
            ErrorView::StdoutWriteError => "Error writing to stdout"@,
            ErrorView::LexingError(stage) => "Error lexing string: "@ + stage,
            ErrorView::EmptyCommandLineError => "Error: empty command"@,
            ErrorView::UnrecognizedCommand(name) => "Unrecognized command: `"@ + name + "`"@,
            ErrorView::CommandError(name, said) => "Error executing command `"@ + name + "`: "@
                + said,
            ErrorView::BrokenPipeError(inner) => "Pipeline broken: "@ + inner.text(),
        }
    }
}

impl ConsoleError {
    /// The error with each string taken by its characters.
    pub open spec fn model(&self) -> ErrorView
        decreases self,
    {
        match self {
            ConsoleError::Uncategorized => ErrorView::Uncategorized,
            ConsoleError::ReadlineError(said) => ErrorView::ReadlineError(said@),
            ConsoleError::StdoutWriteError => ErrorView::StdoutWriteError,
            ConsoleError::LexingError(stage) => ErrorView::LexingError(stage@),
            ConsoleError::EmptyCommandLineError => ErrorView::EmptyCommandLineError,
            ConsoleError::UnrecognizedCommand(name) => ErrorView::UnrecognizedCommand(name@),
            ConsoleError::CommandError(name, said) => ErrorView::CommandError(name@, said@),
            ConsoleError::BrokenPipeError(inner) => ErrorView::BrokenPipeError(
                Box::new(inner.model()),
            ),
        }
    }
}

impl View for ConsoleError {
    type V = ErrorView;

    open spec fn view(&self) -> ErrorView {
        self.model()
    }
}

impl ConsoleError {
    /// The one line that reports the error.
    pub fn message(&self) -> (text: String)
        ensures
            text@ == self@.text(),
        decreases self,
    {
        match self {
            ConsoleError::Uncategorized => String::from_str("Uncategorized"),
            ConsoleError::ReadlineError(said) => {
                let mut text = String::from_str("Error with readline: ");
                text.append(said.as_str());
                text
            },
            ConsoleError::StdoutWriteError => String::from_str("Error writing to stdout"),
            ConsoleError::LexingError(stage) => {
                let mut text = String::from_str("Error lexing string: ");
                text.append(stage.as_str());
                text
            },
            ConsoleError::EmptyCommandLineError => String::from_str("Error: empty command"),
            ConsoleError::UnrecognizedCommand(name) => {
                let mut text = String::from_str("Unrecognized command: `");
                text.append(name.as_str());
                text.append("`");
                text
            },
            ConsoleError::CommandError(name, said) => {
                let mut text = String::from_str("Error executing command `");
                text.append(name.as_str());
                text.append("`: ");
                text.append(said.as_str());
                text
            },
            ConsoleError::BrokenPipeError(inner) => {
                let mut text = String::from_str("Pipeline broken: ");
                let rest = inner.message();
                text.append(rest.as_str());
                text
            },
        }
    }
}

} // verus!
