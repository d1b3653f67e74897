//! Resolving one stage of a pipeline.
//!
//! The words of a stage decide what the stage is. A first word that begins with
//! `!` asks for an external program: the program is named by the rest of that
//! word or, where the word is the mark alone, by the word behind it. Any other
//! first word names a registered command.

use vstd::prelude::*;
use vstd::string::StrSliceExecFns;
use crate::command::Command;
use crate::console::{position, Console};
use crate::error::{ConsoleError, ErrorView};
use crate::text::{chars_of, views};
use crate::words::{shell_words, split_words};

verus! {

/// The mark that sends a stage to an external program.
pub const EXTERNAL_MARK: char = '!';

/// What the words of a stage ask for.
pub enum Target {
    /// An external program with its arguments.
    External { program: Seq<char>, args: Seq<Seq<char>> },
    /// The registered command at this position of the console.
    Builtin { index: int },
    /// Nothing: there is no word.
    Empty,
    /// A command of this name, which is not registered.
    Unknown { name: Seq<char> },
}

/// What `words` ask for of a console whose commands are named `names`.
pub open spec fn target_of(words: Seq<Seq<char>>, names: Seq<Seq<char>>) -> Target {
    if words.len() == 0 {
        Target::Empty
    } else if words[0] == seq![EXTERNAL_MARK] && words.len() >= 2 {
        Target::External { program: words[1], args: words.skip(2) }
    } else if words[0].len() >= 2 && words[0][0] == EXTERNAL_MARK {
        Target::External { program: words[0].skip(1), args: words.skip(1) }
    } else {
        match position(names, words[0]) {
            Some(index) => Target::Builtin { index },
            None => Target::Unknown { name: words[0] },
        }
    }
}

/// The error that a stage earns before any command is asked, if it earns one. `raw`
/// is the text of the stage and `words` what became of breaking it into words:
/// the text cannot be broken into words, it holds no word, or its first word names
/// no registered command.
pub open spec fn words_error(
    raw: Seq<char>,
    words: Option<Seq<Seq<char>>>,
    names: Seq<Seq<char>>,
) -> Option<ErrorView> {
    match words {
        None => Some(ErrorView::LexingError(raw)),
        Some(words) => match target_of(words, names) {
            Target::Empty => Some(ErrorView::EmptyCommandLineError),
            Target::Unknown { name } => Some(ErrorView::UnrecognizedCommand(name)),
            _ => None,
        },
    }
}

/// The error that the text of a stage earns before any command is asked, if it
/// earns one.
pub open spec fn stage_error(raw: Seq<char>, names: Seq<Seq<char>>) -> Option<ErrorView> {
    words_error(raw, shell_words(raw), names)
}

/// What the text of a stage asks for, where it can be broken into words.
pub open spec fn stage_target(raw: Seq<char>, names: Seq<Seq<char>>) -> Target {
    target_of(shell_words(raw).unwrap(), names)
}

/// What the words of a stage ask for, as a value to act on.
#[derive(Debug, PartialEq, Eq)]
pub enum Plan {
    /// Run an external program with these arguments.
    External { program: String, args: Vec<String> },
    /// Run the registered command at this position of the console.
    Builtin { index: usize },
    /// There is no word.
    Empty,
    /// The first word, which names no registered command.
    Unknown { name: String },
}

impl View for Plan {
    type V = Target;

    open spec fn view(&self) -> Target {
        match self {
            Plan::External { program, args } => Target::External {
                program: program@,
                args: views(args@),
            },
            Plan::Builtin { index } => Target::Builtin { index: *index as int },
            Plan::Empty => Target::Empty,
            Plan::Unknown { name } => Target::Unknown { name: name@ },
        }
    }
}

/// Copies the words from position `from` on.
fn words_from(words: &Vec<String>, from: usize) -> (rest: Vec<String>)
    requires
        from <= words@.len(),
    ensures
        views(rest@) == views(words@).skip(from as int),
{
    let mut rest: Vec<String> = Vec::new();
    let mut i: usize = from;
    while i < words.len()
        invariant
            from <= i <= words@.len(),
            rest@.len() == i - from,
            forall|j: int| 0 <= j < rest@.len() ==> (#[trigger] rest@[j])@ == words@[from + j]@,
        decreases words@.len() - i,
    {
        rest.push(words[i].clone());
        i += 1;
    }
    rest
}

/// A stage that has been resolved and can run.
pub enum Stage<'a, C: Command> {
    /// An external program and its arguments.
    External { program: String, args: Vec<String> },
    /// A registered command, the name under which it is registered, and the
    /// arguments that it has checked.
    Builtin { command: &'a C, name: String, matches: clap::ArgMatches },
}

impl<'a, C: Command> Stage<'a, C> {
    /// The name by which a failure of the stage is reported: that of the program or
    /// of the command.
    pub open spec fn name_text(&self) -> Seq<char> {
        match self {
            Stage::External { program, .. } => program@,
            Stage::Builtin { name, .. } => name@,
        }
    }

    /// Whether the stage is what `target` asks for of `console`.
    pub open spec fn resolves(&self, target: Target, console: &Console<C>) -> bool {
        match self {
            Stage::External { program, args } => target == Target::External {
                program: program@,
                args: views(args@),
            },
            Stage::Builtin { command, name, .. } => {
                &&& target matches Target::Builtin { index }
                &&& 0 <= index < console.commands().len()
                &&& **command == console.commands()[index]
                &&& name@ == console.names()[index]
            },
        }
    }

    /// The name by which a failure of the stage is reported.
    pub fn name(&self) -> (name: &str)
        ensures
            name@ == self.name_text(),
    {
        match self {
            Stage::External { program, .. } => program.as_str(),
            Stage::Builtin { name, .. } => name.as_str(),
        }
    }
}

/// Why a line is not run.
#[derive(Debug, PartialEq, Eq)]
pub enum Diagnostic {
    /// A stage is in error by its text alone.
    Error(ConsoleError),
    /// A command turned down the words of its stage; holds what the command said.
    InvalidArguments(String),
}

/// A [`Diagnostic`] with each string taken by its characters.
pub enum DiagnosticView {
    Error(ErrorView),
    InvalidArguments(Seq<char>),
}

impl View for Diagnostic {
    type V = DiagnosticView;

    open spec fn view(&self) -> DiagnosticView {
        match self {
            Diagnostic::Error(error) => DiagnosticView::Error(error@),
            Diagnostic::InvalidArguments(said) => DiagnosticView::InvalidArguments(said@),
        }
    }
}

impl Diagnostic {
    /// The text that reports the diagnostic: the line of the error, or what the
    /// command said, as it said it.
    pub open spec fn text(&self) -> Seq<char> {
        match self {
            Diagnostic::Error(error) => error@.text(),
            Diagnostic::InvalidArguments(said) => said@,
        }
    }

    /// The text that reports the diagnostic.
    pub fn message(&self) -> (text: String)
        ensures
            text@ == self.text(),
    {
        match self {
            Diagnostic::Error(error) => error.message(),
            Diagnostic::InvalidArguments(said) => said.clone(),
        }
    }
}

impl<C: Command> Console<C> {
    /// Whether `outcome` is a way in which the stage with the text `raw` and the words
    /// `words` may be resolved. A stage that is in error by its text alone is rejected
    /// with that error. A stage for an external program is resolved. A stage for a
    /// registered command is resolved, unless the command turns its words down.
    pub open spec fn admits<'a>(
        &self,
        raw: Seq<char>,
        words: Option<Seq<Seq<char>>>,
        outcome: Result<Stage<'a, C>, Diagnostic>,
    ) -> bool {
        match words_error(raw, words, self.names()) {
            Some(error) => outcome matches Err(diagnostic) && diagnostic@ == DiagnosticView::Error(
                error,
            ),
            None => {
                let target = target_of(words.unwrap(), self.names());
                match outcome {
                    Ok(stage) => stage.resolves(target, self),
                    Err(diagnostic) => target is Builtin && diagnostic is InvalidArguments,
                }
            },
        }
    }

    /// Decides what the words of a stage ask for.
    pub fn plan_stage(&self, words: &Vec<String>) -> (plan: Plan)
        ensures
            plan@ == target_of(views(words@), self.names()),
            plan matches Plan::Builtin { index } ==> index < self.commands().len(),
    {
        if words.len() == 0 {
            return Plan::Empty;
        }
        let first = chars_of(words[0].as_str());
        if first.len() == 1 && first[0] == EXTERNAL_MARK && words.len() >= 2 {
            assert(first@ =~= seq![EXTERNAL_MARK]);
            return Plan::External { program: words[1].clone(), args: words_from(words, 2) };
        }
        if first.len() >= 2 && first[0] == EXTERNAL_MARK {
            let program = words[0].as_str().substring_char(1, first.len());
            return Plan::External { program: program.to_owned(), args: words_from(words, 1) };
        }
        proof {
            crate::console::lemma_position(self.names(), first@);
        }
        match self.find(words[0].as_str()) {
            Some(index) => Plan::Builtin { index },
            None => Plan::Unknown { name: words[0].clone() },
        }
    }

    /// Makes the stage of the registered command at position `index` from what the
    /// command said of the words: the stage with the arguments that it has bound, or
    /// what it holds against them.
    pub fn bind_stage<'a>(
        &'a self,
        index: usize,
        checked: Result<clap::ArgMatches, String>,
    ) -> (outcome: Result<Stage<'a, C>, Diagnostic>)
        requires
            index < self.commands().len(),
        ensures
            match checked {
                Ok(bound) => {
                    &&& outcome matches Ok(Stage::Builtin { command, name, matches })
                    &&& *command == self.commands()[index as int]
                    &&& name@ == self.names()[index as int]
                    &&& matches == bound
                },
                Err(said) => {
                    &&& outcome matches Err(diagnostic)
                    &&& diagnostic@ == DiagnosticView::InvalidArguments(said@)
                },
            },
    {
        match checked {
            Ok(matches) => {
                let (name, command) = self.entry(index);
                Ok(Stage::Builtin { command, name: name.to_owned(), matches })
            },
            Err(said) => Err(Diagnostic::InvalidArguments(said)),
        }
    }

    /// Resolves a stage from its text `raw` and from what became of breaking that text
    /// into words. A registered command is asked to check the words.
    pub fn resolve_words<'a>(&'a self, raw: &str, words: Option<Vec<String>>) -> (outcome: Result<
        Stage<'a, C>,
        Diagnostic,
    >)
        ensures
            self.admits(
                raw@,
                match words {
                    Some(list) => Some(views(list@)),
                    None => None,
                },
                outcome,
            ),
    {
        let words = match words {
            Some(words) => words,
            None => {
                return Err(Diagnostic::Error(ConsoleError::LexingError(raw.to_owned())));
            },
        };
        match self.plan_stage(&words) {
            Plan::Empty => Err(Diagnostic::Error(ConsoleError::EmptyCommandLineError)),
            Plan::Unknown { name } => Err(
                Diagnostic::Error(ConsoleError::UnrecognizedCommand(name)),
            ),
            Plan::External { program, args } => Ok(Stage::External { program, args }),
            Plan::Builtin { index } => {
                let checked = self.entry(index).1.validate(&words);
                self.bind_stage(index, checked)
            },
        }
    }

    /// Resolves a stage from its text: breaks the text into words, decides what they
    /// ask for, and has a registered command check them.
    pub fn resolve_stage<'a>(&'a self, raw: &str) -> (outcome: Result<Stage<'a, C>, Diagnostic>)
        ensures
            self.admits(raw@, shell_words(raw@), outcome),
    {
        self.resolve_words(raw, split_words(raw))
    }
}

} // verus!
