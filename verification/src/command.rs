//! What a console asks of a command: a name, the shape of its arguments, a
//! check of the words of a stage against that shape, and the work itself.

use vstd::prelude::*;
use crate::text::views;

verus! {

/// `clap::ArgMatches`: the arguments of a command once they have been checked. The
/// console hands such a value from [`Command::validate`] to [`Command::execute`] and
/// never looks inside.
#[verifier::external_type_specification]
#[verifier::external_body]
pub struct ExArgMatches(clap::ArgMatches);

/// An option of a command. It has a long form, a short form, or both.
#[derive(Debug, Clone, PartialEq, Eq)]
pub enum OptionSpec {
    /// Written `--long` only.
    Long(String),
    /// Written `-s` only.
    Short(char),
    /// Written `--long` or `-s`.
    Both(String, char),
}

/// An [`OptionSpec`] with its long form taken by its characters.
pub enum OptionView {
    Long(Seq<char>),
    Short(char),
    Both(Seq<char>, char),
}

impl View for OptionSpec {
    type V = OptionView;

    open spec fn view(&self) -> OptionView {
        match self {
            OptionSpec::Long(long) => OptionView::Long(long@),
            OptionSpec::Short(short) => OptionView::Short(*short),
            OptionSpec::Both(long, short) => OptionView::Both(long@, *short),
        }
    }
}

impl OptionView {
    /// The long form of the option, if it has one.
    pub open spec fn long(self) -> Option<Seq<char>> {
        match self {
            OptionView::Long(long) | OptionView::Both(long, _) => Some(long),
            OptionView::Short(_) => None,
        }
    }

    /// The short form of the option, if it has one.
    pub open spec fn short(self) -> Option<char> {
        match self {
            OptionView::Short(short) | OptionView::Both(_, short) => Some(short),
            OptionView::Long(_) => None,
        }
    }
}

impl OptionSpec {
    /// The option with these forms. There is none without a form.
    pub fn new(long: Option<String>, short: Option<char>) -> (option: Option<OptionSpec>)
        ensures
            match option {
                Some(option) => {
                    &&& option@.short() == short
                    &&& match long {
                        Some(long) => option@.long() == Some(long@),
                        None => option@.long() is None,
                    }
                },
                None => long is None && short is None,
            },
    {
        match (long, short) {
            (Some(long), Some(short)) => Some(OptionSpec::Both(long, short)),
            (Some(long), None) => Some(OptionSpec::Long(long)),
            (None, Some(short)) => Some(OptionSpec::Short(short)),
            (None, None) => None,
        }
    }

    /// The long form of the option, if it has one.
    pub fn long(&self) -> (long: Option<&str>)
        ensures
            match long {
                Some(long) => self@.long() == Some(long@),
                None => self@.long() is None,
            },
    {
        match self {
            OptionSpec::Long(long) | OptionSpec::Both(long, _) => Some(long.as_str()),
            OptionSpec::Short(_) => None,
        }
    }

    /// The short form of the option, if it has one.
    pub fn short(&self) -> (short: Option<char>)
        ensures
            short == self@.short(),
    {
        match self {
            OptionSpec::Short(short) | OptionSpec::Both(_, short) => Some(*short),
            OptionSpec::Long(_) => None,
        }
    }
}

/// The arguments that a command declares: the names of its positional arguments, in
/// order, and its options.
#[derive(Debug, Clone, PartialEq, Eq)]
pub struct ArgSchema {
    pub positionals: Vec<String>,
    pub options: Vec<OptionSpec>,
}

/// An [`ArgSchema`] as plain sequences.
pub struct SchemaView {
    pub positionals: Seq<Seq<char>>,
    pub options: Seq<OptionView>,
}

impl View for ArgSchema {
    type V = SchemaView;

    open spec fn view(&self) -> SchemaView {
        SchemaView {
            positionals: views(self.positionals@),
            options: self.options@.map_values(|o: OptionSpec| o@),
        }
    }
}

/// A command that a console can run as a stage of a pipeline.
///
/// A console asks a command for its name once, when the command is registered.
/// Nothing is assumed of what the methods return.
pub trait Command {
    /// The name under which the command is registered and found.
    fn get_name(&self) -> String;

    /// The positional arguments and the options that the command declares.
    fn get_schema(&self) -> ArgSchema;

    /// Checks the words of a stage, the name of the command first, and binds them.
    /// An error is the text that tells the user what is wrong with them.
    fn validate(&self, words: &Vec<String>) -> Result<clap::ArgMatches, String>;

    /// Runs the command on checked arguments. `stdin` is what the stage before wrote,
    /// `stdout` takes what this stage writes. An error is the text of the failure.
    fn execute(&self, args: clap::ArgMatches, stdin: &str, stdout: &mut String) -> Result<
        (),
        String,
    >;
}

} // verus!
