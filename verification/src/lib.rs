//! An embeddable command-pipeline engine for interactive consoles.
//!
//! A line of input is split into stages at unquoted `|` characters, every
//! stage is resolved to a registered command or to an external program, and
//! only a pipeline whose stages all resolve is run, each stage reading what
//! the stage before it wrote. A completion engine over the same set of
//! commands proposes command names, positional arguments and option flags.

pub mod command;
pub mod completion;
pub mod console;
pub mod error;
pub mod pipeline;
pub mod session;
pub mod split;
pub mod stage;
pub mod text;
pub mod words;
