//! The loop of a console, one decision at a time.
//!
//! Reading a line, running a program and writing are the caller's part. The
//! console decides what is done next from what has just happened: the caller
//! does what an [`Action`] says and comes back with the [`Event`] that tells how
//! it went. Whatever a line does wrong is reported, and the next line is read.
//! The loop ends when the input ends, when reading fails, or when the output of
//! a line cannot be written.

use vstd::prelude::*;
use crate::command::Command;
use crate::console::Console;
use crate::error::{ConsoleError, ErrorView};
use crate::pipeline::{ExternalCall, Pipeline, Progress};
use crate::split::split_stages;
use crate::stage::{stage_error, Diagnostic, DiagnosticView};

verus! {

/// What has just happened.
pub enum Event<'a, C: Command> {
    /// The console has been started.
    Started,
    /// A line has been read.
    Line(String),
    /// The input has come to its end.
    EndOfInput,
    /// Reading a line has failed; holds what the editor said.
    ReadFailed(String),
    /// The program of an external call has run; holds the call and what the
    /// program wrote or, where it could not be run, why not.
    Exited(ExternalCall<'a, C>, Result<String, String>),
    /// The output of a line has been written and flushed, or could not be.
    Written(bool),
    /// A diagnostic has been written.
    Reported,
}

/// What the caller does next.
pub enum Action<'a, C: Command> {
    /// Show the prompt, read a line, and come back with [`Event::Line`],
    /// [`Event::EndOfInput`] or [`Event::ReadFailed`].
    Read,
    /// Run the program of this call on its input, and come back with
    /// [`Event::Exited`].
    Spawn(ExternalCall<'a, C>),
    /// Write this text to the output as it is, flush, and come back with
    /// [`Event::Written`].
    Write(String),
    /// Write the line of this diagnostic to the diagnostics, and come back with
    /// [`Event::Reported`].
    Report(Diagnostic),
    /// Leave the loop with this result.
    Stop(Result<(), ConsoleError>),
}

/// Whether `action` is what follows from the progress of a pipeline: the output of
/// a finished line is written, a failure is reported, an external call is made.
pub open spec fn answers<'a, C: Command>(
    progress: Progress<'a, C>,
    action: Action<'a, C>,
) -> bool {
    match progress {
        Progress::Finished(output) => action == Action::<'a, C>::Write(output),
        Progress::Failed(error) => action == Action::<'a, C>::Report(Diagnostic::Error(error)),
        Progress::Spawn(call) => action == Action::<'a, C>::Spawn(call),
    }
}

/// Whether `action` is a way in which `pipeline` may go on.
pub open spec fn continues<'a, C: Command>(
    pipeline: Pipeline<'a, C>,
    action: Action<'a, C>,
) -> bool {
    exists|progress: Progress<'a, C>|
        #[trigger] pipeline.advanced(progress) && answers(progress, action)
}

/// A line is run as a whole or not at all. Where a stage of the line is in error by
/// its text alone, whatever the console decides for the line is a report: nothing
/// is written and no program is asked for. What is reported is the error of the
/// first such stage, unless a command before it has turned its words down.
pub proof fn lemma_unresolved_line_is_reported<'a, C: Command>(
    console: &Console<C>,
    line: String,
    action: Action<'a, C>,
    k: int,
)
    requires
        0 <= k < split_stages(line@).len(),
        stage_error(split_stages(line@)[k], console.names()) is Some,
        console.decides(Event::Line(line), action),
    ensures
        action matches Action::Report(diagnostic) && match diagnostic@ {
            DiagnosticView::InvalidArguments(_) => true,
            DiagnosticView::Error(error) => exists|j: int|
                0 <= j <= k && stage_error(#[trigger] split_stages(line@)[j], console.names())
                    == Some(error),
        },
{
    let outcome = choose|outcome: Result<Pipeline<'a, C>, Diagnostic>|
        #[trigger] console.resolved(line@, outcome) && match outcome {
            Ok(pipeline) => continues(pipeline, action),
            Err(diagnostic) => action == Action::<'a, C>::Report(diagnostic),
        };
    assert(outcome is Err);
}

/// Nothing that a line does wrong ends the loop. The loop ends only when the input
/// has come to its end, when reading has failed, or when output could not be
/// written.
pub proof fn lemma_only_the_stream_ends_the_loop<'a, C: Command>(
    console: &Console<C>,
    event: Event<'a, C>,
    action: Action<'a, C>,
)
    requires
        console.decides(event, action),
        action is Stop,
    ensures
        event is EndOfInput || event is ReadFailed || event matches Event::Written(false),
        event is EndOfInput <==> action matches Action::Stop(Ok(_)),
{
}

/// Lets `pipeline` go on and says what to do next.
fn drive<'a, C: Command>(pipeline: Pipeline<'a, C>) -> (action: Action<'a, C>)
    ensures
        continues(pipeline, action),
{
    match pipeline.advance() {
        Progress::Finished(output) => Action::Write(output),
        Progress::Failed(error) => Action::Report(Diagnostic::Error(error)),
        Progress::Spawn(call) => Action::Spawn(call),
    }
}

impl<C: Command> Console<C> {
    /// Whether `action` is a way to answer `event`.
    ///
    /// A line is resolved as a whole and then run as far as it goes without the
    /// caller; an external call that has ended lets its pipeline go on. Neither
    /// ever ends the loop. The end of the input ends it in peace, and a failure to
    /// read or to write ends it with that error. Everything else reads on.
    pub open spec fn decides<'a>(&self, event: Event<'a, C>, action: Action<'a, C>) -> bool {
        match event {
            Event::Started => action is Read,
            Event::Reported => action is Read,
            Event::Written(done) => if done {
                action is Read
            } else {
                action matches Action::Stop(Err(error)) && error@ == ErrorView::StdoutWriteError
            },
            Event::EndOfInput => action matches Action::Stop(Ok(_)),
            Event::ReadFailed(said) => action matches Action::Stop(Err(error)) && error@
                == ErrorView::ReadlineError(said@),
            Event::Line(line) => exists|outcome: Result<Pipeline<'a, C>, Diagnostic>|
                #[trigger] self.resolved(line@, outcome) && match outcome {
                    Ok(pipeline) => continues(pipeline, action),
                    Err(diagnostic) => action == Action::<'a, C>::Report(diagnostic),
                },
            Event::Exited(call, result) => exists|next: Result<Pipeline<'a, C>, ConsoleError>|
                #[trigger] call.rest().settled(call.program_text(), result, next) && match next {
                    Ok(pipeline) => continues(pipeline, action),
                    Err(error) => action == Action::<'a, C>::Report(Diagnostic::Error(error)),
                },
        }
    }

    /// Decides what to do next.
    pub fn step<'a>(&'a self, event: Event<'a, C>) -> (action: Action<'a, C>)
        ensures
            self.decides(event, action),
    {
        match event {
            Event::Started => Action::Read,
            Event::Reported => Action::Read,
            Event::Written(done) => if done {
                Action::Read
            } else {
                Action::Stop(Err(ConsoleError::StdoutWriteError))
            },
            Event::EndOfInput => Action::Stop(Ok(())),
            Event::ReadFailed(said) => Action::Stop(Err(ConsoleError::ReadlineError(said))),
            Event::Line(line) => match self.resolve_line(line.as_str()) {
                Ok(pipeline) => drive(pipeline),
                Err(diagnostic) => Action::Report(diagnostic),
            },
            Event::Exited(call, result) => match call.finish(result) {
                Ok(pipeline) => drive(pipeline),
                Err(error) => Action::Report(Diagnostic::Error(error)),
            },
        }
    }
}

} // verus!
