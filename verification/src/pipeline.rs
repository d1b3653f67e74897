//! Running a line in two phases.
//!
//! First every stage of the line is resolved; a stage that cannot be resolved
//! rejects the whole line, and nothing of it runs. Then the stages run in order,
//! each one reading what the stage before it wrote. A registered command runs
//! right here. An external program is the caller's to run: the pipeline stops at
//! such a stage, hands out the call, and goes on when it is told how the call
//! ended.

use std::collections::VecDeque;
use vstd::prelude::*;
use crate::command::Command;
use crate::console::Console;
use crate::error::{ConsoleError, ErrorView};
use crate::split::{split_pipeline, split_stages};
use crate::stage::{stage_error, stage_target, Diagnostic, DiagnosticView, Stage};
use crate::text::views;

verus! {

/// The error of a stage that failed while it ran: the name of the stage and what it
/// said, wrapped as a broken pipeline where the line has more than one stage.
pub open spec fn stage_failure(name: Seq<char>, said: Seq<char>, total: int) -> ErrorView {
    if total > 1 {
        ErrorView::BrokenPipeError(Box::new(ErrorView::CommandError(name, said)))
    } else {
        ErrorView::CommandError(name, said)
    }
}

/// A failure in a line of several stages is reported as a broken pipeline, and the
/// report names the stage that failed and holds what the stage said.
pub proof fn lemma_broken_pipe_text(name: Seq<char>, said: Seq<char>, total: int)
    requires
        total > 1,
    ensures
        stage_failure(name, said, total).text() == "Pipeline broken: "@ + (
        "Error executing command `"@ + name + "`: "@ + said),
        stage_failure(name, said, 1).text() == "Error executing command `"@ + name + "`: "@
            + said,
{
    reveal_with_fuel(ErrorView::text, 2);
}

/// The number of stages that stand before the first external one: the stages that
/// run without the caller's help.
pub open spec fn leading_builtins<C: Command>(stages: Seq<Stage<'_, C>>) -> nat
    decreases stages.len(),
{
    if stages.len() == 0 || stages[0] is External {
        0
    } else {
        1 + leading_builtins(stages.skip(1))
    }
}

/// Makes the error of a stage that failed while it ran.
pub fn fail_stage(name: String, said: String, total: usize) -> (error: ConsoleError)
    ensures
        error@ == stage_failure(name@, said@, total as int),
{
    proof {
        reveal_with_fuel(ConsoleError::model, 2);
    }
    let error = ConsoleError::CommandError(name, said);
    if total > 1 {
        ConsoleError::BrokenPipeError(Box::new(error))
    } else {
        error
    }
}

/// The stages of one line, all resolved, with the text that the next stage reads.
pub struct Pipeline<'a, C: Command> {
    pending: VecDeque<Stage<'a, C>>,
    total: usize,
    carried: String,
}

/// A call of an external program that a pipeline waits for.
pub struct ExternalCall<'a, C: Command> {
    program: String,
    args: Vec<String>,
    input: String,
    rest: Pipeline<'a, C>,
}

/// How far a pipeline has come.
pub enum Progress<'a, C: Command> {
    /// Every stage has run; holds what the last one wrote.
    Finished(String),
    /// A stage failed, and no stage behind it runs.
    Failed(ConsoleError),
    /// The next stage is an external program, for the caller to run.
    Spawn(ExternalCall<'a, C>),
}

impl<'a, C: Command> Pipeline<'a, C> {
    /// The stages that have not run yet, the next one first.
    pub closed spec fn pending(&self) -> Seq<Stage<'a, C>> {
        self.pending@
    }

    /// The number of stages of the line.
    pub closed spec fn total(&self) -> int {
        self.total as int
    }

    /// What the next stage reads: what the stage before it wrote, or nothing for the
    /// first stage.
    pub closed spec fn carried(&self) -> Seq<char> {
        self.carried@
    }

    /// The number of stages that have not run yet.
    pub fn remaining(&self) -> (n: usize)
        ensures
            n == self.pending().len(),
    {
        self.pending.len()
    }

    /// What becomes of the pipeline when the stage before its pending ones, named
    /// `name`, has ended with `result`: what the stage wrote is what the next stage
    /// reads, word for word, and a failure of the stage is the failure of the line.
    pub open spec fn settled(
        &self,
        name: Seq<char>,
        result: Result<String, String>,
        next: Result<Pipeline<'a, C>, ConsoleError>,
    ) -> bool {
        match result {
            Ok(output) => {
                &&& next matches Ok(pipeline)
                &&& pipeline.pending() == self.pending()
                &&& pipeline.total() == self.total()
                &&& pipeline.carried() == output@
            },
            Err(said) => {
                &&& next matches Err(error)
                &&& error@ == stage_failure(name, said@, self.total())
            },
        }
    }

    /// Records how the stage before the pending ones, named `name`, has ended.
    pub fn settle(self, name: String, result: Result<String, String>) -> (next: Result<
        Pipeline<'a, C>,
        ConsoleError,
    >)
        ensures
            self.settled(name@, result, next),
    {
        let Pipeline { pending, total, carried } = self;
        match result {
            Ok(output) => Ok(Pipeline { pending, total, carried: output }),
            Err(said) => Err(fail_stage(name, said, total)),
        }
    }

    /// Whether `progress` is a way in which the pipeline may go on. An external stage
    /// at the front is handed out with what the pipeline carries, and a pipeline
    /// without stages is finished with it. Registered commands in front run first;
    /// what they write, and whether one of them fails, is theirs to decide.
    pub open spec fn advanced(&self, progress: Progress<'a, C>) -> bool {
        match progress {
            Progress::Finished(output) => {
                &&& leading_builtins(self.pending()) == self.pending().len()
                &&& self.pending().len() == 0 ==> output@ == self.carried()
            },
            Progress::Failed(error) => exists|k: int, said: Seq<char>|
                {
                    &&& 0 <= k < leading_builtins(self.pending())
                    &&& error@ == #[trigger] stage_failure(
                        self.pending()[k].name_text(),
                        said,
                        self.total(),
                    )
                },
            Progress::Spawn(call) => {
                let k = leading_builtins(self.pending()) as int;
                &&& k < self.pending().len()
                &&& self.pending()[k] matches Stage::External { program, args }
                &&& call.program_text() == program@
                &&& call.args_text() == views(args@)
                &&& k == 0 ==> call.input_text() == self.carried()
                &&& call.rest().pending() == self.pending().skip(k + 1)
                &&& call.rest().total() == self.total()
            },
        }
    }

    /// Runs the stages that are registered commands, in order, each on what the
    /// stage before it wrote, until the line is done, a stage fails, or the next
    /// stage is an external program.
    pub fn advance(self) -> (progress: Progress<'a, C>)
        ensures
            self.advanced(progress),
    {
        let ghost stages = self.pending@;
        let mut pipeline = self;
        let ghost mut done: int = 0;
        loop
            invariant
                stages == self.pending(),
                pipeline.total() == self.total(),
                0 <= done <= stages.len(),
                pipeline.pending() == stages.skip(done),
                leading_builtins(stages) == done + leading_builtins(pipeline.pending()),
                done == 0 ==> pipeline.carried() == self.carried(),
            decreases pipeline.pending().len(),
        {
            let ghost before = pipeline.pending@;
            match pipeline.pending.pop_front() {
                None => {
                    return Progress::Finished(pipeline.carried);
                },
                Some(stage) => {
                    assert(pipeline.pending@ =~= stages.skip(done + 1));
                    match stage {
                        Stage::External { program, args } => {
                            let Pipeline { pending, total, carried } = pipeline;
                            let rest = Pipeline { pending, total, carried: String::new() };
                            return Progress::Spawn(
                                ExternalCall { program, args, input: carried, rest },
                            );
                        },
                        Stage::Builtin { command, name, matches } => {
                            assert(leading_builtins(before) == 1 + leading_builtins(
                                pipeline.pending@,
                            ));
                            let mut output = String::new();
                            let result = match command.execute(
                                matches,
                                pipeline.carried.as_str(),
                                &mut output,
                            ) {
                                Ok(()) => Ok(output),
                                Err(said) => Err(said),
                            };
                            match pipeline.settle(name, result) {
                                Ok(next) => {
                                    pipeline = next;
                                    proof {
                                        done = done + 1;
                                    }
                                },
                                Err(error) => {
                                    assert(error@ == stage_failure(
                                        stages[done].name_text(),
                                        result->Err_0@,
                                        self.total(),
                                    ));
                                    return Progress::Failed(error);
                                },
                            }
                        },
                    }
                },
            }
        }
    }
}

impl<C: Command> Console<C> {
    /// Whether `outcome` is a way in which `line` may be resolved. A line is resolved
    /// only if every stage is, and then stage for stage. It is rejected by its first
    /// stage, in order, that is in error by its text or whose command turns its words
    /// down.
    pub open spec fn resolved<'a>(
        &self,
        line: Seq<char>,
        outcome: Result<Pipeline<'a, C>, Diagnostic>,
    ) -> bool {
        let raws = split_stages(line);
        match outcome {
            Ok(pipeline) => {
                &&& pipeline.total() == raws.len()
                &&& pipeline.carried() == Seq::<char>::empty()
                &&& pipeline.pending().len() == raws.len()
                &&& forall|k: int|
                    0 <= k < raws.len() ==> {
                        &&& stage_error(#[trigger] raws[k], self.names()) is None
                        &&& pipeline.pending()[k].resolves(
                            stage_target(raws[k], self.names()),
                            self,
                        )
                    }
            },
            Err(diagnostic) => exists|k: int|
                {
                    &&& 0 <= k < raws.len()
                    &&& forall|j: int|
                        0 <= j < k ==> stage_error(#[trigger] raws[j], self.names()) is None
                    &&& match diagnostic@ {
                        DiagnosticView::Error(error) => stage_error(
                            #[trigger] raws[k],
                            self.names(),
                        ) == Some(error),
                        DiagnosticView::InvalidArguments(_) => {
                            &&& stage_error(raws[k], self.names()) is None
                            &&& stage_target(raws[k], self.names()) is Builtin
                        },
                    }
                },
        }
    }

    /// Resolves every stage of `line`, in order. The first stage that cannot be
    /// resolved rejects the line; nothing has run by then, and nothing will.
    pub fn resolve_line<'a>(&'a self, line: &str) -> (outcome: Result<Pipeline<'a, C>, Diagnostic>)
        ensures
            self.resolved(line@, outcome),
    {
        let raws = split_pipeline(line);
        let mut pending: VecDeque<Stage<'a, C>> = VecDeque::new();
        let mut k: usize = 0;
        while k < raws.len()
            invariant
                k <= raws@.len(),
                raws@.len() == split_stages(line@).len(),
                forall|j: int|
                    0 <= j < raws@.len() ==> (#[trigger] raws@[j])@ == split_stages(line@)[j],
                pending@.len() == k,
                forall|j: int|
                    0 <= j < k ==> {
                        &&& stage_error(#[trigger] split_stages(line@)[j], self.names()) is None
                        &&& pending@[j].resolves(
                            stage_target(split_stages(line@)[j], self.names()),
                            self,
                        )
                    },
            decreases raws@.len() - k,
        {
            let raw = raws[k];
            match self.resolve_stage(raw) {
                Ok(stage) => {
                    pending.push_back(stage);
                },
                Err(diagnostic) => {
                    return Err(diagnostic);
                },
            }
            k += 1;
        }
        Ok(Pipeline { pending, total: k, carried: String::new() })
    }
}

impl<'a, C: Command> ExternalCall<'a, C> {
    /// The name of the program to run.
    pub closed spec fn program_text(&self) -> Seq<char> {
        self.program@
    }

    /// The arguments of the program.
    pub closed spec fn args_text(&self) -> Seq<Seq<char>> {
        views(self.args@)
    }

    /// What the program reads.
    pub closed spec fn input_text(&self) -> Seq<char> {
        self.input@
    }

    /// The pipeline that waits for the call: the stages behind the external one.
    pub closed spec fn rest(&self) -> Pipeline<'a, C> {
        self.rest
    }

    /// The name of the program to run.
    pub fn program(&self) -> (program: &str)
        ensures
            program@ == self.program_text(),
    {
        self.program.as_str()
    }

    /// The arguments of the program, to hand over as they are.
    pub fn args(&self) -> (args: &Vec<String>)
        ensures
            views(args@) == self.args_text(),
    {
        &self.args
    }

    /// What the program reads: what the stage before it wrote.
    pub fn input(&self) -> (input: &str)
        ensures
            input@ == self.input_text(),
    {
        self.input.as_str()
    }

    /// Tells the pipeline how the call ended: what the program wrote or, where it
    /// could not be run, why not.
    pub fn finish(self, result: Result<String, String>) -> (next: Result<
        Pipeline<'a, C>,
        ConsoleError,
    >)
        ensures
            self.rest().settled(self.program_text(), result, next),
    {
        let ExternalCall { program, args, input, rest } = self;
        rest.settle(program, result)
    }
}

} // verus!
