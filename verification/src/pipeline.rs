use vstd::prelude::*;

use crate::cmd::{spec_error_message, Error, OutputError, SuccessOutput};
use crate::language::RunInstructions;
use crate::text::{i32_to_string, spec_i32_digits};

verus! {

/// The externally visible result of one request: decoded stdout and
/// stderr, an error rendering (empty on success), and the elapsed
/// wall-clock time in nanoseconds.
#[derive(Debug)]
pub struct RunResult {
    pub stdout: String,
    pub stderr: String,
    pub error: String,
    pub duration: u64,
}

/// The mathematical value of a [`RunResult`].
#[verifier::ext_equal]
pub struct SpecRunResult {
    pub stdout: Seq<char>,
    pub stderr: Seq<char>,
    pub error: Seq<char>,
    pub duration: u64,
}

impl View for RunResult {
    type V = SpecRunResult;

    open spec fn view(&self) -> SpecRunResult {
        SpecRunResult {
            stdout: self.stdout@,
            stderr: self.stderr@,
            error: self.error@,
            duration: self.duration,
        }
    }
}

/// The elapsed time a failure carries, whichever axis failed.
pub open spec fn spec_error_duration(error: Error) -> u64 {
    match error {
        Error::Execute(_, duration) => duration,
        Error::Output(_, duration) => duration,
    }
}

/// The result reported for a clean success: the decoded streams, an empty
/// error text, and the measured duration.
pub open spec fn spec_to_success_result(output: SuccessOutput) -> SpecRunResult {
    SpecRunResult {
        stdout: output.stdout@,
        stderr: output.stderr@,
        error: Seq::empty(),
        duration: output.duration,
    }
}

/// The result reported for a failed command. An exit failure keeps the
/// program's own streams and renders only the exit code; every other
/// failure has empty streams and the full error rendering.
pub open spec fn spec_to_error_result(error: Error) -> SpecRunResult {
    match error {
        Error::Output(OutputError::ExitFailure(output), duration) => SpecRunResult {
            stdout: output.stdout@,
            stderr: output.stderr@,
            error: match output.exit_code {
                Some(code) => "Exit code: "@ + spec_i32_digits(code as int),
                None => Seq::empty(),
            },
            duration,
        },
        _ => SpecRunResult {
            stdout: Seq::empty(),
            stderr: Seq::empty(),
            error: spec_error_message(error),
            duration: spec_error_duration(error),
        },
    }
}

/// Wraps a clean success as the externally visible result.
pub fn to_success_result(output: SuccessOutput) -> (r: RunResult)
    ensures
        r@ == spec_to_success_result(output),
{
    let r = RunResult {
        stdout: output.stdout,
        stderr: output.stderr,
        error: String::new(),
        duration: output.duration,
    };
    proof {
        assert(r@ =~= spec_to_success_result(output));
    }
    r
}

/// Wraps a failed command as the externally visible result.
pub fn to_error_result(error: Error) -> (r: RunResult)
    ensures
        r@ == spec_to_error_result(error),
{
    let duration = error.duration();
    match error {
        Error::Output(OutputError::ExitFailure(output), _) => {
            let error_text = match output.exit_code {
                Some(code) => {
                    let mut text = String::from_str("Exit code: ");
                    let digits = i32_to_string(code);
                    text.append(digits.as_str());
                    text
                },
                None => String::new(),
            };
            let r = RunResult {
                stdout: output.stdout,
                stderr: output.stderr,
                error: error_text,
                duration,
            };
            proof {
                assert(r@ =~= spec_to_error_result(
                    Error::Output(OutputError::ExitFailure(output), duration),
                ));
            }
            r
        },
        other => {
            let message = other.to_message();
            let r = RunResult {
                stdout: String::new(),
                stderr: String::new(),
                error: message,
                duration,
            };
            proof {
                assert(r@ =~= spec_to_error_result(other));
            }
            r
        },
    }
}

/// The final report of one pipeline: the result to hand to the caller,
/// and whether it came from a failed build command (so that a compile
/// error can be told apart from the run command's own outcome).
#[derive(Debug)]
pub struct Report {
    pub result: RunResult,
    pub from_build: bool,
}

/// Drives one request through its commands: every build command strictly
/// in order, each with no stdin; then, only if all builds succeeded, the
/// run command with the request's stdin. The first build failure finishes
/// the pipeline at once, and the run command's outcome, success or
/// failure, always finishes it.
///
/// The surrounding (unverified) glue only executes whatever
/// [`Pipeline::next_command`] demands and feeds the outcome back through
/// [`Pipeline::record`]; every decision is made here.
pub struct Pipeline {
    instructions: RunInstructions,
    next_build: usize,
    report: Option<Report>,
}

impl Pipeline {
    /// The instructions being executed.
    pub closed spec fn spec_instructions(&self) -> crate::language::SpecRunInstructions {
        self.instructions@
    }

    /// How many build commands have succeeded so far.
    pub closed spec fn spec_next_build(&self) -> int {
        self.next_build as int
    }

    /// The final report, once the pipeline is finished.
    pub closed spec fn spec_report(&self) -> Option<Report> {
        self.report
    }

    /// Whether the pipeline is finished.
    pub open spec fn spec_done(&self) -> bool {
        self.spec_report() is Some
    }

    /// Whether the pipeline still has a build command to execute.
    pub open spec fn spec_building(&self) -> bool {
        !self.spec_done() && self.spec_next_build()
            < self.spec_instructions().build_commands.len()
    }

    /// Internal consistency: the build position never passes the end.
    pub open spec fn wf(&self) -> bool {
        0 <= self.spec_next_build() <= self.spec_instructions().build_commands.len()
    }

    /// Starts a pipeline at its first build command (or directly at the
    /// run command when there are no build commands).
    pub fn new(instructions: RunInstructions) -> (p: Pipeline)
        ensures
            p.wf(),
            p.spec_instructions() == instructions@,
            p.spec_next_build() == 0,
            !p.spec_done(),
    {
        Pipeline { instructions, next_build: 0, report: None }
    }

    /// What [`Pipeline::next_command`] returns: the next build command
    /// without stdin while builds remain, then the run command with
    /// stdin, and nothing once the pipeline is finished.
    pub open spec fn next_command_spec(&self, r: Option<(String, bool)>) -> bool {
        if self.spec_done() {
            r is None
        } else if self.spec_building() {
            r matches Some((command, with_stdin)) && command@ == self.spec_instructions()
                .build_commands[self.spec_next_build()] && !with_stdin
        } else {
            r matches Some((command, with_stdin)) && command@ == self.spec_instructions()
                .run_command && with_stdin
        }
    }

    /// The next command to execute, paired with whether the request's
    /// stdin text is to be fed to it.
    pub fn next_command(&self) -> (r: Option<(String, bool)>)
        requires
            self.wf(),
        ensures
            self.next_command_spec(r),
    {
        if self.report.is_some() {
            None
        } else if self.next_build < self.instructions.build_commands.len() {
            Some((self.instructions.build_commands[self.next_build].clone(), false))
        } else {
            Some((self.instructions.run_command.clone(), true))
        }
    }

    /// What [`Pipeline::record`] does with one command's outcome.
    pub open spec fn record_spec(
        pre: Pipeline,
        outcome: Result<SuccessOutput, Error>,
        post: Pipeline,
    ) -> bool {
        &&& post.spec_instructions() == pre.spec_instructions()
        &&& if pre.spec_building() {
            match outcome {
                Ok(_) => {
                    &&& !post.spec_done()
                    &&& post.spec_next_build() == pre.spec_next_build() + 1
                },
                Err(error) => {
                    &&& post.spec_next_build() == pre.spec_next_build()
                    &&& post.spec_report() matches Some(report) && report.from_build
                        && report.result@ == spec_to_error_result(error)
                },
            }
        } else {
            match outcome {
                Ok(success) => post.spec_report() matches Some(report) && !report.from_build
                    && report.result@ == spec_to_success_result(success),
                Err(error) => post.spec_report() matches Some(report) && !report.from_build
                    && report.result@ == spec_to_error_result(error),
            }
        }
    }

    /// Feeds back the outcome of the command that [`Pipeline::next_command`]
    /// demanded. A successful build advances to the next step; a failed
    /// build finishes the pipeline with that step's error, marked as a
    /// build failure; the run command's outcome, either way, becomes the
    /// final report.
    pub fn record(&mut self, outcome: Result<SuccessOutput, Error>)
        requires
            old(self).wf(),
            !old(self).spec_done(),
        ensures
            final(self).wf(),
            Pipeline::record_spec(*old(self), outcome, *final(self)),
    {
        if self.next_build < self.instructions.build_commands.len() {
            match outcome {
                Ok(_) => {
                    self.next_build += 1;
                },
                Err(error) => {
                    let result = to_error_result(error);
                    self.report = Some(Report { result, from_build: true });
                },
            }
        } else {
            match outcome {
                Ok(success) => {
                    let result = to_success_result(success);
                    self.report = Some(Report { result, from_build: false });
                },
                Err(error) => {
                    let result = to_error_result(error);
                    self.report = Some(Report { result, from_build: false });
                },
            }
        }
    }

    /// Hands out the final report once the pipeline is finished.
    pub fn into_report(self) -> (r: Option<Report>)
        ensures
            r == self.spec_report(),
    {
        self.report
    }
}

/// A failed build command finishes the pipeline at once: the machine is
/// done, the reported result is exactly that command's error, marked as a
/// build failure, and no further command — neither a later build command
/// nor the run command — is ever demanded again.
pub proof fn lemma_build_failure_short_circuits(
    pre: Pipeline,
    error: Error,
    post: Pipeline,
)
    requires
        pre.wf(),
        pre.spec_building(),
        Pipeline::record_spec(pre, Err(error), post),
    ensures
        post.spec_done(),
        post.spec_report() matches Some(report) && report.from_build && report.result@
            == spec_to_error_result(error),
        forall|r: Option<(String, bool)>| post.next_command_spec(r) ==> r is None,
{
}

/// The run command is only ever demanded after every build command has
/// been recorded as a success.
pub proof fn lemma_run_needs_all_builds(p: Pipeline, r: Option<(String, bool)>)
    requires
        p.wf(),
        p.next_command_spec(r),
        r matches Some(command) && command.1,
    ensures
        p.spec_next_build() == p.spec_instructions().build_commands.len(),
        !p.spec_done(),
{
}

} // verus!
