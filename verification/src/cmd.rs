use vstd::prelude::*;

use vstd::utf8::{decode_utf8, valid_utf8};

use crate::text::{i32_to_string, join_strings, spec_i32_digits, spec_join};

verus! {

/// What to execute: a command line (to be interpreted through a POSIX
/// shell), the working directory to run it in, and optional stdin text to
/// feed to the child process.
pub struct Options {
    pub work_path: String,
    pub command: String,
    pub stdin: Option<String>,
}

/// The raw result of one finished OS process: all captured stdout and
/// stderr bytes, whether the exit status denotes success, and the numeric
/// exit code when there is one (a process ended by a signal has none).
#[derive(Debug)]
pub struct ProcessOutcome {
    pub stdout: Vec<u8>,
    pub stderr: Vec<u8>,
    pub exit_ok: bool,
    pub exit_code: Option<i32>,
}

/// A failure to obtain any outcome from a process. Each variant carries
/// the rendered message of the underlying OS error, where there is one.
#[derive(Debug)]
pub enum ExecuteError {
    /// The process could not be spawned.
    Execute(String),
    /// The child's stdin pipe could not be obtained.
    CaptureStdin(),
    /// Writing the stdin text to the child failed.
    WriteStdin(String),
    /// Waiting for the child to exit failed.
    WaitForChild(String),
}

/// Decoded output of a process whose exit status denotes success.
#[derive(Debug)]
pub struct SuccessOutput {
    pub stdout: String,
    pub stderr: String,
    /// Elapsed wall-clock time in nanoseconds.
    pub duration: u64,
}

/// Decoded output of a process whose exit status denotes failure.
#[derive(Debug)]
pub struct ErrorOutput {
    pub stdout: String,
    pub stderr: String,
    pub exit_code: Option<i32>,
}

/// A process ran to completion, but its output is not a clean success.
#[derive(Debug)]
pub enum OutputError {
    /// Non-zero exit status, or termination by a signal.
    ExitFailure(ErrorOutput),
    /// The stdout bytes are not valid UTF-8.
    ReadStdout(String),
    /// The stderr bytes are not valid UTF-8.
    ReadStderr(String),
}

/// Any failure of one command, tagged with the elapsed wall-clock time in
/// nanoseconds.
#[derive(Debug)]
pub enum Error {
    Execute(ExecuteError, u64),
    Output(OutputError, u64),
}

/// The message parts of an [`ErrorOutput`]: whichever of the exit code,
/// the stdout text and the stderr text are present and non-empty, in that
/// fixed order.
pub open spec fn spec_message_parts(output: ErrorOutput) -> Seq<Seq<char>> {
    let with_code = match output.exit_code {
        Some(code) => seq!["code: "@ + spec_i32_digits(code as int)],
        None => Seq::<Seq<char>>::empty(),
    };
    let with_stdout = if output.stdout@.len() > 0 {
        with_code.push("stdout: "@ + output.stdout@)
    } else {
        with_code
    };
    if output.stderr@.len() > 0 {
        with_stdout.push("stderr: "@ + output.stderr@)
    } else {
        with_stdout
    }
}

/// The rendering of an [`ErrorOutput`]: its non-empty message parts joined
/// with comma separators.
pub open spec fn spec_error_output_message(output: ErrorOutput) -> Seq<char> {
    spec_join(spec_message_parts(output), ", "@)
}

impl ErrorOutput {
    /// Renders the failure in one line: whichever of
    /// `code: <n>`, `stdout: <text>`, `stderr: <text>` apply, joined with
    /// `, ` in that fixed order.
    pub fn to_message(&self) -> (r: String)
        ensures
            r@ == spec_error_output_message(*self),
    {
        let mut parts: Vec<String> = Vec::new();
        if let Some(code) = self.exit_code {
            let mut part = String::from_str("code: ");
            let digits = i32_to_string(code);
            part.append(digits.as_str());
            parts.push(part);
            proof {
                assert(parts.deep_view() =~= spec_message_parts(*self).take(1));
            }
        }
        if self.stdout.as_str().unicode_len() > 0 {
            let mut part = String::from_str("stdout: ");
            part.append(self.stdout.as_str());
            let ghost before = parts.deep_view();
            parts.push(part);
            proof {
                assert(parts.deep_view() =~= before.push("stdout: "@ + self.stdout@));
            }
        }
        if self.stderr.as_str().unicode_len() > 0 {
            let mut part = String::from_str("stderr: ");
            part.append(self.stderr.as_str());
            let ghost before = parts.deep_view();
            parts.push(part);
            proof {
                assert(parts.deep_view() =~= before.push("stderr: "@ + self.stderr@));
            }
        }
        proof {
            assert(parts.deep_view() =~= spec_message_parts(*self));
        }
        join_strings(&parts, ", ")
    }
}

/// The rendering of an [`ExecuteError`].
pub open spec fn spec_execute_error_message(error: ExecuteError) -> Seq<char> {
    match error {
        ExecuteError::Execute(message) => message@,
        ExecuteError::CaptureStdin() => "Failed to capture stdin."@,
        ExecuteError::WriteStdin(message) => "Failed to write to stdin. "@ + message@,
        ExecuteError::WaitForChild(message) => "Failed while waiting for child. "@ + message@,
    }
}

impl ExecuteError {
    /// Renders the failure as one line of text.
    pub fn to_message(&self) -> (r: String)
        ensures
            r@ == spec_execute_error_message(*self),
    {
        match self {
            ExecuteError::Execute(message) => message.clone(),
            ExecuteError::CaptureStdin() => String::from_str("Failed to capture stdin."),
            ExecuteError::WriteStdin(message) => {
                let mut r = String::from_str("Failed to write to stdin. ");
                r.append(message.as_str());
                r
            },
            ExecuteError::WaitForChild(message) => {
                let mut r = String::from_str("Failed while waiting for child. ");
                r.append(message.as_str());
                r
            },
        }
    }
}

/// The rendering of an [`OutputError`].
pub open spec fn spec_output_error_message(error: OutputError) -> Seq<char> {
    match error {
        OutputError::ExitFailure(output) => "Exited with non-zero exit code. "@
            + spec_error_output_message(output),
        OutputError::ReadStdout(message) => "Failed to read stdout. "@ + message@,
        OutputError::ReadStderr(message) => "Failed to read stderr. "@ + message@,
    }
}

impl OutputError {
    /// Renders the failure as one line of text.
    pub fn to_message(&self) -> (r: String)
        ensures
            r@ == spec_output_error_message(*self),
    {
        match self {
            OutputError::ExitFailure(output) => {
                let mut r = String::from_str("Exited with non-zero exit code. ");
                let inner = output.to_message();
                r.append(inner.as_str());
                r
            },
            OutputError::ReadStdout(message) => {
                let mut r = String::from_str("Failed to read stdout. ");
                r.append(message.as_str());
                r
            },
            OutputError::ReadStderr(message) => {
                let mut r = String::from_str("Failed to read stderr. ");
                r.append(message.as_str());
                r
            },
        }
    }
}

/// The rendering of an [`Error`]: the failure axis, then the inner message.
pub open spec fn spec_error_message(error: Error) -> Seq<char> {
    match error {
        Error::Execute(inner, _) => "Error while executing command. "@ + spec_execute_error_message(
            inner,
        ),
        Error::Output(inner, _) => "Error in output from command. "@ + spec_output_error_message(
            inner,
        ),
    }
}

impl Error {
    /// The elapsed wall-clock time in nanoseconds, whichever axis failed.
    pub fn duration(&self) -> (r: u64)
        ensures
            r == match *self {
                Error::Execute(_, duration) => duration,
                Error::Output(_, duration) => duration,
            },
    {
        match self {
            Error::Execute(_, duration) => *duration,
            Error::Output(_, duration) => *duration,
        }
    }

    /// Renders the failure as one line of text.
    pub fn to_message(&self) -> (r: String)
        ensures
            r@ == spec_error_message(*self),
    {
        match self {
            Error::Execute(inner, _) => {
                let mut r = String::from_str("Error while executing command. ");
                let message = inner.to_message();
                r.append(message.as_str());
                r
            },
            Error::Output(inner, _) => {
                let mut r = String::from_str("Error in output from command. ");
                let message = inner.to_message();
                r.append(message.as_str());
                r
            },
        }
    }
}

/// Decodes captured output bytes as text.
///
/// Relies on `String::from_utf8`: it succeeds exactly on input that is
/// valid UTF-8 and then returns the text those bytes encode; the error case
/// is rendered to its message here.
#[verifier::external_body]
fn string_from_utf8(bytes: Vec<u8>) -> (r: Result<String, String>)
    ensures
        r is Ok <==> valid_utf8(bytes@),
        r matches Ok(text) ==> text@ == decode_utf8(bytes@),
{
    String::from_utf8(bytes).map_err(|error| error.to_string())
}

/// Exactly how [`get_output`] classifies one process outcome: stdout must
/// decode, then stderr must decode, and then the exit status picks between
/// a success and an exit failure that keeps the optional code.
pub open spec fn get_output_spec(
    outcome: ProcessOutcome,
    duration: u64,
    r: Result<SuccessOutput, OutputError>,
) -> bool {
    if !valid_utf8(outcome.stdout@) {
        r matches Err(OutputError::ReadStdout(_))
    } else if !valid_utf8(outcome.stderr@) {
        r matches Err(OutputError::ReadStderr(_))
    } else if outcome.exit_ok {
        r matches Ok(success) && success.stdout@ == decode_utf8(outcome.stdout@)
            && success.stderr@ == decode_utf8(outcome.stderr@) && success.duration == duration
    } else {
        r matches Err(OutputError::ExitFailure(output)) && output.stdout@ == decode_utf8(
            outcome.stdout@,
        ) && output.stderr@ == decode_utf8(outcome.stderr@) && output.exit_code
            == outcome.exit_code
    }
}

/// Classifies a finished process: decodes both streams as UTF-8 (a decode
/// failure on either is a hard error, stdout checked first) and then wraps
/// the decoded text as a success or an exit failure by exit status.
pub fn get_output(outcome: ProcessOutcome, duration: u64) -> (r: Result<
    SuccessOutput,
    OutputError,
>)
    ensures
        get_output_spec(outcome, duration, r),
{
    let ProcessOutcome { stdout, stderr, exit_ok, exit_code } = outcome;
    let stdout = match string_from_utf8(stdout) {
        Ok(text) => text,
        Err(message) => {
            return Err(OutputError::ReadStdout(message));
        },
    };
    let stderr = match string_from_utf8(stderr) {
        Ok(text) => text,
        Err(message) => {
            return Err(OutputError::ReadStderr(message));
        },
    };
    if exit_ok {
        Ok(SuccessOutput { stdout, stderr, duration })
    } else {
        Err(OutputError::ExitFailure(ErrorOutput { stdout, stderr, exit_code }))
    }
}

/// Exactly how [`run`] reports one executed command: an execution fault is
/// passed through on its axis, a completed process goes through
/// [`get_output_spec`], and either failure axis carries the duration.
pub open spec fn run_spec(
    executed: Result<ProcessOutcome, ExecuteError>,
    duration: u64,
    r: Result<SuccessOutput, Error>,
) -> bool {
    match executed {
        Err(error) => r == Err::<SuccessOutput, Error>(Error::Execute(error, duration)),
        Ok(outcome) => match r {
            Ok(success) => get_output_spec(outcome, duration, Ok(success)),
            Err(failure) => failure matches Error::Output(inner, d) && d == duration
                && get_output_spec(outcome, duration, Err(inner)),
        },
    }
}

/// Turns the result of one executed command into the typed overall result:
/// execution faults and output faults each keep their axis, and both carry
/// the elapsed time. The decoded output of a cleanly exited process is
/// returned as the success.
pub fn run(executed: Result<ProcessOutcome, ExecuteError>, duration: u64) -> (r: Result<
    SuccessOutput,
    Error,
>)
    ensures
        run_spec(executed, duration, r),
{
    match executed {
        Err(error) => Err(Error::Execute(error, duration)),
        Ok(outcome) => match get_output(outcome, duration) {
            Ok(success) => Ok(success),
            Err(output_error) => Err(Error::Output(output_error, duration)),
        },
    }
}

} // verus!
