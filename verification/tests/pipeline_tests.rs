use code_runner::cmd::{Error, ErrorOutput, ExecuteError, OutputError, SuccessOutput};
use code_runner::language::RunInstructions;
use code_runner::pipeline::{to_error_result, to_success_result, Pipeline};

fn instructions(builds: &[&str], run: &str) -> RunInstructions {
    RunInstructions {
        build_commands: builds.iter().map(|c| c.to_string()).collect(),
        run_command: run.to_string(),
    }
}

fn success(stdout: &str) -> SuccessOutput {
    SuccessOutput {
        stdout: stdout.to_string(),
        stderr: "".to_string(),
        duration: 1,
    }
}

fn exit_failure(stderr: &str, code: i32, duration: u64) -> Error {
    Error::Output(
        OutputError::ExitFailure(ErrorOutput {
            stdout: "".to_string(),
            stderr: stderr.to_string(),
            exit_code: Some(code),
        }),
        duration,
    )
}

#[test]
fn build_failure_stops_the_pipeline() {
    let mut p = Pipeline::new(instructions(&["cmdA", "cmdB"], "run"));
    let (command, with_stdin) = p.next_command().expect("first build expected");
    assert_eq!(command, "cmdA");
    assert!(!with_stdin);

    p.record(Err(exit_failure("cmdA broke", 1, 2)));
    assert!(p.next_command().is_none());

    let report = p.into_report().expect("pipeline must be finished");
    assert!(report.from_build);
    assert!(report.result.error.contains("code: 1"));
    assert!(report.result.stderr.contains("cmdA broke"));
}

#[test]
fn builds_run_in_order_then_run_gets_stdin() {
    let mut p = Pipeline::new(instructions(&["b1", "b2"], "go"));

    let (command, with_stdin) = p.next_command().unwrap();
    assert_eq!(command, "b1");
    assert!(!with_stdin);
    p.record(Ok(success("")));

    let (command, with_stdin) = p.next_command().unwrap();
    assert_eq!(command, "b2");
    assert!(!with_stdin);
    p.record(Ok(success("")));

    let (command, with_stdin) = p.next_command().unwrap();
    assert_eq!(command, "go");
    assert!(with_stdin);
    p.record(Ok(success("done\n")));

    assert!(p.next_command().is_none());
    let report = p.into_report().unwrap();
    assert!(!report.from_build);
    assert_eq!(report.result.stdout, "done\n");
    assert_eq!(report.result.error, "");
}

#[test]
fn no_builds_goes_straight_to_run() {
    let p = Pipeline::new(instructions(&[], "python main.py"));
    let (command, with_stdin) = p.next_command().unwrap();
    assert_eq!(command, "python main.py");
    assert!(with_stdin);
}

#[test]
fn run_failure_is_a_normal_reportable_outcome() {
    let mut p = Pipeline::new(instructions(&[], "exit 2"));
    p.next_command().unwrap();
    p.record(Err(exit_failure("bad", 2, 9)));

    let report = p.into_report().unwrap();
    assert!(!report.from_build);
    assert_eq!(report.result.error, "Exit code: 2");
    assert_eq!(report.result.stderr, "bad");
    assert_eq!(report.result.duration, 9);
}

#[test]
fn success_result_has_empty_error() {
    let r = to_success_result(SuccessOutput {
        stdout: "out".to_string(),
        stderr: "err".to_string(),
        duration: 42,
    });
    assert_eq!(r.stdout, "out");
    assert_eq!(r.stderr, "err");
    assert_eq!(r.error, "");
    assert_eq!(r.duration, 42);
}

#[test]
fn exit_failure_result_keeps_streams_and_renders_code() {
    let r = to_error_result(Error::Output(
        OutputError::ExitFailure(ErrorOutput {
            stdout: "partial".to_string(),
            stderr: "trace".to_string(),
            exit_code: Some(3),
        }),
        7,
    ));
    assert_eq!(r.stdout, "partial");
    assert_eq!(r.stderr, "trace");
    assert_eq!(r.error, "Exit code: 3");
    assert_eq!(r.duration, 7);
}

#[test]
fn signalled_exit_failure_renders_empty_error() {
    let r = to_error_result(Error::Output(
        OutputError::ExitFailure(ErrorOutput {
            stdout: "".to_string(),
            stderr: "".to_string(),
            exit_code: None,
        }),
        7,
    ));
    assert_eq!(r.error, "");
}

#[test]
fn execution_fault_result_has_empty_streams() {
    let r = to_error_result(Error::Execute(ExecuteError::CaptureStdin(), 5));
    assert_eq!(r.stdout, "");
    assert_eq!(r.stderr, "");
    assert_eq!(
        r.error,
        "Error while executing command. Failed to capture stdin."
    );
    assert_eq!(r.duration, 5);
}

#[test]
fn decode_fault_result_has_full_rendering() {
    let r = to_error_result(Error::Output(
        OutputError::ReadStdout("invalid utf-8".to_string()),
        6,
    ));
    assert_eq!(r.stdout, "");
    assert_eq!(r.stderr, "");
    assert_eq!(
        r.error,
        "Error in output from command. Failed to read stdout. invalid utf-8"
    );
}
