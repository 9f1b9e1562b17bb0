use code_runner::cmd::{
    get_output, run, Error, ErrorOutput, ExecuteError, OutputError, ProcessOutcome,
};

fn outcome(stdout: &[u8], stderr: &[u8], exit_ok: bool, exit_code: Option<i32>) -> ProcessOutcome {
    ProcessOutcome {
        stdout: stdout.to_vec(),
        stderr: stderr.to_vec(),
        exit_ok,
        exit_code,
    }
}

#[test]
fn clean_exit_is_a_success() {
    let r = get_output(outcome(b"ok", b"", true, Some(0)), 7);
    let success = r.expect("exit code zero must classify as success");
    assert_eq!(success.stdout, "ok");
    assert_eq!(success.stderr, "");
    assert_eq!(success.duration, 7);
}

#[test]
fn nonzero_exit_is_an_exit_failure() {
    let r = get_output(outcome(b"", b"boom\n", false, Some(2)), 3);
    match r {
        Err(OutputError::ExitFailure(output)) => {
            assert_eq!(output.stdout, "");
            assert_eq!(output.stderr, "boom\n");
            assert_eq!(output.exit_code, Some(2));
            let message = output.to_message();
            assert!(message.contains("code: 2"));
            assert!(message.contains("boom"));
            assert_eq!(message, "code: 2, stderr: boom\n");
        }
        other => panic!("expected an exit failure, got {:?}", other),
    }
}

#[test]
fn exit_failure_message_joins_all_parts() {
    let output = ErrorOutput {
        stdout: "out".to_string(),
        stderr: "err".to_string(),
        exit_code: Some(1),
    };
    assert_eq!(output.to_message(), "code: 1, stdout: out, stderr: err");
}

#[test]
fn exit_failure_message_omits_empty_parts() {
    let signalled = ErrorOutput {
        stdout: "".to_string(),
        stderr: "killed".to_string(),
        exit_code: None,
    };
    assert_eq!(signalled.to_message(), "stderr: killed");
    let silent = ErrorOutput {
        stdout: "".to_string(),
        stderr: "".to_string(),
        exit_code: Some(3),
    };
    assert_eq!(silent.to_message(), "code: 3");
    let nothing = ErrorOutput {
        stdout: "".to_string(),
        stderr: "".to_string(),
        exit_code: None,
    };
    assert_eq!(nothing.to_message(), "");
}

#[test]
fn negative_exit_code_renders_with_sign() {
    let output = ErrorOutput {
        stdout: "".to_string(),
        stderr: "".to_string(),
        exit_code: Some(-5),
    };
    assert_eq!(output.to_message(), "code: -5");
}

#[test]
fn invalid_stdout_bytes_are_a_decode_error() {
    let r = get_output(outcome(&[0xff, 0xfe], b"", true, Some(0)), 1);
    assert!(matches!(r, Err(OutputError::ReadStdout(_))));
}

#[test]
fn invalid_stderr_bytes_are_a_decode_error() {
    let r = get_output(outcome(b"fine", &[0x80], false, Some(1)), 1);
    assert!(matches!(r, Err(OutputError::ReadStderr(_))));
}

#[test]
fn stdout_decode_error_wins_over_stderr() {
    let r = get_output(outcome(&[0xff], &[0x80], false, Some(1)), 1);
    assert!(matches!(r, Err(OutputError::ReadStdout(_))));
}

#[test]
fn execute_error_messages() {
    assert_eq!(
        ExecuteError::CaptureStdin().to_message(),
        "Failed to capture stdin."
    );
    assert_eq!(
        ExecuteError::WriteStdin("broken pipe".to_string()).to_message(),
        "Failed to write to stdin. broken pipe"
    );
    assert_eq!(
        ExecuteError::WaitForChild("interrupted".to_string()).to_message(),
        "Failed while waiting for child. interrupted"
    );
    assert_eq!(
        ExecuteError::Execute("no such file".to_string()).to_message(),
        "no such file"
    );
}

#[test]
fn error_messages_name_the_failure_axis() {
    let execute = Error::Execute(ExecuteError::CaptureStdin(), 4);
    assert_eq!(
        execute.to_message(),
        "Error while executing command. Failed to capture stdin."
    );
    assert_eq!(execute.duration(), 4);

    let output = Error::Output(OutputError::ReadStdout("bad utf-8".to_string()), 9);
    assert_eq!(
        output.to_message(),
        "Error in output from command. Failed to read stdout. bad utf-8"
    );
    assert_eq!(output.duration(), 9);
}

#[test]
fn exit_failure_error_message_nests_the_rendering() {
    let error = Error::Output(
        OutputError::ExitFailure(ErrorOutput {
            stdout: "".to_string(),
            stderr: "boom".to_string(),
            exit_code: Some(2),
        }),
        1,
    );
    assert_eq!(
        error.to_message(),
        "Error in output from command. Exited with non-zero exit code. code: 2, stderr: boom"
    );
}

#[test]
fn run_tags_execution_faults() {
    let r = run(Err(ExecuteError::CaptureStdin()), 11);
    match r {
        Err(Error::Execute(ExecuteError::CaptureStdin(), duration)) => {
            assert_eq!(duration, 11)
        }
        _ => panic!("expected an execution fault"),
    }
}

#[test]
fn run_tags_output_faults() {
    let r = run(Ok(outcome(b"", b"", false, Some(1))), 12);
    match r {
        Err(Error::Output(OutputError::ExitFailure(output), duration)) => {
            assert_eq!(duration, 12);
            assert_eq!(output.exit_code, Some(1));
        }
        _ => panic!("expected an output fault"),
    }
}

#[test]
fn run_passes_through_success() {
    let r = run(Ok(outcome(b"hi", b"", true, Some(0))), 13);
    let success = r.expect("clean exit must pass through");
    assert_eq!(success.stdout, "hi");
    assert_eq!(success.duration, 13);
}
