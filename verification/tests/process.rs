use xprocess::{KillError, KillOutcome, Process};

#[test]
fn pid_is_reported() {
    let process = Process::new(42, false);
    assert_eq!(process.pid(), 42);
    assert!(process.pid() > 0);
}

#[test]
fn first_read_returns_output_second_returns_empty() {
    let mut process = Process::new(7, true);
    let first = process.read_stdout(String::from("hello world\n"));
    assert_eq!(first, "hello world\n");
    let second = process.read_stdout(String::from("hello world\n"));
    assert_eq!(second, "");
}

#[test]
fn streams_are_independent() {
    let mut process = Process::new(7, true);
    let out = process.read_stdout(String::from("to stdout\n"));
    let err = process.read_stderr(String::from("to stderr\n"));
    assert_eq!(out, "to stdout\n");
    assert_eq!(err, "to stderr\n");
}

#[test]
fn reading_stderr_first_leaves_stdout_intact() {
    let mut process = Process::new(7, true);
    let err = process.read_stderr(String::from("e\n"));
    let out = process.read_stdout(String::from("o\n"));
    assert_eq!(err, "e\n");
    assert_eq!(out, "o\n");
}

#[test]
fn empty_output_reads_empty() {
    let mut process = Process::new(7, true);
    assert_eq!(process.read_stdout(String::new()), "");
}

#[test]
fn uncaptured_streams_read_empty() {
    let mut process = Process::new(7, false);
    assert_eq!(process.read_stdout(String::from("ignored")), "");
    assert_eq!(process.read_stderr(String::from("ignored")), "");
}

#[test]
fn kill_request_names_the_facility_and_pid() {
    let process = Process::new(4242, false);
    let request = process.kill_request();
    assert_eq!(request.program, "kill");
    assert_eq!(request.arg, "4242");
}

#[test]
fn kill_succeeds_when_the_facility_reports_success() {
    let process = Process::new(9, true);
    let verdict = process.kill_verdict(KillOutcome::Exited { success: true });
    assert!(verdict.is_ok());
}

#[test]
fn kill_fails_when_the_process_has_vanished() {
    let process = Process::new(9, true);
    let verdict = process.kill_verdict(KillOutcome::Exited { success: false });
    assert!(matches!(verdict, Err(KillError::Facility { pid: 9 })));
    let message = verdict.unwrap_err().message();
    assert_eq!(message, "Failed to kill process with PID: 9");
}

#[test]
fn kill_fails_when_the_facility_cannot_be_invoked() {
    let process = Process::new(9, true);
    let verdict = process.kill_verdict(KillOutcome::LaunchFailed {
        message: String::from("No such file or directory"),
    });
    assert!(matches!(verdict, Err(KillError::Launch { .. })));
    let message = verdict.unwrap_err().message();
    assert_eq!(message, "Error executing kill command: No such file or directory");
}

#[test]
fn hello_world_scenario() {
    let mut process = Process::new(1234, true);
    let out = process.read_stdout(String::from("hello world\n"));
    assert_eq!(out.trim(), "hello world");
    let verdict = process.kill_verdict(KillOutcome::Exited { success: false });
    assert!(verdict.is_err());
}

#[test]
fn both_streams_scenario() {
    let mut process = Process::new(1234, true);
    let out = process.read_stdout(String::from("out\n"));
    let err = process.read_stderr(String::from("err\n"));
    assert_eq!(out.trim(), "out");
    assert_eq!(err.trim(), "err");
    let second_out = process.read_stdout(String::from("out\n"));
    let second_err = process.read_stderr(String::from("err\n"));
    assert_eq!(second_out, "");
    assert_eq!(second_err, "");
}
