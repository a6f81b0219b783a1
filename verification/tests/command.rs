use script_var::command::{
    command_outcome, run_command, shell_invocation, CommandError, Invocation, ProcessOutput,
};
use script_var::value::Span;

fn exited(success: bool, stdout: &[u8], stderr: &[u8]) -> Result<ProcessOutput, String> {
    Ok(ProcessOutput { success, stdout: stdout.to_vec(), stderr: stderr.to_vec() })
}

#[test]
fn the_shell_gets_the_command_as_one_argument() {
    let invocation = shell_invocation("echo 'a b'; exit 2");
    assert_eq!(invocation.program, "/bin/sh");
    assert_eq!(invocation.args, vec![String::from("-c"), String::from("echo 'a b'; exit 2")]);
}

#[test]
fn echo_hello_gives_hello_without_warning() {
    let (value, warning) = command_outcome(exited(true, b"hello\n", b"")).unwrap();
    assert_eq!(value.0, "hello");
    assert_eq!(warning, None);
}

#[test]
fn error_output_of_a_successful_command_is_the_warning() {
    let (value, warning) = command_outcome(exited(true, b"ok\n", b"err\n")).unwrap();
    assert_eq!(value.0, "ok");
    assert_eq!(warning, Some(String::from("err\n")));
}

#[test]
fn the_warning_is_not_trimmed() {
    let (value, warning) = command_outcome(exited(true, b"\n\nv\n", b"\n w \n\n")).unwrap();
    assert_eq!(value.0, "v");
    assert_eq!(warning, Some(String::from("\n w \n\n")));
}

#[test]
fn the_value_of_a_command_has_no_place() {
    let (value, _) = command_outcome(exited(true, b"1", b"")).unwrap();
    assert_eq!(value.1, Span::dummy());
}

#[test]
fn a_silent_command_has_the_empty_value() {
    let (value, warning) = command_outcome(exited(true, b"", b"")).unwrap();
    assert_eq!(value.0, "");
    assert_eq!(warning, None);
}

#[test]
fn only_newlines_are_trimmed_from_the_output() {
    let (value, _) = command_outcome(exited(true, b"\n  two\nlines \t\n\n", b"")).unwrap();
    assert_eq!(value.0, "  two\nlines \t");
}

#[test]
fn output_is_decoded_as_utf8() {
    let (value, warning) =
        command_outcome(exited(true, "gr\u{fc}\u{df}e \u{1f600}\n".as_bytes(), "\u{e9}".as_bytes()))
            .unwrap();
    assert_eq!(value.0, "gr\u{fc}\u{df}e \u{1f600}");
    assert_eq!(value.0.chars().count(), 7);
    assert_eq!(warning, Some(String::from("\u{e9}")));
}

#[test]
fn exit_3_is_an_execution_error_with_empty_error_output() {
    match command_outcome(exited(false, b"", b"")) {
        Err(error) => {
            assert!(matches!(&error, CommandError::Execution { stderr } if stderr.is_empty()));
            assert_eq!(error.message(), "Failed with output:\n");
            assert_eq!(error.error_output(), "");
        }
        Ok(_) => panic!("a failed command has no value"),
    }
}

#[test]
fn a_failed_command_reports_its_error_output() {
    match command_outcome(exited(false, b"partial\n", b"sh: 1: nope: not found\n")) {
        Err(error) => {
            assert!(matches!(
                &error,
                CommandError::Execution { stderr } if stderr == "sh: 1: nope: not found\n"
            ));
            assert_eq!(error.message(), "Failed with output:\nsh: 1: nope: not found\n");
            assert_eq!(error.error_output(), "sh: 1: nope: not found\n");
        }
        Ok(_) => panic!("a failed command has no value"),
    }
}

#[test]
fn the_exit_status_alone_decides_failure() {
    assert!(command_outcome(exited(true, b"", b"error: everything is broken\n")).is_ok());
    assert!(command_outcome(exited(false, b"all fine\n", b"")).is_err());
}

#[test]
fn a_process_that_did_not_start_is_a_spawn_error() {
    match command_outcome(Err(String::from("No such file or directory (os error 2)"))) {
        Err(error) => {
            assert!(matches!(
                &error,
                CommandError::Spawn { message } if message == "No such file or directory (os error 2)"
            ));
            assert_eq!(error.message(), "No such file or directory (os error 2)");
            assert_eq!(error.error_output(), "No such file or directory (os error 2)");
        }
        Ok(_) => panic!("a process that did not start has no value"),
    }
}

#[test]
fn invalid_output_is_a_decoding_error() {
    match command_outcome(exited(true, &[0x66, 0xff, 0x0a], b"")) {
        Err(error) => {
            assert!(matches!(&error, CommandError::Decoding { .. }));
            assert_eq!(error.message(), "invalid utf-8 sequence of 1 bytes from index 1");
            assert_eq!(error.error_output(), "invalid utf-8 sequence of 1 bytes from index 1");
        }
        Ok(_) => panic!("bytes that are not UTF-8 have no value"),
    }
}

#[test]
fn cut_off_output_is_a_decoding_error() {
    match command_outcome(exited(true, &[0x61, 0xe2, 0x82], b"")) {
        Err(CommandError::Decoding { message }) => {
            assert_eq!(message, "incomplete utf-8 byte sequence from index 1")
        }
        other => panic!("unexpected outcome: {:?}", other),
    }
}

#[test]
fn invalid_error_output_of_a_successful_command_is_a_decoding_error() {
    match command_outcome(exited(true, b"fine\n", &[0xc0, 0x80])) {
        Err(CommandError::Decoding { message }) => {
            assert_eq!(message, "invalid utf-8 sequence of 1 bytes from index 0")
        }
        other => panic!("unexpected outcome: {:?}", other),
    }
}

#[test]
fn invalid_error_output_of_a_failed_command_is_a_decoding_error() {
    match command_outcome(exited(false, b"", &[0x65, 0x72, 0x72, 0xed, 0xa0, 0x80])) {
        Err(CommandError::Decoding { message }) => {
            assert_eq!(message, "invalid utf-8 sequence of 1 bytes from index 3")
        }
        other => panic!("unexpected outcome: {:?}", other),
    }
}

#[test]
fn the_error_stream_is_decoded_before_the_output() {
    match command_outcome(exited(true, &[0xff], &[0x61, 0x62, 0xfe])) {
        Err(CommandError::Decoding { message }) => {
            assert_eq!(message, "invalid utf-8 sequence of 1 bytes from index 2")
        }
        other => panic!("unexpected outcome: {:?}", other),
    }
}

#[test]
fn output_of_a_failed_command_is_not_decoded() {
    match command_outcome(exited(false, &[0xff, 0xfe], b"bad\n")) {
        Err(CommandError::Execution { stderr }) => assert_eq!(stderr, "bad\n"),
        other => panic!("unexpected outcome: {:?}", other),
    }
}

#[test]
fn run_command_calls_the_runner_once_with_the_shell() {
    let mut calls = 0;
    let mut seen = None;
    let outcome = run_command("echo hello", |invocation: Invocation| {
        calls += 1;
        seen = Some(invocation);
        exited(true, b"hello\n", b"")
    });
    let (value, warning) = outcome.unwrap();
    assert_eq!(value.0, "hello");
    assert_eq!(warning, None);
    assert_eq!(calls, 1);
    let invocation = seen.unwrap();
    assert_eq!(invocation.program, "/bin/sh");
    assert_eq!(invocation.args, vec![String::from("-c"), String::from("echo hello")]);
}

#[test]
fn run_command_gives_value_and_warning() {
    let (value, warning) =
        run_command("echo err 1>&2; echo ok", |_| exited(true, b"ok\n", b"err\n")).unwrap();
    assert_eq!(value.0, "ok");
    assert_eq!(warning, Some(String::from("err\n")));
}

#[test]
fn run_command_fails_when_the_command_fails() {
    match run_command("exit 3", |_| exited(false, b"", b"")) {
        Err(CommandError::Execution { stderr }) => assert_eq!(stderr, ""),
        other => panic!("unexpected outcome: {:?}", other),
    }
}

#[test]
fn run_command_fails_when_the_shell_does_not_start() {
    match run_command("true", |_| Err(String::from("Permission denied (os error 13)"))) {
        Err(CommandError::Spawn { message }) => {
            assert_eq!(message, "Permission denied (os error 13)")
        }
        other => panic!("unexpected outcome: {:?}", other),
    }
}

#[test]
fn running_a_command_again_gives_the_same_value() {
    let runner = |_: Invocation| exited(true, b"42\n", b"");
    let (first, first_warning) = run_command("echo 42", runner).unwrap();
    let (second, second_warning) = run_command("echo 42", runner).unwrap();
    assert!(first == second);
    assert_eq!(first.0, second.0);
    assert_eq!(first_warning, second_warning);
}
