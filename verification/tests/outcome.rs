use dialog_invoker::outcome::{
    describe_spawn_failure, interpret_output, invocation_result, outcome_from_text, succeeded,
    DialogError, DialogResult, ProcessOutput,
};

fn output(code: Option<i32>, stdout: &[u8], stderr: &[u8]) -> ProcessOutput {
    ProcessOutput { code, stdout: stdout.to_vec(), stderr: stderr.to_vec() }
}

#[test]
fn exit_zero_with_ok_on_stdout_succeeds() {
    let r = invocation_result(Ok(output(Some(0), b"OK", b"")));
    assert_eq!(r, Ok(DialogResult { success: true, message: "OK".to_string() }));
}

#[test]
fn exit_one_with_denied_on_stderr_fails_with_denied() {
    let r = invocation_result(Ok(output(Some(1), b"", b"denied")));
    match r {
        Err(e) => {
            assert!(!e.is_launch());
            assert_eq!(e.message(), "denied");
            assert_eq!(e, DialogError::Execution("denied".to_string()));
        }
        Ok(_) => panic!("a run that exits with 1 has failed"),
    }
}

#[test]
fn only_exit_code_zero_is_success() {
    assert!(succeeded(Some(0)));
    assert!(!succeeded(Some(1)));
    assert!(!succeeded(Some(-1)));
    assert!(!succeeded(Some(255)));
    assert!(!succeeded(Some(256)));
    assert!(!succeeded(Some(i32::MAX)));
    assert!(!succeeded(Some(i32::MIN)));
    assert!(!succeeded(None));
}

#[test]
fn success_follows_the_exit_code_alone() {
    let codes = [Some(0), Some(1), Some(2), Some(-1), Some(127), None];
    for code in codes {
        let r = interpret_output(output(code, b"out", b"err"));
        assert_eq!(r.is_ok(), code == Some(0));
        match r {
            Ok(v) => {
                assert!(v.success);
                assert_eq!(v.message, "out");
            }
            Err(e) => assert_eq!(e, DialogError::Execution("err".to_string())),
        }
    }
}

#[test]
fn missing_exit_code_is_a_failure() {
    let r = interpret_output(output(None, b"OK", b"killed"));
    assert_eq!(r, Err(DialogError::Execution("killed".to_string())));
}

#[test]
fn stdout_is_trimmed_on_success() {
    let r = interpret_output(output(Some(0), b"  \t OK done \r\n\n", b""));
    assert_eq!(r, Ok(DialogResult { success: true, message: "OK done".to_string() }));
}

#[test]
fn inner_white_space_is_kept() {
    let r = outcome_from_text(Some(0), "\n a \t b\n c \n", String::new());
    assert_eq!(r.unwrap().message, "a \t b\n c");
}

#[test]
fn blank_stdout_gives_an_empty_message() {
    let r = outcome_from_text(Some(0), " \t\r\n", String::new());
    assert_eq!(r, Ok(DialogResult { success: true, message: String::new() }));
    let r = outcome_from_text(Some(0), "", String::new());
    assert_eq!(r, Ok(DialogResult { success: true, message: String::new() }));
}

#[test]
fn stderr_is_not_trimmed_on_failure() {
    let r = outcome_from_text(Some(3), "ignored", "  denied\n".to_string());
    assert_eq!(r, Err(DialogError::Execution("  denied\n".to_string())));
}

#[test]
fn stderr_is_ignored_on_success() {
    let r = outcome_from_text(Some(0), "OK", "a warning".to_string());
    assert_eq!(r, Ok(DialogResult { success: true, message: "OK".to_string() }));
}

#[test]
fn stdout_is_ignored_on_failure() {
    let r = interpret_output(output(Some(2), b"partial", b""));
    assert_eq!(r, Err(DialogError::Execution(String::new())));
}

#[test]
fn valid_utf8_is_decoded_as_it_stands() {
    let text = "gr\u{fc}\u{df}e \u{4e16}\u{754c} \u{1f600}";
    let r = interpret_output(output(Some(0), text.as_bytes(), b""));
    assert_eq!(r.unwrap().message, text);
}

#[test]
fn invalid_utf8_in_stdout_becomes_replacement_characters() {
    let r = interpret_output(output(Some(0), &[0x4f, 0xff, 0x4b], b""));
    assert_eq!(r.unwrap().message, "O\u{fffd}K");
}

#[test]
fn invalid_utf8_in_stderr_becomes_replacement_characters() {
    let r = interpret_output(output(Some(1), b"", &[0x6e, 0x6f, 0xc3, 0x28]));
    assert_eq!(r, Err(DialogError::Execution("no\u{fffd}(".to_string())));
}

#[test]
fn truncated_utf8_at_the_end_is_replaced_once() {
    let r = interpret_output(output(Some(0), &[0x61, 0xe4, 0xb8], b""));
    assert_eq!(r.unwrap().message, "a\u{fffd}");
}

#[test]
fn white_space_from_decoding_is_trimmed() {
    let r = interpret_output(output(Some(0), &[0xc2, 0xa0, 0x4f, 0x4b, 0xe3, 0x80, 0x80], b""));
    assert_eq!(r.unwrap().message, "OK");
}

#[test]
fn replacement_character_is_not_white_space() {
    let r = interpret_output(output(Some(0), &[0x20, 0xff, 0x20], b""));
    assert_eq!(r.unwrap().message, "\u{fffd}");
}

#[test]
fn failure_to_start_is_a_launch_error() {
    let r = invocation_result(Err("No such file or directory (os error 2)".to_string()));
    match r {
        Err(e) => {
            assert!(e.is_launch());
            assert_eq!(
                e.message(),
                "Failed to execute: No such file or directory (os error 2)"
            );
        }
        Ok(_) => panic!("a tool that was not started gives no result"),
    }
}

#[test]
fn spawn_failure_carries_the_description() {
    let e = DialogError::spawn_failure("permission denied");
    assert_eq!(e, DialogError::Launch("Failed to execute: permission denied".to_string()));
    assert_eq!(describe_spawn_failure("permission denied"), e.message());
    assert_eq!(describe_spawn_failure(""), "Failed to execute: ");
}

#[test]
fn unresolved_executable_is_a_launch_error() {
    let e = DialogError::unresolved();
    assert!(e.is_launch());
    assert_eq!(e.message(), "Failed to resolve bundled executable path");
}

#[test]
fn execution_error_shows_what_it_carries() {
    let e = DialogError::Execution("boom".to_string());
    assert!(!e.is_launch());
    assert_eq!(e.message(), "boom");
    let e = DialogError::Launch("gone".to_string());
    assert!(e.is_launch());
    assert_eq!(e.message(), "gone");
}
