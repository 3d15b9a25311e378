use calendar_tray::fetch::{empty_array_string, fetch_result, FetchOutcome};

fn completed(success: bool, stdout: &[u8]) -> FetchOutcome {
    FetchOutcome::Completed { success, stdout: stdout.to_vec() }
}

#[test]
fn write_failure_yields_empty_array() {
    assert_eq!(fetch_result(FetchOutcome::ScriptWriteFailed), "[]");
}

#[test]
fn launch_failure_yields_empty_array() {
    assert_eq!(fetch_result(FetchOutcome::LaunchFailed), "[]");
}

#[test]
fn nonzero_exit_yields_empty_array() {
    assert_eq!(fetch_result(completed(false, b"[1, 2]")), "[]");
    assert_eq!(fetch_result(completed(false, b"")), "[]");
}

#[test]
fn valid_array_is_returned_trimmed() {
    assert_eq!(fetch_result(completed(true, b"  [1, 2]\n")), "[1, 2]");
    assert_eq!(fetch_result(completed(true, b"[]\n")), "[]");
    assert_eq!(fetch_result(completed(true, b"\t[\"a\"]  ")), "[\"a\"]");
}

#[test]
fn valid_array_is_otherwise_unchanged() {
    let body = b"[{\"title\":\"Standup\",\"isAllDay\":false},null,3.5e-2]";
    assert_eq!(
        fetch_result(completed(true, body)),
        String::from_utf8(body.to_vec()).unwrap()
    );
}

#[test]
fn multibyte_output_is_decoded() {
    assert_eq!(
        fetch_result(completed(true, "[\"caf\u{e9} \u{4e16}\u{754c}\"]\n".as_bytes())),
        "[\"caf\u{e9} \u{4e16}\u{754c}\"]"
    );
}

#[test]
fn empty_array_string_is_the_literal() {
    assert_eq!(empty_array_string(), "[]");
}

#[test]
fn unicode_whitespace_is_trimmed() {
    assert_eq!(
        fetch_result(completed(true, "\u{00A0}[1]\u{2028}\n".as_bytes())),
        "[1]"
    );
}

#[test]
fn non_utf8_output_yields_empty_array() {
    assert_eq!(fetch_result(completed(true, &[0xff, 0xfe, 0x5b, 0x5d])), "[]");
}

#[test]
fn non_array_output_yields_empty_array() {
    assert_eq!(fetch_result(completed(true, b"not json")), "[]");
    assert_eq!(fetch_result(completed(true, b"{\"a\":1}")), "[]");
    assert_eq!(fetch_result(completed(true, b"")), "[]");
    assert_eq!(fetch_result(completed(true, b"42")), "[]");
}

#[test]
fn malformed_array_output_yields_empty_array() {
    assert_eq!(fetch_result(completed(true, b"[1")), "[]");
    assert_eq!(fetch_result(completed(true, b"[1,]")), "[]");
    assert_eq!(fetch_result(completed(true, b"[01]")), "[]");
    assert_eq!(fetch_result(completed(true, b"[1] x")), "[]");
}
