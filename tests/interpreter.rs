use remote_check::outcome::{failure, interpret, CheckResult, HttpOutcome, UNKNOWN};

fn decoded(code: u8, description: &str) -> HttpOutcome {
    HttpOutcome::Decoded(CheckResult { code, description: description.to_string() })
}

const PREFIX: &str = "failed to get result from the server: ";

#[test]
fn ok_result_prints_description_and_exits_zero() {
    let o = interpret(decoded(0, "OK - all good"));
    assert_eq!(o.exit_code, 0);
    assert_eq!(o.message, "OK - all good");
}

#[test]
fn critical_result_exits_two() {
    let o = interpret(decoded(2, "CRITICAL - disk full"));
    assert_eq!(o.exit_code, 2);
    assert_eq!(o.message, "CRITICAL - disk full");
}

#[test]
fn unconventional_code_passes_through() {
    let o = interpret(decoded(200, "odd"));
    assert_eq!(o.exit_code, 200);
    let o = interpret(decoded(255, ""));
    assert_eq!(o.exit_code, 255);
    assert_eq!(o.message, "");
}

#[test]
fn connection_failure_is_unknown() {
    let o = interpret(HttpOutcome::TransportFailed("Connection refused (os error 111)".to_string()));
    assert_eq!(o.exit_code, 3);
    assert!(o.message.starts_with(PREFIX));
    assert_eq!(o.message, "failed to get result from the server: Connection refused (os error 111)");
}

#[test]
fn unreadable_body_is_unknown() {
    let o = interpret(HttpOutcome::BodyUnreadable("unexpected end of file".to_string()));
    assert_eq!(o.exit_code, UNKNOWN);
    assert_eq!(o.message, "failed to get result from the server: unexpected end of file");
}

#[test]
fn undecodable_body_is_unknown() {
    let reasons = [
        "expected value at line 1 column 1",
        "missing field `description` at line 1 column 10",
        "invalid value: integer `256`, expected u8 at line 1 column 11",
    ];
    for reason in reasons {
        let o = interpret(HttpOutcome::Undecodable(reason.to_string()));
        assert_eq!(o.exit_code, 3);
        assert_eq!(o.message, format!("{}{}", PREFIX, reason));
    }
}

#[test]
fn failure_with_empty_reason() {
    let o = failure("");
    assert_eq!(o.exit_code, 3);
    assert_eq!(o.message, PREFIX);
}

#[test]
fn interpretation_is_repeatable() {
    let a = interpret(decoded(1, "WARNING - load"));
    let b = interpret(decoded(1, "WARNING - load"));
    assert_eq!((a.exit_code, a.message), (b.exit_code, b.message));
    let a = interpret(HttpOutcome::TransportFailed("timed out".to_string()));
    let b = interpret(HttpOutcome::TransportFailed("timed out".to_string()));
    assert_eq!((a.exit_code, a.message), (b.exit_code, b.message));
}
