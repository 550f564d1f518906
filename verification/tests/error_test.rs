use fleet::codec::parse;
use fleet::error::{extract_message, message_from_document};
use fleet::{ErrorKind, FleetError};

#[test]
fn the_message_of_the_daemon_is_kept_as_it_is() {
    let error = FleetError::from_hyper_response(
        409,
        br#"{"error":{"message":"unit does not exist and options field empty"}}"#,
    );
    assert_eq!(error.kind, ErrorKind::Api);
    assert_eq!(error.code, Some(409));
    assert_eq!(
        error.message,
        Some("unit does not exist and options field empty".to_string())
    );
}

#[test]
fn a_body_that_is_no_json_gets_a_placeholder() {
    let error = FleetError::from_hyper_response(404, b"404 page not found\n");
    assert_eq!(error.kind, ErrorKind::Api);
    assert_eq!(error.code, Some(404));
    assert_eq!(error.message, Some("could not parse error response".to_string()));
    let error = FleetError::from_hyper_response(500, b"");
    assert_eq!(error.message, Some("could not parse error response".to_string()));
}

#[test]
fn an_empty_message_gets_a_placeholder() {
    let empty = Some("Error in JSON response from Fleet was empty".to_string());
    assert_eq!(extract_message(br#"{"error":{"code":404,"message":""}}"#), empty);
    assert_eq!(extract_message(br#"{"error":{"message":17}}"#), empty);
    assert_eq!(extract_message(br#"{"error":{"message":null}}"#), empty);
}

#[test]
fn a_body_without_a_message_gets_a_placeholder() {
    let missing = Some("Error parsing JSON response from Fleet".to_string());
    assert_eq!(extract_message(b"{}"), missing);
    assert_eq!(extract_message(br#"{"error":{}}"#), missing);
    assert_eq!(extract_message(br#"{"error":"message"}"#), missing);
    assert_eq!(extract_message(br#"{"message":"not nested"}"#), missing);
    assert_eq!(extract_message(br#"["error"]"#), missing);
}

#[test]
fn a_body_nested_too_deep_counts_as_no_json() {
    let deep = format!("{}{}", "[".repeat(5000), "]".repeat(5000));
    assert_eq!(
        extract_message(deep.as_bytes()),
        Some("could not parse error response".to_string())
    );
}

#[test]
fn the_message_is_resolved_from_a_document_already_read() {
    let document = parse(br#"{"error":{"message":"no such unit"}}"#).unwrap();
    assert_eq!(message_from_document(Some(&document)), "no such unit");
    assert_eq!(message_from_document(None), "could not parse error response");
}

#[test]
fn a_transport_failure_has_no_status() {
    let error = FleetError::from_hyper_error("connection refused");
    assert_eq!(error.kind, ErrorKind::Transport);
    assert_eq!(error.code, None);
    assert_eq!(error.message, Some("connection refused".to_string()));
}

#[test]
fn the_other_kinds_carry_their_text() {
    let error = FleetError::config("relative URL without a base");
    assert_eq!(error.kind, ErrorKind::Config);
    assert_eq!(error.code, None);
    assert_eq!(error.message, Some("relative URL without a base".to_string()));
    let error = FleetError::mapping("currentState");
    assert_eq!(error.kind, ErrorKind::Mapping);
    assert_eq!(error.code, None);
    assert_eq!(error.message, Some("currentState".to_string()));
}

#[test]
fn an_error_is_shown_as_code_and_message() {
    let error = FleetError::from_hyper_response(
        409,
        br#"{"error":{"message":"unit does not exist and options field empty"}}"#,
    );
    assert_eq!(error.to_string(), "409: unit does not exist and options field empty");
    assert_eq!(
        FleetError::from_hyper_error("connection refused").to_string(),
        "0: connection refused"
    );
    let bare = FleetError { kind: ErrorKind::Api, code: Some(65535), message: None };
    assert_eq!(bare.to_string(), "65535: Unknown error");
    let bare = FleetError { kind: ErrorKind::Api, code: Some(10), message: Some(String::new()) };
    assert_eq!(bare.to_string(), "10: ");
}

#[test]
fn every_status_is_written_in_decimal() {
    for code in [0u16, 1, 9, 10, 99, 100, 101, 404, 999, 1000, 9999, 10000, 65535] {
        assert_eq!(fleet::text::decimal_string(code), format!("{}", code));
    }
}

#[test]
fn a_body_with_a_brace_behind_a_comma_counts_as_no_json() {
    let body = b"[{\"a\":{\"b\":1,},\"c\":2}]";
    assert_eq!(extract_message(body), Some("could not parse error response".to_string()));
    let error = FleetError::from_hyper_response(500, body);
    assert_eq!(error.code, Some(500));
    assert_eq!(error.message, Some("could not parse error response".to_string()));
    assert_eq!(
        extract_message(b"{\"error\":{\"message\":\"x\",},\"more\":1}"),
        Some("could not parse error response".to_string())
    );
}

#[test]
fn every_body_yields_a_message_that_is_not_empty() {
    let bodies: [&[u8]; 12] = [
        b"",
        b" ",
        b"null",
        b"{",
        b"}",
        b"{\"error\":",
        b"{\"error\":{\"message\":\"\"}}",
        b"{\"error\":{\"message\":\"m\"}}",
        b"{\"error\":[{\"message\":\"m\"}]}",
        b"[{\"a\":{\"b\":1,},\"c\":2}]",
        &[0xff, 0x00, 0x22],
        b"1e99999999999999999999",
    ];
    for body in bodies {
        let message = extract_message(body).unwrap();
        assert!(!message.is_empty());
    }
}
