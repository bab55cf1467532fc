//! Response classification, error taxonomy and decimal rendering.

use sda_adapter::client::{direct_parse_context, direct_send_context, direct_server_context, DirectOp};
use sda_adapter::numfmt::{i32_to_string, i64_to_string, u16_to_string, u64_to_string};
use sda_adapter::response::{
    classify_response, handle_response, translate_parsed, transport_error, validation_error,
    ErrorKind,
};

#[test]
fn test_decimal_rendering_exact() {
    assert_eq!(u64_to_string(0), "0");
    assert_eq!(u64_to_string(10), "10");
    assert_eq!(u64_to_string(90710), "90710");
    assert_eq!(i64_to_string(-1), "-1");
    assert_eq!(i64_to_string(25), "25");
    assert_eq!(i64_to_string(i64::MIN), "-9223372036854775808");
    assert_eq!(i64_to_string(i64::MAX), "9223372036854775807");
    assert_eq!(i32_to_string(-42), "-42");
    assert_eq!(u16_to_string(404), "404");
}

#[test]
fn test_server_error_carries_status_and_body() {
    let r = handle_response(
        404,
        "Not found".to_string(),
        "Server returned error for get accession",
    );
    match r {
        Err(e) => {
            assert_eq!(e.kind, ErrorKind::Server);
            assert_eq!(e.status, Some(404));
            assert!(e.message.contains("404"));
            assert!(e.message.contains("Not found"));
            assert_eq!(
                e.message,
                "Server returned error for get accession: HTTP 404 - Not found"
            );
        },
        Ok(_) => panic!("a 404 must not be a success"),
    }
}

#[test]
fn test_server_error_with_empty_body_states_only_status() {
    let r = handle_response(500, String::new(), "Server returned error for list subjects");
    match r {
        Err(e) => {
            assert_eq!(e.kind, ErrorKind::Server);
            assert_eq!(e.status, Some(500));
            assert_eq!(e.message, "Server returned error for list subjects: HTTP 500");
        },
        Ok(_) => panic!("a 500 must not be a success"),
    }
}

#[test]
fn test_success_status_hands_body_on() {
    let r = handle_response(200, "{\"id\": 3}".to_string(), "context");
    assert_eq!(r.unwrap(), "{\"id\": 3}");
    let r = handle_response(299, "edge".to_string(), "context");
    assert_eq!(r.unwrap(), "edge");
    let r = handle_response(199, "below".to_string(), "context");
    assert!(r.is_err());
    let r = handle_response(300, "above".to_string(), "context");
    assert!(r.is_err());
}

#[test]
fn test_transport_failure_is_surfaced() {
    let r = classify_response(
        Err("connection refused".to_string()),
        "Failed to send list accessions request",
        "Server returned error for list accessions",
    );
    match r {
        Err(e) => {
            assert_eq!(e.kind, ErrorKind::Transport);
            assert_eq!(e.status, None);
            assert_eq!(
                e.message,
                "Failed to send list accessions request: connection refused"
            );
        },
        Ok(_) => panic!("a transport failure must not be a success"),
    }
}

#[test]
fn test_invalid_body_is_serialization_error() {
    let body = "{ this is not json";
    let parse_attempt: Result<serde_json::Value, serde_json::Error> = serde_json::from_str(body);
    let parsed: Result<serde_json::Value, String> = parse_attempt.map_err(|e| e.to_string());
    assert!(parsed.is_err());

    let r = translate_parsed(parsed, "Failed to parse list accessions response");
    match r {
        Err(e) => {
            assert_eq!(e.kind, ErrorKind::Serialization);
            assert_eq!(e.status, None);
            assert!(e.message.starts_with("Failed to parse list accessions response: "));
        },
        Ok(_) => panic!("an invalid body must never yield a default result"),
    }
}

#[test]
fn test_parsed_value_passes_through_unchanged() {
    let parsed: Result<Vec<i32>, String> = Ok(vec![1, 2, 3]);
    let r = translate_parsed(parsed, "Failed to parse list subjects response");
    assert_eq!(r.unwrap(), vec![1, 2, 3]);
}

#[test]
fn test_collection_error_messages_carry_id() {
    let r = classify_response(
        Ok((404, "Not found".to_string())),
        direct_send_context(DirectOp::GetCollection(123)).as_str(),
        direct_server_context(DirectOp::GetCollection(123)).as_str(),
    );
    match r {
        Err(e) => {
            assert_eq!(e.kind, ErrorKind::Server);
            assert!(e.message.contains("123"));
            assert_eq!(
                e.message,
                "Server returned error for get collection 123: HTTP 404 - Not found"
            );
        },
        Ok(_) => panic!("a 404 must not be a success"),
    }

    let r = classify_response(
        Err("timed out".to_string()),
        direct_send_context(DirectOp::UpdateCollection(42)).as_str(),
        direct_server_context(DirectOp::UpdateCollection(42)).as_str(),
    );
    match r {
        Err(e) => {
            assert_eq!(e.kind, ErrorKind::Transport);
            assert_eq!(
                e.message,
                "Failed to send update collection request for ID 42: timed out"
            );
        },
        Ok(_) => panic!("a transport failure must not be a success"),
    }

    let r = classify_response(
        Ok((500, String::new())),
        direct_send_context(DirectOp::GetSubject(7)).as_str(),
        direct_server_context(DirectOp::GetSubject(7)).as_str(),
    );
    match r {
        Err(e) => {
            assert_eq!(e.kind, ErrorKind::Server);
            assert_eq!(e.message, "Server returned error for get subject 7: HTTP 500");
        },
        Ok(_) => panic!("a 500 must not be a success"),
    }

    assert_eq!(
        direct_parse_context(DirectOp::UpdateCollection(42)),
        "Failed to parse update collection response"
    );
    assert_eq!(
        direct_server_context(DirectOp::ListCollections),
        "Server returned error for list collections"
    );
}

#[test]
fn test_validation_and_transport_constructors() {
    let e = validation_error("Unknown tool: frobnicate");
    assert_eq!(e.kind, ErrorKind::Validation);
    assert_eq!(e.status, None);
    assert_eq!(e.message, "Unknown tool: frobnicate");

    let e = transport_error("Failed to send update subject request", "timed out");
    assert_eq!(e.kind, ErrorKind::Transport);
    assert_eq!(e.message, "Failed to send update subject request: timed out");
}
