use llm_gateway::web_api_client::{WebApiClient, WebApiClientError};

#[test]
fn new_transport_sends_json_content_type() {
    let c = WebApiClient::new("gateway 1.0", Some(3), Some(30)).unwrap();
    assert_eq!(c.header("content-type"), Some("application/json".to_string()));
    assert_eq!(c.header("authorization"), None);
}

#[test]
fn header_names_are_held_in_lower_case() {
    let mut c = WebApiClient::new("gateway 1.0", None, None).unwrap();
    c.add_header("X-Custom-Header", "1".to_string()).unwrap();
    assert_eq!(c.header("x-custom-header"), Some("1".to_string()));
    assert_eq!(c.header("X-Custom-Header"), None);
}

#[test]
fn add_header_overwrites_same_name() {
    let mut c = WebApiClient::new("gateway 1.0", None, None).unwrap();
    c.add_header("Authorization", "Bearer a".to_string()).unwrap();
    c.add_header("authorization", "Bearer b".to_string()).unwrap();
    assert_eq!(c.header("authorization"), Some("Bearer b".to_string()));
}

#[test]
fn add_header_invalid_name_fails_and_keeps_transport() {
    let mut c = WebApiClient::new("gateway 1.0", None, None).unwrap();
    c.add_header("X-Before", "kept".to_string()).unwrap();
    let e = c.add_header("bad\u{1}name", "v".to_string()).unwrap_err();
    assert!(matches!(e, WebApiClientError::HeaderCreationError(_)));
    assert_eq!(c.header("x-before"), Some("kept".to_string()));
    assert_eq!(c.header("bad\u{1}name"), None);
    c.add_header("X-After", "ok".to_string()).unwrap();
    assert_eq!(c.header("x-after"), Some("ok".to_string()));
}

#[test]
fn add_header_empty_name_fails() {
    let mut c = WebApiClient::new("gateway 1.0", None, None).unwrap();
    assert!(matches!(c.add_header("", "v".to_string()), Err(WebApiClientError::HeaderCreationError(_))));
}

#[test]
fn add_header_invalid_value_fails() {
    let mut c = WebApiClient::new("gateway 1.0", None, None).unwrap();
    let e = c.add_header("X-Ok", "line\nbreak".to_string()).unwrap_err();
    match e {
        WebApiClientError::HeaderCreationError(m) => assert!(m.starts_with("Invalid header value for `X-Ok`: ")),
        other => panic!("unexpected {other:?}"),
    }
    assert_eq!(c.header("x-ok"), None);
}

#[test]
fn error_status_carries_status_and_body() {
    let e = WebApiClient::read_response(500, "{\"error\":\"boom\"}").unwrap_err();
    assert_eq!(
        e,
        WebApiClientError::PostFailed("Server returned error status 500: {\"error\":\"boom\"}".to_string())
    );
    let text = e.message();
    assert!(text.contains("500"));
    assert!(text.contains("{\"error\":\"boom\"}"));
}

#[test]
fn redirect_status_is_a_failure() {
    let e = WebApiClient::read_response(302, "moved").unwrap_err();
    assert_eq!(e, WebApiClientError::PostFailed("Server returned error status 302: moved".to_string()));
}

#[test]
fn success_with_bad_json_fails_post() {
    match WebApiClient::read_response(200, "not json") {
        Err(WebApiClientError::PostFailed(m)) => assert!(m.starts_with("Failed to parse JSON response: ")),
        other => panic!("unexpected {other:?}"),
    }
}

#[test]
fn success_with_json_parses() {
    assert!(WebApiClient::read_response(204, "{\"a\":1}").is_ok());
}

#[test]
fn error_messages_name_their_kind() {
    assert_eq!(WebApiClientError::InvalidInput("x".to_string()).message(), "Invalid input: x");
    assert_eq!(WebApiClientError::ParseError("y".to_string()).message(), "Parse error: y");
    assert_eq!(WebApiClientError::HeaderCreationError("z".to_string()).message(), "Header creation error: z");
}

#[test]
fn invalid_user_agent_is_refused() {
    let e = WebApiClient::new("bad\nagent", None, None).unwrap_err();
    match e {
        WebApiClientError::ClientCreationError(m) => assert!(m.starts_with("Failed to create HTTP client: Invalid user agent: ")),
        other => panic!("unexpected {other:?}"),
    }
}

#[test]
fn header_entries_are_capped() {
    let mut c = WebApiClient::new("gateway 1.0", None, None).unwrap();
    let mut added = 0;
    loop {
        match c.add_header(&format!("x-h{added}"), "v".to_string()) {
            Ok(()) => added += 1,
            Err(e) => {
                assert_eq!(e, WebApiClientError::HeaderCreationError("Too many headers".to_string()));
                break;
            }
        }
        assert!(added < 5000);
    }
    assert_eq!(added, 1023);
    assert_eq!(c.header("x-h0"), Some("v".to_string()));
}
