use rsreddit::callback_server::classify_request;
use rsreddit::callback_server::decide_event;
use rsreddit::callback_server::parse_query_pairs;
use rsreddit::callback_server::validate_callback;
use rsreddit::callback_server::CallbackResult;
use rsreddit::json::parse_json_object;
use rsreddit::json::JsonValue;
use rsreddit::oauth2::parse_token_body;
use rsreddit::oauth2::revoke_response;
use rsreddit::oauth2::OAuthError;
use rsreddit::transport::ListenerEvent;

#[test]
fn query_pairs_split_on_separators() {
    let pairs = parse_query_pairs("state=XYZ&code=ABC");
    assert_eq!(
        vec![
            ("state".to_string(), "XYZ".to_string()),
            ("code".to_string(), "ABC".to_string()),
        ],
        pairs
    );
}

#[test]
fn query_pairs_without_equals_have_empty_values() {
    let pairs = parse_query_pairs("flag&x=1");
    assert_eq!(
        vec![
            ("flag".to_string(), "".to_string()),
            ("x".to_string(), "1".to_string()),
        ],
        pairs
    );
}

#[test]
fn classify_accepts_code_and_state_in_any_order() {
    let a = classify_request("/?code=ABC&state=XYZ").unwrap();
    let b = classify_request("/?state=XYZ&code=ABC").unwrap();
    let c = classify_request("/?foo=1&state=XYZ&bar=2&code=ABC").unwrap();
    for r in [a, b, c] {
        match r {
            CallbackResult::Success { code, state } => {
                assert_eq!("ABC", code);
                assert_eq!("XYZ", state);
            }
            _ => panic!("expected a success result"),
        }
    }
}

#[test]
fn classify_surfaces_provider_error_redirect() {
    let r = classify_request("/?error=access_denied&state=XYZ").unwrap();
    match r {
        CallbackResult::ProtocolError { message } => {
            assert_eq!("Unexpected response from reddit", message);
        }
        _ => panic!("expected a protocol error"),
    }
}

#[test]
fn classify_skips_requests_without_query_or_parameters() {
    assert!(classify_request("/favicon.ico").is_none());
    assert!(classify_request("/?state=onlystate").is_none());
    assert!(classify_request("/?code=onlycode").is_none());
    assert!(classify_request("").is_none());
}

#[test]
fn decide_event_turns_timeout_into_timeout_result() {
    let r = decide_event(&ListenerEvent::TimedOut).unwrap();
    match r {
        CallbackResult::Timeout { message } => {
            assert_eq!("Reached timeout; user did not authorize in time.", message);
        }
        _ => panic!("expected a timeout result"),
    }
}

#[test]
fn validate_callback_checks_state_exactly() {
    let ok = validate_callback(
        "S1",
        CallbackResult::Success {
            code: "C".to_string(),
            state: "S1".to_string(),
        },
    );
    assert_eq!(Ok("C".to_string()), ok.map_err(|_| ()));

    let mismatch = validate_callback(
        "S1",
        CallbackResult::Success {
            code: "C".to_string(),
            state: "S2".to_string(),
        },
    );
    assert_eq!(Err(OAuthError::StateMismatchError), mismatch);

    let trimmed = validate_callback(
        "S1",
        CallbackResult::Success {
            code: "C".to_string(),
            state: " S1".to_string(),
        },
    );
    assert_eq!(Err(OAuthError::StateMismatchError), trimmed);
}

#[test]
fn json_object_parses_flat_members() {
    let members = parse_json_object(
        " { \"a\" : \"b\" , \"n\" : 5 , \"t\" : true , \"f\" : false , \"z\" : null } ",
    )
    .unwrap();
    assert_eq!(5, members.len());
    assert!(matches!(&members[0].1, JsonValue::Str(s) if s == "b"));
    assert!(matches!(&members[1].1, JsonValue::Num(5)));
    assert!(matches!(&members[2].1, JsonValue::Bool(true)));
    assert!(matches!(&members[3].1, JsonValue::Bool(false)));
    assert!(matches!(&members[4].1, JsonValue::Null));
}

#[test]
fn json_object_decodes_string_escapes() {
    let members = parse_json_object("{\"k\":\"a\\\"b\\\\c\\nd\\te\\/f\"}").unwrap();
    assert!(matches!(&members[0].1, JsonValue::Str(s) if s == "a\"b\\c\nd\te/f"));
}

#[test]
fn json_object_rejects_malformed_bodies() {
    assert!(parse_json_object("").is_none());
    assert!(parse_json_object("{").is_none());
    assert!(parse_json_object("{\"a\":\"b\"} trailing").is_none());
    assert!(parse_json_object("{\"a\":-1}").is_none());
    assert!(parse_json_object("{\"a\":\"\\u0041\"}").is_none());
    assert!(parse_json_object("{\"a\":{\"nested\":1}}").is_none());
    assert!(parse_json_object("{\"a\":99999999999999999999999999}").is_none());
    assert!(parse_json_object("not json at all").is_none());
}

#[test]
fn token_body_parses_all_fields() {
    let body = "{\"access_token\": \"A1\", \"token_type\": \"bearer\", \"expires_in\": 3600, \
                \"scope\": \"*\", \"refresh_token\": \"R1\"}";
    let t = parse_token_body(body, "OLD").unwrap();
    assert_eq!("A1", t.access_token);
    assert_eq!("bearer", t.token_type);
    assert_eq!(3600, t.expires_in);
    assert_eq!("*", t.scope);
    assert_eq!("R1", t.refresh_token);
}

#[test]
fn token_body_without_refresh_keeps_the_fallback() {
    let body = "{\"access_token\": \"A1\", \"token_type\": \"bearer\", \"expires_in\": 3600, \
                \"scope\": \"*\"}";
    let t = parse_token_body(body, "OLD").unwrap();
    assert_eq!("OLD", t.refresh_token);
}

#[test]
fn token_body_rejects_missing_or_misshapen_members() {
    assert!(parse_token_body("{}", "").is_none());
    assert!(parse_token_body("definitely not json", "").is_none());
    let no_access = "{\"token_type\": \"bearer\", \"expires_in\": 3600, \"scope\": \"*\"}";
    assert!(parse_token_body(no_access, "").is_none());
    let bad_expiry =
        "{\"access_token\": \"A\", \"token_type\": \"bearer\", \"expires_in\": \"soon\", \
         \"scope\": \"*\"}";
    assert!(parse_token_body(bad_expiry, "").is_none());
    let bad_refresh =
        "{\"access_token\": \"A\", \"token_type\": \"bearer\", \"expires_in\": 1, \
         \"scope\": \"*\", \"refresh_token\": 7}";
    assert!(parse_token_body(bad_refresh, "").is_none());
}

#[test]
fn revoke_response_accepts_exactly_the_empty_body() {
    assert!(revoke_response("").is_ok());
    let r = revoke_response("{\"error\": 401}");
    assert_eq!(
        Err("Client credentials sent as HTTP Basic Authorization were invalid".to_string()),
        r
    );
    assert!(revoke_response(" ").is_err());
}
