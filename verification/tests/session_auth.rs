use linkedin_api_rs::error::LinkedinError;
use linkedin_api_rs::session::AuthState;
use linkedin_api_rs::session::Identity;
use linkedin_api_rs::session::Session;
use linkedin_api_rs::session::auth_token_cookie;
use linkedin_api_rs::session::default_headers;
use linkedin_api_rs::session::login_form;
use linkedin_api_rs::session::login_headers;
use linkedin_api_rs::session::login_outcome;
use linkedin_api_rs::session::session_cookie;

fn test_identity() -> Identity {
    Identity {
        username: "user@example.com".to_string(),
        password: "SECRET-REDACTED".to_string(),
        authentication_token: "AQEDAQtoken".to_string(),
        session_cookie: "ajax:987".to_string(),
    }
}

#[test]
fn login_pass_transitions_and_yields_one_save_payload() {
    let mut session = Session::new();
    session.jar.add_cookie_str("li_at=AQEDAQtoken");
    session.jar.add_cookie_str("JSESSIONID=\"ajax:987\"");
    let saved = session
        .process_login_response(200, "{\"login_result\": \"PASS\"}")
        .unwrap();
    assert!(matches!(session.state, AuthState::Authenticated));
    assert_eq!(saved, session.jar.cookies_list());
}

#[test]
fn login_challenge_fails_and_yields_no_save_payload() {
    let mut session = Session::new();
    session.jar.add_cookie_str("li_at=AQEDAQtoken");
    let r = session.process_login_response(200, "{\"login_result\": \"CHALLENGE\"}");
    match r {
        Err(LinkedinError::Challenge(v)) => assert_eq!(v, "CHALLENGE"),
        other => panic!("expected Challenge, got {other:?}"),
    }
    assert!(matches!(session.state, AuthState::Unauthenticated));
}

#[test]
fn login_body_without_result_field_passes() {
    let mut session = Session::new();
    let r = session.process_login_response(200, "{}");
    assert!(r.is_ok());
    assert!(matches!(session.state, AuthState::Authenticated));
}

#[test]
fn login_401_is_unauthorized() {
    let mut session = Session::new();
    match session.process_login_response(401, "{}") {
        Err(LinkedinError::Unauthorized(_)) => {}
        other => panic!("expected Unauthorized, got {other:?}"),
    }
    assert!(matches!(session.state, AuthState::Unauthenticated));
}

#[test]
fn login_other_status_is_request_failed_with_code() {
    let mut session = Session::new();
    match session.process_login_response(503, "{}") {
        Err(LinkedinError::RequestFailed(code)) => assert_eq!(code, 503),
        other => panic!("expected RequestFailed, got {other:?}"),
    }
}

#[test]
fn login_outcome_classifies_directly() {
    assert!(login_outcome(200, None).is_ok());
    assert!(login_outcome(200, Some(Some("PASS".to_string()))).is_ok());
    assert!(matches!(
        login_outcome(200, Some(Some("CHALLENGE".to_string()))),
        Err(LinkedinError::Challenge(v)) if v == "CHALLENGE"
    ));
    assert!(matches!(
        login_outcome(200, Some(None)),
        Err(LinkedinError::Challenge(v)) if v == "Unknown"
    ));
    assert!(matches!(
        login_outcome(401, Some(Some("PASS".to_string()))),
        Err(LinkedinError::Unauthorized(_))
    ));
    assert!(matches!(
        login_outcome(302, None),
        Err(LinkedinError::RequestFailed(302))
    ));
}

#[test]
fn login_non_string_result_is_a_challenge() {
    let mut session = Session::new();
    match session.process_login_response(200, "{\"login_result\": 42}") {
        Err(LinkedinError::Challenge(v)) => assert_eq!(v, "Unknown"),
        other => panic!("expected Challenge, got {other:?}"),
    }
    assert!(matches!(session.state, AuthState::Unauthenticated));
}

#[test]
fn login_unparsable_body_is_json_error() {
    let mut session = Session::new();
    match session.process_login_response(200, "not json") {
        Err(LinkedinError::Json(_)) => {}
        other => panic!("expected Json error, got {other:?}"),
    }
    assert!(matches!(session.state, AuthState::Unauthenticated));
}

#[test]
fn restore_reuses_stored_cookies_unless_refresh_forced() {
    let mut donor = Session::new();
    donor.jar.add_cookie_str("li_at=tok");
    donor.jar.add_cookie_str("JSESSIONID=\"ajax:1\"");
    let payload = donor.save_payload();

    let mut session = Session::new();
    assert!(session.try_restore(false, Some(payload.as_str())));
    assert!(matches!(session.state, AuthState::Authenticated));
    assert_eq!(session.jar.current_session_id(), "ajax:1");

    let mut forced = Session::new();
    assert!(!forced.try_restore(true, Some(payload.as_str())));
    assert!(matches!(forced.state, AuthState::Unauthenticated));

    let mut missing = Session::new();
    assert!(!missing.try_restore(false, None));
    assert!(matches!(missing.state, AuthState::Unauthenticated));
}

#[test]
fn identity_cookies_carry_domain_attributes() {
    let identity = test_identity();
    assert_eq!(
        auth_token_cookie(&identity),
        "li_at=AQEDAQtoken; Domain=.linkedin.com; Path=/; Secure; HttpOnly"
    );
    assert_eq!(
        session_cookie(&identity),
        "JSESSIONID=ajax:987; Domain=.linkedin.com; Path=/; Secure; HttpOnly"
    );
}

#[test]
fn inject_identity_populates_jar() {
    let identity = test_identity();
    let mut session = Session::new();
    session.inject_identity(&identity);
    assert_eq!(
        session.jar.cookies_list(),
        vec!["li_at=AQEDAQtoken".to_string(), "JSESSIONID=ajax:987".to_string()]
    );
    assert_eq!(session.jar.current_session_id(), "ajax:987");
}

#[test]
fn login_form_carries_credentials_and_session_id() {
    let identity = test_identity();
    let form = login_form(&identity, "ajax:987");
    assert_eq!(
        form,
        vec![
            ("session_key".to_string(), "user@example.com".to_string()),
            ("session_password".to_string(), "SECRET-REDACTED".to_string()),
            ("JSESSIONID".to_string(), "ajax:987".to_string()),
        ]
    );
}

#[test]
fn fixed_header_sets_match_known_good_signature() {
    let login = login_headers();
    assert_eq!(login.len(), 5);
    assert_eq!(
        login[0],
        (
            "X-Li-User-Agent".to_string(),
            "LIAuthLibrary:3.2.4 com.linkedin.LinkedIn:8.8.1 iPhone:8.3".to_string()
        )
    );
    assert_eq!(
        login[1],
        ("User-Agent".to_string(), "LinkedIn/8.8.1 CFNetwork/711.3.18 Darwin/14.0.0".to_string())
    );
    assert_eq!(login[4], ("Accept-Language".to_string(), "en-us".to_string()));

    let defaults = default_headers();
    assert_eq!(defaults.len(), 4);
    assert_eq!(
        defaults[0],
        (
            "user-agent".to_string(),
            "Mozilla/5.0 (Macintosh; Intel Mac OS X 10_13_5) AppleWebKit/537.36 (KHTML, like Gecko) Chrome/66.0.3359.181 Safari/537.36".to_string()
        )
    );
    assert_eq!(defaults[2], ("x-li-lang".to_string(), "en_US".to_string()));
    assert_eq!(
        defaults[3],
        ("x-restli-protocol-version".to_string(), "2.0.0".to_string())
    );
}
