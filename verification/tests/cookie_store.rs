use linkedin_api_rs::cookies::CookieJar;
use linkedin_api_rs::cookies::decode_cookie_list;
use linkedin_api_rs::cookies::encode_cookie_list;
use linkedin_api_rs::error::LinkedinError;
use linkedin_api_rs::session::Session;

#[test]
fn add_keeps_first_fragment_trimmed() {
    let mut jar = CookieJar::new();
    jar.add_cookie_str("li_at=token123; Domain=.linkedin.com; Path=/; Secure; HttpOnly");
    assert_eq!(jar.cookies_list(), vec!["li_at=token123".to_string()]);
}

#[test]
fn add_replaces_same_name() {
    let mut jar = CookieJar::new();
    jar.add_cookie_str("a=1");
    jar.add_cookie_str("b=2");
    jar.add_cookie_str("a=3; Path=/");
    assert_eq!(jar.cookies_list(), vec!["a=3".to_string(), "b=2".to_string()]);
}

#[test]
fn add_skips_empty_fragment() {
    let mut jar = CookieJar::new();
    jar.add_cookie_str("   ; Path=/");
    jar.add_cookie_str("");
    assert_eq!(jar.cookies_list(), Vec::<String>::new());
}

#[test]
fn session_id_is_stripped_of_name_and_quotes() {
    let mut jar = CookieJar::new();
    jar.add_cookie_str("li_at=tok");
    jar.add_cookie_str("JSESSIONID=\"ajax:123456\"; Domain=.linkedin.com");
    assert_eq!(jar.current_session_id(), "ajax:123456");
}

#[test]
fn session_id_empty_when_absent() {
    let mut jar = CookieJar::new();
    jar.add_cookie_str("li_at=tok");
    assert_eq!(jar.current_session_id(), "");
}

#[test]
fn encode_produces_json_array_of_strings() {
    let cookies = vec!["a=1".to_string(), "b=2".to_string()];
    assert_eq!(encode_cookie_list(&cookies).unwrap(), "[\"a=1\",\"b=2\"]");
}

#[test]
fn decode_recovers_encoded_list() {
    let decoded = decode_cookie_list("[\"a=1\",\"b=2\"]").unwrap();
    assert_eq!(decoded, vec!["a=1".to_string(), "b=2".to_string()]);
}

#[test]
fn decode_rejects_garbage() {
    assert!(decode_cookie_list("not json at all").is_none());
}

#[test]
fn save_then_load_round_trips_every_cookie() {
    let mut session = Session::new();
    session.jar.add_cookie_str("li_at=token; Domain=.linkedin.com");
    session.jar.add_cookie_str("JSESSIONID=\"ajax:42\"; Domain=.linkedin.com");
    session.jar.add_cookie_str("lang=en");
    let before = session.jar.cookies_list();
    let payload = session.save_payload();

    let mut fresh = Session::new();
    fresh.load_cookies(Some(payload.as_str())).unwrap();
    let after = fresh.jar.cookies_list();

    assert_eq!(before.len(), after.len());
    for cookie in &before {
        assert!(after.contains(cookie), "cookie {cookie:?} lost in round trip");
    }
}

#[test]
fn load_accepts_any_decodable_payload() {
    // hand-written JSON with whitespace: decodable, but not the
    // serializer's own output
    let mut session = Session::new();
    session.jar.add_cookie_str("lang=en");
    session
        .load_cookies(Some("[ \"a=1\" , \"b=2\" ]"))
        .unwrap();
    assert_eq!(
        session.jar.cookies_list(),
        vec!["lang=en".to_string(), "a=1".to_string(), "b=2".to_string()]
    );
}

#[test]
fn load_missing_file_is_io_error() {
    let mut session = Session::new();
    match session.load_cookies(None) {
        Err(LinkedinError::Io(_)) => {}
        other => panic!("expected Io error, got {other:?}"),
    }
}

#[test]
fn load_undecodable_payload_is_json_error() {
    let mut session = Session::new();
    match session.load_cookies(Some("{broken")) {
        Err(LinkedinError::Json(_)) => {}
        other => panic!("expected Json error, got {other:?}"),
    }
    assert_eq!(session.jar.cookies_list(), Vec::<String>::new());
}
