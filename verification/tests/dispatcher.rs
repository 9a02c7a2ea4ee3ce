use linkedin_api_rs::cookies::CookieJar;
use linkedin_api_rs::dispatch::api_base_url;
use linkedin_api_rs::dispatch::auth_base_url;
use linkedin_api_rs::dispatch::prepare_get;
use linkedin_api_rs::dispatch::prepare_post;

fn jar_with_session() -> CookieJar {
    let mut jar = CookieJar::new();
    jar.add_cookie_str("li_at=tok");
    jar.add_cookie_str("JSESSIONID=\"ajax:555\"; Domain=.linkedin.com");
    jar
}

#[test]
fn every_plan_carries_a_delay_within_bounds() {
    let jar = jar_with_session();
    for _ in 0..50 {
        let get = prepare_get(&jar, "/me");
        assert!((2..=5).contains(&get.delay_secs));
        let post = prepare_post(&jar, "/me");
        assert!((2..=5).contains(&post.delay_secs));
    }
}

#[test]
fn get_plan_targets_api_base_and_carries_csrf() {
    let jar = jar_with_session();
    let plan = prepare_get(&jar, "/identity/profiles/billy-g/profileView");
    assert_eq!(
        plan.url,
        "https://www.linkedin.com/voyager/api/identity/profiles/billy-g/profileView"
    );
    assert_eq!(plan.csrf_token, "ajax:555");
    assert!(!plan.content_type_json);
}

#[test]
fn post_plan_sets_json_content_type() {
    let jar = jar_with_session();
    let plan = prepare_post(&jar, "/messaging/conversations?action=create");
    assert_eq!(
        plan.url,
        "https://www.linkedin.com/voyager/api/messaging/conversations?action=create"
    );
    assert_eq!(plan.csrf_token, "ajax:555");
    assert!(plan.content_type_json);
}

#[test]
fn csrf_token_is_empty_without_session_cookie() {
    let jar = CookieJar::new();
    let plan = prepare_get(&jar, "/me");
    assert_eq!(plan.csrf_token, "");
}

#[test]
fn base_urls_are_fixed() {
    assert_eq!(api_base_url(), "https://www.linkedin.com/voyager/api");
    assert_eq!(auth_base_url(), "https://www.linkedin.com");
}
