//! The evasive request dispatcher's decisions.
//!
//! Every outgoing call is planned here: a mandatory randomized pause of 2
//! to 5 time units, the absolute URL against the fixed base path, and the
//! anti-forgery header taken verbatim from the session-id cookie. The
//! network call itself, and the waiting, are the caller's to perform, one
//! per plan.

use vstd::prelude::*;
use vstd::string::*;

use crate::cookies::CookieJar;
use crate::cookies::session_id_of;

verus! {

/// The base path every data-endpoint call is issued against.
pub open spec fn api_base_text() -> Seq<char> {
    "https://www.linkedin.com/voyager/api"@
}

/// The base path of the login endpoint.
pub open spec fn auth_base_text() -> Seq<char> {
    "https://www.linkedin.com"@
}

/// The data-endpoint base path.
pub fn api_base_url() -> (r: &'static str)
    ensures
        r@ == api_base_text(),
{
    "https://www.linkedin.com/voyager/api"
}

/// The login-endpoint base path.
pub fn auth_base_url() -> (r: &'static str)
    ensures
        r@ == auth_base_text(),
{
    "https://www.linkedin.com"
}

/// Relies on rand::random_range: the sampled value lies within the given
/// inclusive range.
#[verifier::external_body]
fn random_delay_secs() -> (r: u64)
    ensures
        2 <= r <= 5,
{
    rand::random_range(2u64..=5u64)
}

/// One outgoing request, fully decided: the evasion delay to wait before
/// sending, the absolute URL, the anti-forgery token to attach as the
/// `csrf-token` header, and whether a JSON content type is set.
pub struct RequestPlan {
    /// Time units to pause before the network call; always within [2, 5],
    /// and mandatory for every call through the dispatcher.
    pub delay_secs: u64,
    pub url: String,
    pub csrf_token: String,
    pub content_type_json: bool,
}

/// Plans a GET against the data endpoints: a pause within [2, 5] precedes
/// the call, and the anti-forgery token is the jar's current session id.
pub fn prepare_get(jar: &CookieJar, path: &str) -> (p: RequestPlan)
    ensures
        2 <= p.delay_secs <= 5,
        p.url@ == api_base_text() + path@,
        p.csrf_token@ == session_id_of(jar@),
        !p.content_type_json,
{
    let delay_secs = random_delay_secs();
    let mut url = api_base_url().to_owned();
    url.append(path);
    let csrf_token = jar.current_session_id();
    RequestPlan { delay_secs, url, csrf_token, content_type_json: false }
}

/// Plans a POST against the data endpoints: as for a GET, with a JSON
/// content type; the serialized body travels beside the plan.
pub fn prepare_post(jar: &CookieJar, path: &str) -> (p: RequestPlan)
    ensures
        2 <= p.delay_secs <= 5,
        p.url@ == api_base_text() + path@,
        p.csrf_token@ == session_id_of(jar@),
        p.content_type_json,
{
    let delay_secs = random_delay_secs();
    let mut url = api_base_url().to_owned();
    url.append(path);
    let csrf_token = jar.current_session_id();
    RequestPlan { delay_secs, url, csrf_token, content_type_json: true }
}

} // verus!
