//! The session authenticator: cookie reuse, the login handshake's
//! classification, and the transition from unauthenticated to authenticated.
//!
//! The network call itself lives outside this crate. What stands here is
//! every decision around it: whether a stored cookie set is reused, what the
//! login request carries, how a login response's status and body classify,
//! and which cookie list is persisted on success.

use vstd::prelude::*;
use vstd::string::*;

use crate::cookies::CookieJar;
use crate::cookies::cookie_list_json;
use crate::cookies::decode_cookie_list;
use crate::cookies::decoded_cookie_list;
use crate::cookies::encode_cookie_list;
use crate::cookies::is_cookie_list_text;
use crate::error::LinkedinError;

verus! {

/// Long-lived credential material: a username and password for interactive
/// login, and an authentication token with a session cookie value for
/// cookie replay.
pub struct Identity {
    pub username: String,
    pub password: String,
    pub authentication_token: String,
    pub session_cookie: String,
}

/// The two coarse states of the session authenticator.
pub enum AuthState {
    Unauthenticated,
    Authenticated,
}

/// The live authentication state: the cookie jar for the API's domain and
/// the authenticator's coarse state.
pub struct Session {
    pub jar: CookieJar,
    pub state: AuthState,
}

/// Whether the body text parses as JSON.
pub uninterp spec fn body_is_json(body: Seq<char>) -> bool;

/// A JSON body's `login_result` field, meaningful when the body parses:
/// nothing when the field is absent, `Some(None)` when it holds a
/// non-string value, and the string itself otherwise.
pub uninterp spec fn login_result_of(body: Seq<char>) -> Option<Option<Seq<char>>>;

/// Relies on serde_json::from_str — whether a text parses as JSON, and what
/// it parses to, are functions of the text alone — and on
/// serde_json::Value's field lookup for the `login_result` field.
#[verifier::external_body]
pub fn parse_login_body(body: &str) -> (r: Result<Option<Option<String>>, LinkedinError>)
    ensures
        r is Ok <==> body_is_json(body@),
        r matches Ok(f) ==> f.deep_view() == login_result_of(body@),
        r matches Err(e) ==> e matches LinkedinError::Json(_),
{
    match serde_json::from_str::<serde_json::Value>(body) {
        Ok(v) => Ok(v.get("login_result").map(|x| x.as_str().map(|s| s.to_string()))),
        Err(e) => Err(LinkedinError::Json(e.to_string())),
    }
}

/// Classifies a login response from its status code and its `login_result`
/// field: 401 is bad credentials, any other non-200 status is a plain
/// request failure carrying the code, a present field other than the
/// string `PASS` is an upstream challenge carrying the field's value (or
/// `Unknown` for a non-string value), and everything else is success.
pub fn login_outcome(status: u16, login_result: Option<Option<String>>) -> (r: Result<
    (),
    LinkedinError,
>)
    ensures
        r is Ok <==> (status == 200 && (login_result is None || (
        login_result matches Some(Some(v)) && v@ == "PASS"@))),
        status == 401 ==> (r matches Err(e) && e matches LinkedinError::Unauthorized(_)),
        (status != 401 && status != 200) ==> r == Err::<(), LinkedinError>(
            LinkedinError::RequestFailed(status),
        ),
        login_result matches Some(Some(v)) ==> ((status == 200 && v@ != "PASS"@) ==> r == Err::<
            (),
            LinkedinError,
        >(LinkedinError::Challenge(v))),
        (status == 200 && login_result == Some(None::<String>)) ==> (r matches Err(e)
            && e matches LinkedinError::Challenge(c) && c@ == "Unknown"@),
{
    if status == 401 {
        return Err(LinkedinError::Unauthorized("Authentication failed".to_owned()));
    }
    if status != 200 {
        return Err(LinkedinError::RequestFailed(status));
    }
    match login_result {
        None => Ok(()),
        Some(None) => Err(LinkedinError::Challenge("Unknown".to_owned())),
        Some(Some(v)) => {
            let pass = "PASS".to_owned();
            if v == pass {
                Ok(())
            } else {
                Err(LinkedinError::Challenge(v))
            }
        },
    }
}

impl Session {
    /// A fresh, unauthenticated session with an empty jar.
    pub fn new() -> (s: Session)
        ensures
            s.jar@ == Seq::<Seq<char>>::empty(),
            s.jar.wf(),
            s.state is Unauthenticated,
    {
        Session { jar: CookieJar::new(), state: AuthState::Unauthenticated }
    }

    /// Loads a stored cookie payload into the jar. An absent payload is the
    /// missing cookie file and fails without touching the jar; a payload
    /// that does not decode as a list of strings fails likewise. Any
    /// decodable payload is injected cookie by cookie, in order, keeping
    /// the cookies already present.
    pub fn load_cookies(&mut self, stored: Option<&str>) -> (r: Result<(), LinkedinError>)
        requires
            old(self).jar.wf(),
        ensures
            final(self).jar.wf(),
            final(self).state == old(self).state,
            stored is None ==> (r matches Err(e) && e matches LinkedinError::Io(_)),
            r is Err ==> final(self).jar@ == old(self).jar@,
            stored matches Some(s) ==> (r is Ok <==> is_cookie_list_text(s@)),
            stored matches Some(s) ==> (is_cookie_list_text(s@) ==> final(self).jar@
                == CookieJar::inject_spec(old(self).jar@, decoded_cookie_list(s@))),
            stored matches Some(s) ==> (!is_cookie_list_text(s@) ==> (r matches Err(e)
                && e matches LinkedinError::Json(_))),
            stored matches Some(s) ==> forall|cookies: Seq<Seq<char>>|
                s@ == #[trigger] cookie_list_json(cookies) ==> (r is Ok && final(self).jar@
                    == CookieJar::inject_spec(old(self).jar@, cookies)),
    {
        match stored {
            None => Err(LinkedinError::Io("cookie file not found".to_owned())),
            Some(s) => {
                match decode_cookie_list(s) {
                    None => Err(LinkedinError::Json("stored cookies did not decode".to_owned())),
                    Some(list) => {
                        let ghost cs = list.deep_view();
                        self.jar.inject_all(&list);
                        proof {
                            assert(final(self).jar@ == CookieJar::inject_spec(old(self).jar@, cs));
                        }
                        Ok(())
                    },
                }
            },
        }
    }

    /// The cookie-reuse decision: unless a refresh is forced, a stored
    /// cookie set that loads successfully makes the session authenticated
    /// with no network call. Returns whether reuse happened.
    pub fn try_restore(&mut self, force_refresh: bool, stored: Option<&str>) -> (restored: bool)
        requires
            old(self).jar.wf(),
        ensures
            final(self).jar.wf(),
            force_refresh ==> !restored,
            stored is None ==> !restored,
            restored ==> final(self).state is Authenticated,
            !restored ==> final(self).jar@ == old(self).jar@
                && final(self).state == old(self).state,
            stored matches Some(s) ==> (!force_refresh ==> (restored <==> is_cookie_list_text(
                s@,
            ))),
            stored matches Some(s) ==> ((!force_refresh && is_cookie_list_text(s@))
                ==> final(self).jar@ == CookieJar::inject_spec(
                old(self).jar@,
                decoded_cookie_list(s@),
            )),
            stored matches Some(s) ==> forall|cookies: Seq<Seq<char>>|
                (!force_refresh && s@ == #[trigger] cookie_list_json(cookies)) ==> (restored
                    && final(self).jar@ == CookieJar::inject_spec(old(self).jar@, cookies)),
    {
        if force_refresh {
            return false;
        }
        match stored {
            None => false,
            Some(s) => {
                match self.load_cookies(Some(s)) {
                    Ok(()) => {
                        self.state = AuthState::Authenticated;
                        true
                    },
                    Err(_) => false,
                }
            },
        }
    }

    /// Adds the identity's authentication-token and session cookies to the
    /// jar, as the login handshake does before posting credentials.
    pub fn inject_identity(&mut self, identity: &Identity)
        requires
            old(self).jar.wf(),
        ensures
            final(self).jar.wf(),
            final(self).state == old(self).state,
            final(self).jar@ == CookieJar::add_spec(
                CookieJar::add_spec(old(self).jar@, auth_token_cookie_text(identity)),
                session_cookie_text(identity),
            ),
    {
        let li_at = auth_token_cookie(identity);
        self.jar.add_cookie_str(li_at.as_str());
        let jsession = session_cookie(identity);
        self.jar.add_cookie_str(jsession.as_str());
    }

    /// Classifies the login response and, on success, transitions to
    /// authenticated and hands back the cookie list that must be persisted
    /// — exactly one persisted list per successful login, none otherwise.
    /// The status decides first; the body is read only on 200, and a body
    /// that is not JSON fails as a decoding error.
    pub fn process_login_response(&mut self, status: u16, body: &str) -> (r: Result<
        Vec<String>,
        LinkedinError,
    >)
        requires
            old(self).jar.wf(),
        ensures
            final(self).jar == old(self).jar,
            final(self).jar.wf(),
            r is Ok <==> (status == 200 && body_is_json(body@) && (login_result_of(body@) is None
                || login_result_of(body@) == Some(Some("PASS"@)))),
            r matches Ok(cookies) ==> cookies.deep_view() == old(self).jar@
                && final(self).state is Authenticated,
            r is Err ==> final(self).state == old(self).state,
            status == 401 ==> (r matches Err(e) && e matches LinkedinError::Unauthorized(_)),
            (status != 401 && status != 200) ==> r == Err::<Vec<String>, LinkedinError>(
                LinkedinError::RequestFailed(status),
            ),
            (status == 200 && !body_is_json(body@)) ==> (r matches Err(e)
                && e matches LinkedinError::Json(_)),
            login_result_of(body@) matches Some(Some(v)) ==> ((status == 200 && body_is_json(
                body@,
            ) && v != "PASS"@) ==> (r matches Err(e) && e matches LinkedinError::Challenge(c) && c@
                == v)),
            (status == 200 && body_is_json(body@) && login_result_of(body@) == Some(
                None::<Seq<char>>,
            )) ==> (r matches Err(e) && e matches LinkedinError::Challenge(_)),
    {
        if status == 401 {
            return Err(LinkedinError::Unauthorized("Authentication failed".to_owned()));
        }
        if status != 200 {
            return Err(LinkedinError::RequestFailed(status));
        }
        let login_result = match parse_login_body(body) {
            Err(e) => {
                return Err(e);
            },
            Ok(f) => f,
        };
        match login_outcome(status, login_result) {
            Ok(()) => {
                self.state = AuthState::Authenticated;
                Ok(self.jar.cookies_list())
            },
            Err(e) => Err(e),
        }
    }

    /// Serializes the jar's current cookies for durable storage: exactly
    /// the serializer's text of the jar's cookie list.
    pub fn save_payload(&self) -> (r: String)
        ensures
            r@ == cookie_list_json(self.jar@),
    {
        let list = self.jar.cookies_list();
        encode_cookie_list(&list).unwrap()
    }
}

/// The text of the `li_at` authentication cookie the handshake injects.
pub open spec fn auth_token_cookie_text(identity: &Identity) -> Seq<char> {
    "li_at="@ + identity.authentication_token@
        + "; Domain=.linkedin.com; Path=/; Secure; HttpOnly"@
}

/// Builds the `li_at` authentication cookie string for the API's domain.
pub fn auth_token_cookie(identity: &Identity) -> (r: String)
    ensures
        r@ == auth_token_cookie_text(identity),
{
    let mut out = "li_at=".to_owned();
    out.append(identity.authentication_token.as_str());
    out.append("; Domain=.linkedin.com; Path=/; Secure; HttpOnly");
    out
}

/// The text of the `JSESSIONID` session cookie the handshake injects.
pub open spec fn session_cookie_text(identity: &Identity) -> Seq<char> {
    "JSESSIONID="@ + identity.session_cookie@
        + "; Domain=.linkedin.com; Path=/; Secure; HttpOnly"@
}

/// Builds the `JSESSIONID` session cookie string for the API's domain.
pub fn session_cookie(identity: &Identity) -> (r: String)
    ensures
        r@ == session_cookie_text(identity),
{
    let mut out = "JSESSIONID=".to_owned();
    out.append(identity.session_cookie.as_str());
    out.append("; Domain=.linkedin.com; Path=/; Secure; HttpOnly");
    out
}

/// The form fields the login request posts: the credentials and the current
/// session id.
pub fn login_form(identity: &Identity, session_id: &str) -> (r: Vec<(String, String)>)
    ensures
        r@.len() == 3,
        r@[0].0@ == "session_key"@ && r@[0].1@ == identity.username@,
        r@[1].0@ == "session_password"@ && r@[1].1@ == identity.password@,
        r@[2].0@ == "JSESSIONID"@ && r@[2].1@ == session_id@,
{
    let mut out: Vec<(String, String)> = Vec::new();
    out.push(("session_key".to_owned(), identity.username.clone()));
    out.push(("session_password".to_owned(), identity.password.clone()));
    out.push(("JSESSIONID".to_owned(), session_id.to_owned()));
    out
}

/// The fixed mobile-client headers every login-endpoint call carries; the
/// values must exactly match a known-good mobile client signature.
pub fn login_headers() -> (r: Vec<(String, String)>)
    ensures
        r@.len() == 5,
        r@[0].0@ == "X-Li-User-Agent"@ && r@[0].1@
            == "LIAuthLibrary:3.2.4 com.linkedin.LinkedIn:8.8.1 iPhone:8.3"@,
        r@[1].0@ == "User-Agent"@ && r@[1].1@ == "LinkedIn/8.8.1 CFNetwork/711.3.18 Darwin/14.0.0"@,
        r@[2].0@ == "X-User-Language"@ && r@[2].1@ == "en"@,
        r@[3].0@ == "X-User-Locale"@ && r@[3].1@ == "en_US"@,
        r@[4].0@ == "Accept-Language"@ && r@[4].1@ == "en-us"@,
{
    let mut out: Vec<(String, String)> = Vec::new();
    out.push(
        (
            "X-Li-User-Agent".to_owned(),
            "LIAuthLibrary:3.2.4 com.linkedin.LinkedIn:8.8.1 iPhone:8.3".to_owned(),
        ),
    );
    out.push(
        ("User-Agent".to_owned(), "LinkedIn/8.8.1 CFNetwork/711.3.18 Darwin/14.0.0".to_owned()),
    );
    out.push(("X-User-Language".to_owned(), "en".to_owned()));
    out.push(("X-User-Locale".to_owned(), "en_US".to_owned()));
    out.push(("Accept-Language".to_owned(), "en-us".to_owned()));
    out
}

/// The fixed default headers every data-endpoint call carries.
pub fn default_headers() -> (r: Vec<(String, String)>)
    ensures
        r@.len() == 4,
        r@[0].0@ == "user-agent"@ && r@[0].1@
            == "Mozilla/5.0 (Macintosh; Intel Mac OS X 10_13_5) AppleWebKit/537.36 (KHTML, like Gecko) Chrome/66.0.3359.181 Safari/537.36"@,
        r@[1].0@ == "accept-language"@ && r@[1].1@ == "en-AU,en-GB;q=0.9,en-US;q=0.8,en;q=0.7"@,
        r@[2].0@ == "x-li-lang"@ && r@[2].1@ == "en_US"@,
        r@[3].0@ == "x-restli-protocol-version"@ && r@[3].1@ == "2.0.0"@,
{
    let mut out: Vec<(String, String)> = Vec::new();
    out.push(
        (
            "user-agent".to_owned(),
            "Mozilla/5.0 (Macintosh; Intel Mac OS X 10_13_5) AppleWebKit/537.36 (KHTML, like Gecko) Chrome/66.0.3359.181 Safari/537.36".to_owned(),
        ),
    );
    out.push(
        ("accept-language".to_owned(), "en-AU,en-GB;q=0.9,en-US;q=0.8,en;q=0.7".to_owned()),
    );
    out.push(("x-li-lang".to_owned(), "en_US".to_owned()));
    out.push(("x-restli-protocol-version".to_owned(), "2.0.0".to_owned()));
    out
}

} // verus!

