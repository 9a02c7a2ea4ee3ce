use vstd::prelude::*;

verus! {

/// Failures surfaced by the session and request orchestration layer.
///
/// Transport, decoding and header failures that arise outside the verified
/// core are carried as plain text in the wrapping variants.
#[derive(Debug)]
pub enum LinkedinError {
    /// The authentication handshake failed outright.
    AuthFailed(String),
    /// The upstream demanded a verification step this client cannot perform;
    /// carries the upstream's verdict string.
    Challenge(String),
    /// Bad credentials: the login endpoint answered with status 401.
    Unauthorized(String),
    /// A non-success response; carries the HTTP status code.
    RequestFailed(u16),
    /// A malformed resource identifier.
    InvalidURN(String),
    /// The upstream signalled throttling.
    RateLimit,
    /// A malformed identifier or a missing required parameter.
    InvalidInput(String),
    /// A wrapped I/O failure.
    Io(String),
    /// A wrapped JSON decoding failure.
    Json(String),
    /// A wrapped HTTP transport failure.
    Http(String),
    /// A wrapped URL parsing failure.
    UrlParse(String),
    /// A wrapped header construction failure.
    Header(String),
}

} // verus!
