//! The identity provider at its boundary: what its two answers mean, and
//! which error answer goes with each failure.

use crate::response::{client_error, respond_err, server_error, ApiError, ApiErrorView, ErrorKind};
use crate::text::{contains, has_substring};
use vstd::prelude::*;

verus! {

/// The tokens that the identity provider hands out for an authorisation code.
#[derive(Debug)]
pub struct TokenResponse {
    pub access_token: String,
    pub token_type: String,
    pub expires_in: i64,
    pub refresh_token: String,
    pub scope: String,
}

/// The external identity behind an external access token.
#[derive(Debug)]
pub struct DiscordUserInfo {
    pub id: String,
    pub username: String,
    pub global_name: String,
}

/// Why the exchange of an authorisation code failed.
#[derive(Clone, Copy, Debug, PartialEq, Eq, Structural)]
pub enum ExchangeError {
    /// The provider does not know the code.
    InvalidCode,
    /// The code or refresh token is spent or otherwise refused.
    InvalidGrant,
    /// The provider answered with this status, outside 200 to 299.
    Upstream(u16),
    /// The provider's answer was not what an answer looks like.
    Malformed,
    /// No answer came.
    Unreachable,
}

/// Why the provider did not tell whose an external access token is.
#[derive(Clone, Copy, Debug, PartialEq, Eq, Structural)]
pub enum ResolveError {
    /// The provider answered with this status, outside 200 to 299.
    Upstream(u16),
    /// The provider's answer was not what an answer looks like.
    Malformed,
    /// No answer came.
    Unreachable,
}

/// An HTTP status that means success.
pub open spec fn is_success(status: u16) -> bool {
    200 <= status <= 299
}

/// The mark by which the provider's answer tells that it does not know the
/// code: the words `Invalid "code" in request` as they stand inside a JSON
/// string, each quote behind a backslash.
pub open spec fn invalid_code_mark() -> Seq<char> {
    "Invalid \\\"code\\\" in request"@
}

/// The mark of a refused grant in the provider's answer.
pub open spec fn invalid_grant_mark() -> Seq<char> {
    "invalid_grant"@
}

/// What the answer of the provider's token endpoint means. `parsed` is true
/// where the body could be read as a token answer.
pub open spec fn exchange_failure(status: u16, body: Seq<char>, parsed: bool) -> Option<
    ExchangeError,
> {
    if !is_success(status) {
        if has_substring(body, invalid_code_mark()) {
            Some(ExchangeError::InvalidCode)
        } else if has_substring(body, invalid_grant_mark()) {
            Some(ExchangeError::InvalidGrant)
        } else {
            Some(ExchangeError::Upstream(status))
        }
    } else if !parsed {
        Some(ExchangeError::Malformed)
    } else {
        None
    }
}

/// Reads the answer of the provider's token endpoint: its status, its body,
/// and the tokens that the body held, if it could be read as such. A status
/// outside 200 to 299 is a failure, told apart by the marks in the body; a
/// success whose body could not be read is malformed.
pub fn exchange_code(status: u16, body: &str, parsed: Option<TokenResponse>) -> (r: Result<
    TokenResponse,
    ExchangeError,
>)
    ensures
        r is Err <==> exchange_failure(status, body@, parsed is Some) is Some,
        r is Err ==> r->Err_0 == exchange_failure(status, body@, parsed is Some)->0,
        r is Ok ==> parsed == Some(r->Ok_0),
{
    if status < 200 || status > 299 {
        if contains(body, "Invalid \\\"code\\\" in request") {
            return Err(ExchangeError::InvalidCode);
        }
        if contains(body, "invalid_grant") {
            return Err(ExchangeError::InvalidGrant);
        }
        return Err(ExchangeError::Upstream(status));
    }
    match parsed {
        Some(tokens) => Ok(tokens),
        None => Err(ExchangeError::Malformed),
    }
}

/// What the answer of the provider's identity endpoint means.
pub open spec fn resolve_failure(status: u16, parsed: bool) -> Option<ResolveError> {
    if !is_success(status) {
        Some(ResolveError::Upstream(status))
    } else if !parsed {
        Some(ResolveError::Malformed)
    } else {
        None
    }
}

/// Reads the answer of the provider's identity endpoint: its status, and the
/// identity that the body held, if it could be read as such.
pub fn get_user_info(status: u16, parsed: Option<DiscordUserInfo>) -> (r: Result<
    DiscordUserInfo,
    ResolveError,
>)
    ensures
        r is Err <==> resolve_failure(status, parsed is Some) is Some,
        r is Err ==> r->Err_0 == resolve_failure(status, parsed is Some)->0,
        r is Ok ==> parsed == Some(r->Ok_0),
{
    if status < 200 || status > 299 {
        return Err(ResolveError::Upstream(status));
    }
    match parsed {
        Some(info) => Ok(info),
        None => Err(ResolveError::Malformed),
    }
}

/// The error answer for a failed exchange: a code or grant that the provider
/// refuses is the client's fault, anything else the provider's.
pub open spec fn exchange_error_answer(e: ExchangeError) -> ApiErrorView {
    match e {
        ExchangeError::InvalidCode => client_error(
            ErrorKind::Unauthenticated,
            "Error while getting discord access token: Could not get discord token because the provided code is invalid"@,
        ),
        ExchangeError::InvalidGrant => client_error(
            ErrorKind::Unauthenticated,
            "Error while getting discord access token: Could not get discord token because the provided discord refresh token is invalid or already used"@,
        ),
        ExchangeError::Upstream(_) => server_error(
            ErrorKind::UpstreamFailure,
            "Could not get discord token because discord returned a failure response"@,
        ),
        ExchangeError::Malformed => server_error(
            ErrorKind::UpstreamFailure,
            "Failed to parse JSON while getting discord token"@,
        ),
        ExchangeError::Unreachable => server_error(
            ErrorKind::UpstreamFailure,
            "Request for the discord token failed"@,
        ),
    }
}

/// The error answer for a failed exchange.
pub fn exchange_error_response(e: ExchangeError) -> (r: ApiError)
    ensures
        r@ == exchange_error_answer(e),
{
    match e {
        ExchangeError::InvalidCode => respond_err(
            ErrorKind::Unauthenticated,
            "Error while getting discord access token: Could not get discord token because the provided code is invalid",
        ),
        ExchangeError::InvalidGrant => respond_err(
            ErrorKind::Unauthenticated,
            "Error while getting discord access token: Could not get discord token because the provided discord refresh token is invalid or already used",
        ),
        ExchangeError::Upstream(_) => respond_err(
            ErrorKind::UpstreamFailure,
            "Could not get discord token because discord returned a failure response",
        ),
        ExchangeError::Malformed => respond_err(
            ErrorKind::UpstreamFailure,
            "Failed to parse JSON while getting discord token",
        ),
        ExchangeError::Unreachable => respond_err(
            ErrorKind::UpstreamFailure,
            "Request for the discord token failed",
        ),
    }
}

/// The error answer where the provider did not resolve an identity: always
/// the provider's fault.
pub open spec fn resolve_error_answer(e: ResolveError) -> ApiErrorView {
    match e {
        ResolveError::Upstream(_) => server_error(
            ErrorKind::UpstreamFailure,
            "Could not get discord user info because discord returned a failure response"@,
        ),
        ResolveError::Malformed => server_error(
            ErrorKind::UpstreamFailure,
            "Failed to parse JSON from discord user info response"@,
        ),
        ResolveError::Unreachable => server_error(
            ErrorKind::UpstreamFailure,
            "Could not request discord user info"@,
        ),
    }
}

/// The error answer where the provider did not resolve an identity.
pub fn resolve_error_response(e: ResolveError) -> (r: ApiError)
    ensures
        r@ == resolve_error_answer(e),
{
    match e {
        ResolveError::Upstream(_) => respond_err(
            ErrorKind::UpstreamFailure,
            "Could not get discord user info because discord returned a failure response",
        ),
        ResolveError::Malformed => respond_err(
            ErrorKind::UpstreamFailure,
            "Failed to parse JSON from discord user info response",
        ),
        ResolveError::Unreachable => respond_err(
            ErrorKind::UpstreamFailure,
            "Could not request discord user info",
        ),
    }
}

} // verus!
