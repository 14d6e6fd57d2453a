//! What a request handler answers: nothing, a value, or an error of one of a
//! fixed set of kinds, each with its HTTP status.

use vstd::prelude::*;

verus! {

/// The kinds of failure that a handler reports.
#[derive(Clone, Copy, Debug, PartialEq, Eq, Structural)]
pub enum ErrorKind {
    /// A field is missing or malformed.
    ClientInput,
    /// The credentials are missing or wrong.
    Unauthenticated,
    /// The caller is known but does not own the resource.
    Forbidden,
    /// The token or resource is unknown or has expired.
    NotFound,
    /// A unique key is already taken.
    Conflict,
    /// The request body could not be read as what the route expects.
    Unprocessable,
    /// The caller sends too many requests.
    RateLimited,
    /// The identity provider failed or answered with something unreadable.
    UpstreamFailure,
    /// The store, the random source or this service itself failed.
    InternalFailure,
}

/// The HTTP status that goes with each kind of failure.
pub open spec fn status_of(kind: ErrorKind) -> u16 {
    match kind {
        ErrorKind::ClientInput => 400,
        ErrorKind::Unauthenticated => 401,
        ErrorKind::Forbidden => 403,
        ErrorKind::NotFound => 404,
        ErrorKind::Conflict => 409,
        ErrorKind::Unprocessable => 422,
        ErrorKind::RateLimited => 429,
        ErrorKind::UpstreamFailure => 500,
        ErrorKind::InternalFailure => 500,
    }
}

/// Whether a failure of this kind is the server's: its cause is kept from the
/// caller.
pub open spec fn is_server_side(kind: ErrorKind) -> bool {
    kind == ErrorKind::UpstreamFailure || kind == ErrorKind::InternalFailure
}

/// An error answer. `message` is what the caller reads. `detail` is the
/// context for the server's log; it is never sent.
#[derive(Debug)]
pub struct ApiError {
    pub kind: ErrorKind,
    pub message: String,
    pub detail: String,
}

/// An error answer as a mathematical value.
pub struct ApiErrorView {
    pub kind: ErrorKind,
    pub message: Seq<char>,
    pub detail: Seq<char>,
}

impl View for ApiError {
    type V = ApiErrorView;

    open spec fn view(&self) -> ApiErrorView {
        ApiErrorView { kind: self.kind, message: self.message@, detail: self.detail@ }
    }
}

/// The value that a successful request answers with.
#[derive(Debug)]
pub enum ResponseBody {
    /// A freshly issued access token.
    AccessToken { access_token: String },
    /// The external identity belongs to an account: the client logs in.
    ExistingAccount { discord_user_id: String, username: String },
    /// The external identity has no account yet: the client may register.
    NewAccount { discord_access_token: String, discord_user_id: String, discord_username: String },
}

/// A response value as a mathematical value.
pub enum ResponseBodyView {
    AccessToken { access_token: Seq<char> },
    ExistingAccount { discord_user_id: Seq<char>, username: Seq<char> },
    NewAccount {
        discord_access_token: Seq<char>,
        discord_user_id: Seq<char>,
        discord_username: Seq<char>,
    },
}

impl View for ResponseBody {
    type V = ResponseBodyView;

    open spec fn view(&self) -> ResponseBodyView {
        match *self {
            ResponseBody::AccessToken { access_token } => ResponseBodyView::AccessToken {
                access_token: access_token@,
            },
            ResponseBody::ExistingAccount {
                discord_user_id,
                username,
            } => ResponseBodyView::ExistingAccount {
                discord_user_id: discord_user_id@,
                username: username@,
            },
            ResponseBody::NewAccount {
                discord_access_token,
                discord_user_id,
                discord_username,
            } => ResponseBodyView::NewAccount {
                discord_access_token: discord_access_token@,
                discord_user_id: discord_user_id@,
                discord_username: discord_username@,
            },
        }
    }
}

/// A handler's answer: `Ok(None)` is success without content (204),
/// `Ok(Some(..))` success with a value (200), `Err(..)` a failure.
pub type ApiResponse = Result<Option<ResponseBody>, ApiError>;

/// A handler's answer as a mathematical value.
pub type ApiResponseView = Result<Option<ResponseBodyView>, ApiErrorView>;

/// The mathematical value of an answer.
pub open spec fn response_view(r: ApiResponse) -> ApiResponseView {
    match r {
        Ok(None) => Ok(None),
        Ok(Some(body)) => Ok(Some(body@)),
        Err(e) => Err(e@),
    }
}

/// The HTTP status of an answer.
pub open spec fn response_status(r: ApiResponseView) -> u16 {
    match r {
        Ok(None) => 204,
        Ok(Some(_)) => 200,
        Err(e) => status_of(e.kind),
    }
}

/// A failure of the caller's making, with the message that the caller reads.
pub open spec fn client_error(kind: ErrorKind, message: Seq<char>) -> ApiErrorView {
    ApiErrorView { kind, message, detail: Seq::empty() }
}

/// What the caller reads of every failure on the server's side.
pub open spec fn generic_message() -> Seq<char> {
    "Internal server error"@
}

/// A failure on the server's side: the caller reads the generic message, the
/// detail stays with the server.
pub open spec fn server_error(kind: ErrorKind, detail: Seq<char>) -> ApiErrorView {
    ApiErrorView { kind, message: generic_message(), detail }
}

impl ErrorKind {
    /// The HTTP status of this kind of failure.
    pub fn status(self) -> (code: u16)
        ensures
            code == status_of(self),
    {
        match self {
            ErrorKind::ClientInput => 400,
            ErrorKind::Unauthenticated => 401,
            ErrorKind::Forbidden => 403,
            ErrorKind::NotFound => 404,
            ErrorKind::Conflict => 409,
            ErrorKind::Unprocessable => 422,
            ErrorKind::RateLimited => 429,
            ErrorKind::UpstreamFailure => 500,
            ErrorKind::InternalFailure => 500,
        }
    }
}

/// The error answer of the given kind. A failure on the server's side shows
/// the caller the generic message and keeps `error_message` as its detail; any
/// other shows `error_message` itself.
pub fn respond_err(kind: ErrorKind, error_message: &str) -> (e: ApiError)
    ensures
        e@ == if is_server_side(kind) {
            server_error(kind, error_message@)
        } else {
            client_error(kind, error_message@)
        },
{
    match kind {
        ErrorKind::UpstreamFailure | ErrorKind::InternalFailure => ApiError {
            kind,
            message: String::from_str("Internal server error"),
            detail: String::from_str(error_message),
        },
        _ => ApiError { kind, message: String::from_str(error_message), detail: String::new() },
    }
}

/// Success with a value.
pub fn respond_ok_value(body: ResponseBody) -> (r: ApiResponse)
    ensures
        response_view(r) == Ok::<Option<ResponseBodyView>, ApiErrorView>(Some(body@)),
{
    Ok(Some(body))
}

/// Success without content.
pub fn respond_ok_empty() -> (r: ApiResponse)
    ensures
        response_view(r) == Ok::<Option<ResponseBodyView>, ApiErrorView>(None),
{
    Ok(None)
}

/// The HTTP status that an answer is sent with.
pub fn status_code(r: &ApiResponse) -> (code: u16)
    ensures
        code == response_status(response_view(*r)),
{
    match r {
        Ok(None) => 204,
        Ok(Some(_)) => 200,
        Err(e) => e.kind.status(),
    }
}

} // verus!
