//! The answers to requests that no route takes.

use crate::response::{
    client_error, respond_err, response_view, ApiErrorView, ApiResponse, ErrorKind,
    ResponseBodyView,
};
use crate::text::concat3;
use vstd::prelude::*;

verus! {

/// The answer to a request for a path that the API does not have.
pub fn api_catch_404(path: &str) -> (r: ApiResponse)
    ensures
        response_view(r) == Err::<Option<ResponseBodyView>, ApiErrorView>(
            client_error(ErrorKind::NotFound, "Unknown URL: "@ + path@),
        ),
{
    let message = concat3("Unknown URL: ", path, "");
    assert(message@ =~= "Unknown URL: "@ + path@) by {
        reveal_strlit("");
    }
    Err(respond_err(ErrorKind::NotFound, message.as_str()))
}

/// The answer to a request whose body is not what its route reads.
pub fn api_catch_422() -> (r: ApiResponse)
    ensures
        response_view(r) == Err::<Option<ResponseBodyView>, ApiErrorView>(
            client_error(ErrorKind::Unprocessable, "ur json is fucked"@),
        ),
{
    Err(respond_err(ErrorKind::Unprocessable, "ur json is fucked"))
}

/// The answer to a caller who sends too many requests.
pub fn api_catch_429() -> (r: ApiResponse)
    ensures
        response_view(r) == Err::<Option<ResponseBodyView>, ApiErrorView>(
            client_error(ErrorKind::RateLimited, "Too many requests!"@),
        ),
{
    Err(respond_err(ErrorKind::RateLimited, "Too many requests!"))
}

} // verus!
