use vstd::prelude::*;
use crate::text::text_of;
use crate::text::owned;

verus! {

/// The envelope of every answer of the API.
#[derive(Debug)]
pub struct ApiResponse<T> {
    pub success: bool,
    pub error: Option<String>,
    pub message: Option<String>,
    pub data: Option<T>,
}

/// An envelope with the HTTP status that it goes out under.
#[derive(Debug)]
pub struct Reply<T> {
    pub status: u16,
    pub body: ApiResponse<T>,
}

/// A failure with the given status, error and message, and no data.
pub open spec fn is_failure<T>(reply: Reply<T>, status: u16, error: Seq<char>, message: Seq<char>) -> bool {
    &&& reply.status == status
    &&& !reply.body.success
    &&& text_of(reply.body.error) == Some(error)
    &&& text_of(reply.body.message) == Some(message)
    &&& reply.body.data is None
}

impl<T> ApiResponse<T> {
    /// 200 with the data.
    pub fn success(data: T) -> (r: Reply<T>)
        ensures
            r.status == 200,
            r.body.success,
            r.body.error is None,
            r.body.message is None,
            r.body.data == Some(data),
    {
        Reply {
            status: 200,
            body: ApiResponse { success: true, error: None, message: None, data: Some(data) },
        }
    }

    /// 400 with an error code and a message.
    pub fn error(error: &str, message: &str) -> (r: Reply<T>)
        ensures
            is_failure(r, 400, error@, message@),
    {
        Reply {
            status: 400,
            body: ApiResponse {
                success: false,
                error: Some(owned(error)),
                message: Some(owned(message)),
                data: None,
            },
        }
    }

    /// 404 with a message.
    pub fn not_found(message: &str) -> (r: Reply<T>)
        ensures
            is_failure(r, 404, "Resource not found"@, message@),
    {
        Reply {
            status: 404,
            body: ApiResponse {
                success: false,
                error: Some(owned("Resource not found")),
                message: Some(owned(message)),
                data: None,
            },
        }
    }

    /// 401 with a message.
    pub fn unauthorized(message: &str) -> (r: Reply<T>)
        ensures
            is_failure(r, 401, "Authentication failed"@, message@),
    {
        Reply {
            status: 401,
            body: ApiResponse {
                success: false,
                error: Some(owned("Authentication failed")),
                message: Some(owned(message)),
                data: None,
            },
        }
    }
}

} // verus!
