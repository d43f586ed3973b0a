//! The shape of a reply: an HTTP status and, under it, the uniform envelope
//! that carries either a payload or the message of an error.

use crate::error::ApiError;
use crate::model::Organization;
use vstd::prelude::*;

verus! {

/// The envelope of every reply that has a body: a payload or nothing, the
/// message of an error or nothing, and `"success"` or `"error"`.
#[derive(Debug, PartialEq, Eq)]
pub struct ApiResponse<T> {
    pub data: Option<T>,
    pub error: Option<String>,
    pub status: String,
}

impl<T> ApiResponse<T> {
    /// The envelope carries `data` and reports success.
    pub open spec fn is_success(&self, data: T) -> bool {
        &&& self.data == Some(data)
        &&& self.error is None
        &&& self.status@ == "success"@
    }

    /// The envelope carries no payload and reports an error in the words of
    /// `message`.
    pub open spec fn is_failure(&self, message: Seq<char>) -> bool {
        &&& self.data is None
        &&& self.error matches Some(text)
        &&& text@ == message
        &&& self.status@ == "error"@
    }

    /// An envelope around `data`, with `error` and `status` as given.
    pub fn new(data: T, error: Option<String>, status: &str) -> (response: Self)
        ensures
            response.data == Some(data),
            response.error == error,
            response.status@ == status@,
    {
        ApiResponse { data: Some(data), error, status: String::from_str(status) }
    }

    /// The envelope of a request that was served.
    pub fn success(data: T) -> (response: Self)
        ensures
            response.is_success(data),
    {
        Self::new(data, None, "success")
    }

    /// The envelope of a request that failed: no payload, and no more of the
    /// error than its message.
    pub fn failure(error: &ApiError) -> (response: Self)
        ensures
            response.is_failure(error.message@),
    {
        ApiResponse {
            data: None,
            error: Some(error.message.clone()),
            status: String::from_str("error"),
        }
    }
}

/// The payload of a reply about one organization.
#[derive(Debug, PartialEq, Eq)]
pub struct OrganizationResponse {
    pub organization: Organization,
}

/// What is sent back: a status and, unless the status says that there is no
/// content, an envelope.
#[derive(Debug, PartialEq, Eq)]
pub struct HttpReply<T> {
    pub status: u16,
    pub body: Option<ApiResponse<T>>,
}

impl<T> HttpReply<T> {
    /// The reply has the status `status` and carries `data` in an envelope
    /// that reports success.
    pub open spec fn is_success(&self, status: u16, data: T) -> bool {
        &&& self.status == status
        &&& self.body matches Some(envelope)
        &&& envelope.is_success(data)
    }

    /// The reply answers `error`: the status is that of the error's category
    /// and the envelope reports the error's message.
    pub open spec fn is_failure(&self, error: ApiError) -> bool {
        &&& self.status == error.code.status_of()
        &&& self.body matches Some(envelope)
        &&& envelope.is_failure(error.message@)
    }

    /// A reply with the status `status` and `data` in an envelope that
    /// reports success.
    pub fn success(status: u16, data: T) -> (reply: Self)
        ensures
            reply.is_success(status, data),
    {
        HttpReply { status, body: Some(ApiResponse::success(data)) }
    }

    /// The reply that answers `error`.
    pub fn failure(error: &ApiError) -> (reply: Self)
        ensures
            reply.is_failure(*error),
    {
        HttpReply { status: error.status(), body: Some(ApiResponse::failure(error)) }
    }

    /// The reply to a request that was served and has nothing to show: status
    /// 204 and no body.
    pub fn no_content() -> (reply: Self)
        ensures
            reply.status == 204,
            reply.body is None,
    {
        HttpReply { status: 204, body: None }
    }
}

} // verus!
