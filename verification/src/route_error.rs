//! The errors of the endpoint, and what they are answered with.
use vstd::prelude::*;
use vstd::std_specs::convert::FromSpecImpl;

verus! {

/// Why a request was not carried out.
#[derive(Debug, Clone, PartialEq, Eq)]
pub enum RouteError {
    /// Something else failed; this is what it said.
    Internal(String),
    /// An object that others refer to is missing.
    LoadFailed,
    /// The access token is not one that can be used.
    InvalidToken,
    /// The access token does not extend to this endpoint.
    MissingScope,
    /// The request could not be read; this is why.
    ParseRequest(String),
}

/// The answer to a request that failed: a status code, and the message of the one error in
/// the body.
#[derive(Debug, Clone, PartialEq, Eq)]
pub struct ErrorResponse {
    pub status: u16,
    pub message: String,
}

/// An error that is not explained to the requester.
#[derive(Debug, Clone, PartialEq, Eq)]
pub struct InternalError {
    pub source: RouteError,
}

impl RouteError {
    /// What the error says of itself.
    pub open spec fn text(self) -> Seq<char> {
        match self {
            RouteError::Internal(what) => what@,
            RouteError::LoadFailed => "Loading of some database objects failed"@,
            RouteError::InvalidToken => "Invalid access token"@,
            RouteError::MissingScope => "Missing scope"@,
            RouteError::ParseRequest(why) => why@,
        }
    }

    /// The status code that the error is answered with.
    pub open spec fn status(self) -> u16 {
        match self {
            RouteError::Internal(_) | RouteError::LoadFailed => 500,
            RouteError::InvalidToken | RouteError::MissingScope => 401,
            RouteError::ParseRequest(_) => 400,
        }
    }

    /// The message that the error is answered with. Where the requester is told what is
    /// wrong with the token, it is told in other words.
    pub open spec fn answer(self) -> Seq<char> {
        match self {
            RouteError::InvalidToken => "Invalid token"@,
            RouteError::MissingScope => "Missing urn:mas:graphql:* scope"@,
            _ => self.text(),
        }
    }

    /// Writes out what the error says of itself.
    pub fn display(&self) -> (text: String)
        ensures
            text@ == self.text(),
    {
        match self {
            RouteError::Internal(what) => what.as_str().to_owned(),
            RouteError::LoadFailed => "Loading of some database objects failed".to_owned(),
            RouteError::InvalidToken => "Invalid access token".to_owned(),
            RouteError::MissingScope => "Missing scope".to_owned(),
            RouteError::ParseRequest(why) => why.as_str().to_owned(),
        }
    }

    /// Answers the request.
    pub fn into_response(self) -> (response: ErrorResponse)
        ensures
            response.status == self.status(),
            response.message@ == self.answer(),
    {
        match self {
            RouteError::Internal(_) | RouteError::LoadFailed => ErrorResponse {
                status: 500,
                message: self.display(),
            },
            RouteError::InvalidToken => ErrorResponse {
                status: 401,
                message: "Invalid token".to_owned(),
            },
            RouteError::MissingScope => ErrorResponse {
                status: 401,
                message: "Missing urn:mas:graphql:* scope".to_owned(),
            },
            RouteError::ParseRequest(why) => ErrorResponse { status: 400, message: why },
        }
    }
}

impl From<RouteError> for InternalError {
    fn from(source: RouteError) -> (error: InternalError) {
        InternalError { source }
    }
}

impl FromSpecImpl<RouteError> for InternalError {
    open spec fn obeys_from_spec() -> bool {
        true
    }

    open spec fn from_spec(source: RouteError) -> InternalError {
        InternalError { source }
    }
}

} // verus!
