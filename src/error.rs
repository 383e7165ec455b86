use vstd::prelude::*;

verus! {

/// The errors that reach the API boundary.
#[derive(Clone, Debug, PartialEq, Eq)]
pub enum ApiError {
    BadRequest(String),
    NotFound(String),
    InternalServer,
}

/// The text shown for an internal failure, which hides its cause.
pub open spec fn internal_server_text() -> Seq<char> {
    "An error occurred with the server"@
}

/// The HTTP status of each error.
pub open spec fn status_of(e: ApiError) -> u16 {
    match e {
        ApiError::BadRequest(_) => 400,
        ApiError::NotFound(_) => 404,
        ApiError::InternalServer => 500,
    }
}

/// The message of each error.
pub open spec fn message_of(e: ApiError) -> Seq<char> {
    match e {
        ApiError::BadRequest(m) => m@,
        ApiError::NotFound(m) => m@,
        ApiError::InternalServer => internal_server_text(),
    }
}

impl ApiError {
    pub fn get_http_status(&self) -> (r: u16)
        ensures
            r == status_of(*self),
    {
        match self {
            ApiError::BadRequest(_) => 400,
            ApiError::NotFound(_) => 404,
            ApiError::InternalServer => 500,
        }
    }

    /// The text of the error, as the response body carries it.
    pub fn message(&self) -> (r: String)
        ensures
            r@ == message_of(*self),
    {
        match self {
            ApiError::BadRequest(m) => m.clone(),
            ApiError::NotFound(m) => m.clone(),
            ApiError::InternalServer => "An error occurred with the server".to_owned(),
        }
    }
}

/// The body of an error response.
#[derive(Clone, Debug, PartialEq, Eq)]
pub struct ErrorResponse {
    pub message: String,
}

impl ErrorResponse {
    pub fn new(error: &ApiError) -> (r: ErrorResponse)
        ensures
            r.message@ == message_of(*error),
    {
        ErrorResponse { message: error.message() }
    }

    pub fn message(&self) -> (r: &String)
        ensures
            r == self.message,
    {
        &self.message
    }
}

} // verus!
