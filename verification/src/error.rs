use vstd::prelude::*;
use vstd::string::*;

verus! {

/// The ways a request can fail.
#[derive(Debug)]
pub enum AppError {
    BadRequest(String),
    Unauthorized,
    NotFound,
    Conflict(String),
    Internal(String),
}

/// What the database reported when a statement failed: whether it was a
/// violation of a unique constraint, and its description.
pub struct DbFailure {
    pub unique_violation: bool,
    pub detail: String,
}

/// The HTTP status that answers an error.
pub open spec fn status_of(e: AppError) -> u16 {
    match e {
        AppError::BadRequest(_) => 400,
        AppError::Unauthorized => 401,
        AppError::NotFound => 404,
        AppError::Conflict(_) => 409,
        AppError::Internal(_) => 500,
    }
}

/// The message that the answer to an error carries; internal details stay
/// out of it.
pub open spec fn public_message_of(e: AppError) -> Seq<char> {
    match e {
        AppError::BadRequest(m) => m@,
        AppError::Unauthorized => "unauthorized"@,
        AppError::NotFound => "not found"@,
        AppError::Conflict(m) => m@,
        AppError::Internal(_) => "internal server error"@,
    }
}

/// The full text of an error, internal details included.
pub open spec fn description_of(e: AppError) -> Seq<char> {
    match e {
        AppError::BadRequest(m) => "bad request: "@ + m@,
        AppError::Unauthorized => "unauthorized"@,
        AppError::NotFound => "not found"@,
        AppError::Conflict(m) => "conflict: "@ + m@,
        AppError::Internal(m) => "internal error: "@ + m@,
    }
}

impl AppError {
    /// A `BadRequest` with the given message.
    pub fn bad_request(message: &str) -> (e: AppError)
        ensures
            e matches AppError::BadRequest(m) && m@ == message@,
    {
        AppError::BadRequest(String::from_str(message))
    }

    /// A `Conflict` with the given message.
    pub fn conflict(message: &str) -> (e: AppError)
        ensures
            e matches AppError::Conflict(m) && m@ == message@,
    {
        AppError::Conflict(String::from_str(message))
    }

    /// An `Internal` error with the given detail.
    pub fn internal(detail: &str) -> (e: AppError)
        ensures
            e matches AppError::Internal(m) && m@ == detail@,
    {
        AppError::Internal(String::from_str(detail))
    }

    /// The HTTP status that answers this error.
    pub fn status(&self) -> (s: u16)
        ensures
            s == status_of(*self),
    {
        match self {
            AppError::BadRequest(_) => 400,
            AppError::Unauthorized => 401,
            AppError::NotFound => 404,
            AppError::Conflict(_) => 409,
            AppError::Internal(_) => 500,
        }
    }

    /// The message that the answer to this error carries.
    pub fn public_message(&self) -> (m: String)
        ensures
            m@ == public_message_of(*self),
    {
        match self {
            AppError::BadRequest(m) => m.clone(),
            AppError::Unauthorized => String::from_str("unauthorized"),
            AppError::NotFound => String::from_str("not found"),
            AppError::Conflict(m) => m.clone(),
            AppError::Internal(_) => String::from_str("internal server error"),
        }
    }

    /// The full text of this error.
    pub fn describe(&self) -> (d: String)
        ensures
            d@ == description_of(*self),
    {
        match self {
            AppError::BadRequest(m) => String::from_str("bad request: ").concat(m.as_str()),
            AppError::Unauthorized => String::from_str("unauthorized"),
            AppError::NotFound => String::from_str("not found"),
            AppError::Conflict(m) => String::from_str("conflict: ").concat(m.as_str()),
            AppError::Internal(m) => String::from_str("internal error: ").concat(m.as_str()),
        }
    }
}

/// Turns a database failure into the error that answers the request.
pub fn map_db(failure: DbFailure) -> (e: AppError)
    ensures
        failure.unique_violation ==> (e matches AppError::Conflict(m) && m@
            == "resource already exists"@),
        !failure.unique_violation ==> (e matches AppError::Internal(m) && m@
            == failure.detail@),
{
    if failure.unique_violation {
        AppError::conflict("resource already exists")
    } else {
        AppError::Internal(failure.detail)
    }
}

} // verus!
