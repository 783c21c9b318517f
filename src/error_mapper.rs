use vstd::prelude::*;
use vstd::string::to_string_from_display_ensures;

use crate::data_error::DataError;
use crate::unexpected_error::unexpected_text;

verus! {

/// The code the store assigns to a write that breaks a unique index.
pub const DUPLICATE_KEY_CODE: i32 = 11000;

/// How a failure is reported to a web client.
#[derive(PartialEq, Eq, Structural, Debug, Clone, Copy)]
pub enum StatusClass {
    /// A record that conflicts with the request already exists.
    Conflict,
    /// Any other fault.
    Internal,
}

impl StatusClass {
    /// The HTTP status code of the class.
    pub fn http_status(&self) -> (r: u16)
        ensures
            *self == StatusClass::Conflict ==> r == 409,
            *self == StatusClass::Internal ==> r == 500,
    {
        match self {
            StatusClass::Conflict => 409,
            StatusClass::Internal => 500,
        }
    }
}

/// The class of a store failure, given the code of the write error it carries
/// (`None` when it is not a write error).
pub open spec fn class_of_write_code(write_code: Option<i32>) -> StatusClass {
    if write_code == Some(DUPLICATE_KEY_CODE) {
        StatusClass::Conflict
    } else {
        StatusClass::Internal
    }
}

/// Classifies a store failure from the code of its write error, if it has one.
pub fn classify_store_failure(write_code: Option<i32>) -> (r: StatusClass)
    ensures
        r == class_of_write_code(write_code),
{
    match write_code {
        Some(code) => {
            if code == DUPLICATE_KEY_CODE {
                StatusClass::Conflict
            } else {
                StatusClass::Internal
            }
        },
        None => StatusClass::Internal,
    }
}

/// The code of the write error that a store failure carries, `None` when it
/// is not a write error.
pub uninterp spec fn write_code_of(e: mongodb::error::Error) -> Option<i32>;

/// Relies on mongodb's public `Error::kind`: the code of a write error that is
/// not a write-concern error, `None` for every other kind of failure.
#[verifier::external_body]
fn write_error_code(e: &mongodb::error::Error) -> (r: Option<i32>)
    ensures
        r == write_code_of(*e),
{
    match &*e.kind {
        mongodb::error::ErrorKind::Write(mongodb::error::WriteFailure::WriteError(w)) => Some(
            w.code,
        ),
        _ => None,
    }
}

impl DataError {
    /// The class and the message under which this failure is reported.
    pub fn map_error(&self) -> (r: (StatusClass, String))
        ensures
            match self {
                DataError::MongoError(e) => r.0 == class_of_write_code(write_code_of(*e))
                    && to_string_from_display_ensures(e, r.1),
                DataError::UnexpectedError(u) => r.0 == StatusClass::Internal && r.1@
                    == unexpected_text(u.error_message@),
            },
    {
        let message = self.to_string();
        match self {
            DataError::MongoError(e) => {
                let code = write_error_code(e);
                (classify_store_failure(code), message)
            },
            DataError::UnexpectedError(_) => (StatusClass::Internal, message),
        }
    }
}

} // verus!
