use vstd::prelude::*;
use vstd::string::to_string_from_display_ensures;

use crate::unexpected_error::{unexpected_text, UnexpectedError};

verus! {

#[verifier::external_type_specification]
#[verifier::external_body]
pub struct ExMongoError(mongodb::error::Error);

/// Every failure of the data layer: one reported by the store, or one raised locally.
#[derive(Debug)]
pub enum DataError {
    MongoError(mongodb::error::Error),
    UnexpectedError(UnexpectedError),
}

impl DataError {
    /// The display text: the store's own text for its failures, the prefixed
    /// message for unexpected ones.
    pub fn to_string(&self) -> (r: String)
        ensures
            match self {
                DataError::MongoError(e) => to_string_from_display_ensures(e, r),
                DataError::UnexpectedError(u) => r@ == unexpected_text(u.error_message@),
            },
    {
        match self {
            DataError::MongoError(e) => e.to_string(),
            DataError::UnexpectedError(u) => u.to_string(),
        }
    }
}

impl From<mongodb::error::Error> for DataError {
    fn from(e: mongodb::error::Error) -> (r: DataError) {
        DataError::MongoError(e)
    }
}

impl vstd::std_specs::convert::FromSpecImpl<mongodb::error::Error> for DataError {
    open spec fn obeys_from_spec() -> bool {
        true
    }

    open spec fn from_spec(e: mongodb::error::Error) -> DataError {
        DataError::MongoError(e)
    }
}

impl From<UnexpectedError> for DataError {
    fn from(e: UnexpectedError) -> (r: DataError) {
        DataError::UnexpectedError(e)
    }
}

impl vstd::std_specs::convert::FromSpecImpl<UnexpectedError> for DataError {
    open spec fn obeys_from_spec() -> bool {
        true
    }

    open spec fn from_spec(e: UnexpectedError) -> DataError {
        DataError::UnexpectedError(e)
    }
}

} // verus!
