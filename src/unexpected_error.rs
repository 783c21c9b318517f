use vstd::prelude::*;
use vstd::string::*;

verus! {

/// The text shown for an unexpected failure carrying `message`.
pub open spec fn unexpected_text(message: Seq<char>) -> Seq<char> {
    "Unexpected error: "@ + message
}

/// A failure that did not come from the store, with a human-readable message.
#[derive(Debug, Clone)]
pub struct UnexpectedError {
    pub error_message: String,
}

impl UnexpectedError {
    pub fn new(error_message: String) -> (r: UnexpectedError)
        ensures
            r.error_message@ == error_message@,
    {
        UnexpectedError { error_message: error_message }
    }

    /// The display text: the message behind a fixed prefix.
    pub fn to_string(&self) -> (r: String)
        ensures
            r@ == unexpected_text(self.error_message@),
    {
        let prefix = String::from_str("Unexpected error: ");
        prefix.concat(self.error_message.as_str())
    }
}

} // verus!
