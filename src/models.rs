//! Message shapes of the collection service.

use vstd::prelude::*;

verus! {

/// One failed check of a request to the collection service.
#[derive(Clone, Debug, PartialEq, Eq)]
pub struct ValidationError {
    pub loc: Vec<String>,
    pub msg: String,
    pub kind: String,
}

/// The collection service's answer to a request it could not validate.
#[derive(Clone, Debug, PartialEq, Eq)]
pub struct HttpValidationError {
    pub detail: Option<Vec<ValidationError>>,
}

impl HttpValidationError {
    pub fn new() -> (r: HttpValidationError)
        ensures
            r.detail is None,
    {
        HttpValidationError { detail: None }
    }
}

} // verus!
