//! Errors of the web service requests that the library decides on.
use vstd::prelude::*;

verus! {

/// A failed request.
#[derive(Clone, Debug)]
pub enum ApiError {
    /// Any failure, with its text.
    Generic(String),
    /// The service answered with an error, with its text.
    ResponseError(String),
}

} // verus!
