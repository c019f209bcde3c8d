use vstd::prelude::*;
use vstd::string::StringExecFns;

verus! {

/// The errors the framework reports to its callers. None of them escapes a
/// site's boundary to the consumer: a failed decode or transport only skips
/// work.
#[derive(Clone, Copy, Debug, PartialEq, Eq, Structural)]
pub enum Error {
    /// The body did not decode as JSON.
    JsonError,
    /// The HTTP layer failed to produce a response.
    ReqwestError,
}

impl Error {
    /// A short description of the error.
    pub fn describe(&self) -> (r: String)
        ensures
            (*self == Error::JsonError ==> r@ == "json serde encountered a unexpected token"@),
            (*self == Error::ReqwestError ==> r@ == "reqwest error"@),
    {
        match self {
            Error::JsonError => String::from_str("json serde encountered a unexpected token"),
            Error::ReqwestError => String::from_str("reqwest error"),
        }
    }
}

/// The framework's result type.
pub type Result<T> = core::result::Result<T, Error>;

} // verus!
