//! The compiler's error type.

use vstd::prelude::*;

verus! {

/// A parameter's type, or an `Option`'s inner type, does not match any
/// variant of the transport taxonomy. Carries the textual form of the
/// offending type or argument.
#[derive(Debug)]
pub enum Error {
    InvalidArg(String),
}

impl Error {
    /// The textual form carried by the error.
    pub fn text(&self) -> (r: &String)
        ensures
            self matches Error::InvalidArg(s) && r@ == s@,
    {
        match self {
            Error::InvalidArg(s) => s,
        }
    }
}

} // verus!
