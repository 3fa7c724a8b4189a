//! Errors of the transaction stream that feeds the controller.
use vstd::prelude::*;

verus! {

/// A failure of the stream connection.
#[derive(Clone, Debug)]
pub enum Error {
    Custom(String),
}

impl Error {
    /// The error as text.
    pub fn message(&self) -> (r: String)
        ensures
            r@ == match self {
                Error::Custom(m) => m@,
            },
    {
        match self {
            Error::Custom(m) => m.clone(),
        }
    }
}

} // verus!
