use vstd::prelude::*;

verus! {

/// Failures of the direct TCP appender's set-up.
#[derive(Debug, Clone, PartialEq, Eq)]
pub enum Error {
    InvalidConfiguration(String),
    InvalidAddress(String),
    Parsing(String),
}

impl Error {
    /// The message that describes the failure.
    pub fn description(&self) -> (r: &String)
        ensures
            r@ == match self {
                Error::InvalidConfiguration(m) => m@,
                Error::InvalidAddress(m) => m@,
                Error::Parsing(m) => m@,
            },
    {
        match self {
            Error::InvalidConfiguration(m) => m,
            Error::InvalidAddress(m) => m,
            Error::Parsing(m) => m,
        }
    }
}

} // verus!
