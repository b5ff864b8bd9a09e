//! Error kinds that end an invocation: a body read failure, a credentials
//! failure during signing, or a transport failure. Each carries the single
//! descriptive line written to standard error.

use vstd::prelude::*;

verus! {

/// A terminal failure of one invocation. None of these are retried.
#[derive(Debug, PartialEq, Eq)]
pub enum Error {
    /// The request body could not be read from a file or standard input.
    Io(String),
    /// Signing credentials could not be resolved.
    Credentials(String),
    /// The network exchange, or the signing stage for a reason other than
    /// credentials, failed.
    Dispatch(String),
}

impl Error {
    /// The descriptive line carried by this error, as a sequence of characters.
    pub open spec fn spec_message(&self) -> Seq<char> {
        match self {
            Error::Io(m) => m@,
            Error::Credentials(m) => m@,
            Error::Dispatch(m) => m@,
        }
    }

    /// The single descriptive line to write to standard error.
    pub fn message(&self) -> (r: &str)
        ensures
            r@ == self.spec_message(),
    {
        match self {
            Error::Io(m) => m.as_str(),
            Error::Credentials(m) => m.as_str(),
            Error::Dispatch(m) => m.as_str(),
        }
    }
}

} // verus!
