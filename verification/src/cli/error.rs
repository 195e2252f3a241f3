//! Errors of the command line.

use vstd::prelude::*;

verus! {

/// Why a configuration value could not be derived from the flags.
#[derive(Debug, Clone, PartialEq, Eq)]
pub enum Error {
    /// The operator's input is not acceptable; the message says why.
    Input(String),
}

impl Error {
    /// The message that the error carries.
    pub open spec fn message(self) -> Seq<char> {
        match self {
            Error::Input(message) => message@,
        }
    }
}

} // verus!
