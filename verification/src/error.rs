//! Why start-up input is turned away.

use vstd::prelude::*;

verus! {

/// An error in the input that the launcher was started with.
#[derive(Clone, Copy, Debug, PartialEq, Eq, Structural)]
pub enum Error {
    /// The backend name is not one of the backends of this build.
    UnknownBackend,
}

impl Error {
    /// The description of this error, as plain text.
    pub open spec fn text(self) -> Seq<char> {
        match self {
            Error::UnknownBackend => "unknown audio backend"@,
        }
    }

    /// A one-line description for the person who started the launcher.
    pub fn message(&self) -> (r: &'static str)
        ensures
            r@ == self.text(),
    {
        match self {
            Error::UnknownBackend => "unknown audio backend",
        }
    }
}

} // verus!
