//! The closed set of error kinds raised by the orchestration core.

use vstd::prelude::*;

verus! {

/// Everything that can go wrong inside the core, as a closed enumeration.
///
/// Construction-time failures (`TaskDefinitionError`, `InvalidResourceError`,
/// `InvalidNameError`) abort the owning block before any processor starts.
/// `InternalError` marks a broken invariant and surfaces as a crash.
/// `MediaError` carries a decode failure through a stream's `done` cell.
/// `FlowError` is a generic propagated lifecycle failure.
#[derive(Debug, PartialEq, Eq)]
pub enum Error {
    TaskDefinitionError(String),
    InvalidResourceError(String),
    InvalidNameError(String),
    InternalError(String),
    MediaError(String),
    FlowError(String),
}

impl Clone for Error {
    fn clone(&self) -> (r: Self)
        ensures
            r == *self,
    {
        match self {
            Error::TaskDefinitionError(m) => Error::TaskDefinitionError(m.clone()),
            Error::InvalidResourceError(m) => Error::InvalidResourceError(m.clone()),
            Error::InvalidNameError(m) => Error::InvalidNameError(m.clone()),
            Error::InternalError(m) => Error::InternalError(m.clone()),
            Error::MediaError(m) => Error::MediaError(m.clone()),
            Error::FlowError(m) => Error::FlowError(m.clone()),
        }
    }
}

impl Error {
    /// The free-form context carried by the error, whichever kind it is.
    pub fn message(&self) -> (r: String)
        ensures
            r@ == self.message_spec(),
    {
        match self {
            Error::TaskDefinitionError(m) => m.clone(),
            Error::InvalidResourceError(m) => m.clone(),
            Error::InvalidNameError(m) => m.clone(),
            Error::InternalError(m) => m.clone(),
            Error::MediaError(m) => m.clone(),
            Error::FlowError(m) => m.clone(),
        }
    }

    pub open spec fn message_spec(&self) -> Seq<char> {
        match self {
            Error::TaskDefinitionError(m) => m@,
            Error::InvalidResourceError(m) => m@,
            Error::InvalidNameError(m) => m@,
            Error::InternalError(m) => m@,
            Error::MediaError(m) => m@,
            Error::FlowError(m) => m@,
        }
    }
}

} // verus!
