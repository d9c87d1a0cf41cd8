//! The one failure that deriving request metadata can meet.
use vstd::prelude::*;

verus! {

/// A configuration could not be serialized to its wire form; the message
/// says why.
#[derive(Clone, Debug)]
pub enum S3Error {
    Serialization(String),
}

impl S3Error {
    /// A copy of the error, equal to it.
    pub fn duplicate(&self) -> (r: S3Error)
        ensures
            r == *self,
    {
        match self {
            S3Error::Serialization(m) => S3Error::Serialization(m.clone()),
        }
    }

    /// The error's message.
    pub fn message(&self) -> (r: String)
        ensures
            r@ == self->Serialization_0@,
    {
        match self {
            S3Error::Serialization(m) => m.clone(),
        }
    }
}

} // verus!
