//! Error type shared by every fallible operation of the library.

use vstd::prelude::*;

verus! {

/// What went wrong. Every error the library returns is tagged with one kind.
#[derive(Debug, Clone, Copy, PartialEq, Eq, Structural)]
pub enum Kind {
    /// The configuration could not be validated.
    BigImgBuilderError,
    /// Font data could not be parsed.
    InvalidFont,
    /// An image could not be decoded, composed or encoded.
    Image,
    /// A file could not be read, written or created.
    Io,
    /// A count did not fit the width integer type.
    TryFrom,
    /// Anything else, including a failed external encoder run.
    Other,
}

/// A tagged error together with a human-readable message.
#[derive(Debug, Clone)]
pub struct Error {
    pub kind: Kind,
    pub msg: String,
}

impl Error {
    /// Builds an error of the given kind carrying the given message.
    pub fn new(kind: Kind, msg: &str) -> (r: Error)
        ensures
            r.kind == kind,
            r.msg@ == msg@,
    {
        Error { kind, msg: String::from_str(msg) }
    }

    /// The message, for callers that report the failure.
    pub fn message(&self) -> (r: String)
        ensures
            r@ == self.msg@,
    {
        self.msg.clone()
    }
}

} // verus!
