//! Errors of the binding layer.
//!
//! Only failures at the boundary become errors: an engine that could not be
//! started, and a call that was owed an object and was answered with the
//! sentinel. What the compiler finds wrong in its input is not an error here:
//! it is data, read from the result handle.
//!
//! Text is passed to the engine with its length, so every string can be
//! passed. Only one-shot compilation passes NUL-terminated text, and refuses
//! text that holds a NUL byte: see [`crate::template::CompileError`].

use vstd::prelude::*;

verus! {

/// What went wrong.
#[derive(Debug, Clone, Copy, PartialEq, Eq, Hash, Structural)]
pub enum ErrorKind {
    /// The engine could not be started. Nothing was created; the caller may
    /// try again.
    EngineInitFailed,
    /// A call that creates an object was answered with the sentinel.
    InvalidHandle,
}

/// An error of the binding layer: its kind, and a message for people.
#[derive(Debug)]
pub struct Error {
    kind: ErrorKind,
    message: String,
}

/// The result of an operation that can fail at the boundary.
pub type Result<T> = core::result::Result<T, Error>;

impl Error {
    /// The kind of this error, in contracts.
    pub closed spec fn spec_kind(&self) -> ErrorKind {
        self.kind
    }

    /// The message of this error, in contracts.
    pub closed spec fn spec_message(&self) -> Seq<char> {
        self.message@
    }

    /// An error of the given kind with the given message.
    pub fn new(kind: ErrorKind, message: &str) -> (error: Error)
        ensures
            error.spec_kind() == kind,
            error.spec_message() == message@,
    {
        Error { kind, message: message.to_owned() }
    }

    /// What went wrong.
    #[verifier::when_used_as_spec(spec_kind)]
    pub fn kind(&self) -> (kind: ErrorKind)
        ensures
            kind == self.spec_kind(),
    {
        self.kind
    }

    /// The message.
    pub fn message(&self) -> (message: &str)
        ensures
            message@ == self.spec_message(),
    {
        self.message.as_str()
    }

    /// The message, as an owned string.
    pub fn to_string(&self) -> (message: String)
        ensures
            message@ == self.spec_message(),
    {
        self.message.clone()
    }
}

} // verus!
