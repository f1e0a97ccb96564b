//! The error type of the library.

use vstd::prelude::*;

verus! {

/// The kind of a failure, one per failure class of the generation run.
#[derive(Debug, Clone, Copy, PartialEq, Eq, Structural)]
pub enum ErrorKind {
    /// Cannot find a file or directory.
    NotFound,
    /// Expected a directory, found something else.
    NotADirectory,
    /// Generic filesystem failure.
    Io,
    /// Relative-path computation failed.
    StripPrefix,
    /// Remote acquisition or branch resolution failed.
    GitError,
    /// The source string could not be parsed as a URL.
    Url,
    /// A template failed to render.
    TemplatingEngine,
    /// Placeholder substitution failed.
    RegEx,
    /// Renderer error.
    Renderer,
    /// Generic error kind.
    Error,
}

/// Base error type: a kind and a failure message.
#[derive(Debug)]
pub struct Error {
    err: ErrorImpl,
}

#[derive(Debug)]
struct ErrorImpl {
    kind: ErrorKind,
    msg: String,
}

impl Error {
    /// The kind this error was created with.
    pub closed spec fn kind_spec(&self) -> ErrorKind {
        self.err.kind
    }

    /// The message this error was created with.
    pub closed spec fn msg_spec(&self) -> Seq<char> {
        self.err.msg@
    }

    /// Creates a new `Error` with an error kind and a failure message.
    pub fn new(kind: ErrorKind, message: &str) -> (e: Error)
        ensures
            e.kind_spec() == kind,
            e.msg_spec() == message@,
    {
        Error { err: ErrorImpl { kind, msg: message.to_owned() } }
    }

    /// The error's kind.
    pub fn kind(&self) -> (k: &ErrorKind)
        ensures
            *k == self.kind_spec(),
    {
        &self.err.kind
    }

    /// The error's message.
    pub fn message(&self) -> (m: &str)
        ensures
            m@ == self.msg_spec(),
    {
        self.err.msg.as_str()
    }
}

} // verus!
