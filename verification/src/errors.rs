//! The error taxonomy shared by every method handler.
use vstd::prelude::*;
use vstd::string::*;

verus! {

/// Every way a request can fail, each recoverable: the dispatcher turns a
/// value of this type into a structured error response, never a crash.
#[derive(Debug)]
pub enum Error {
    /// A malformed or missing request field; the message names it.
    Parameter(String),
    /// A wallet, signer, asset or method name that is not registered.
    NotFound(String),
    /// A name that is already registered.
    Conflict(String),
    /// A failure reported by the wallet or signer engine, passed through.
    Upstream(String),
    /// The server was asked to start while already running.
    AlreadyStarted,
    /// An operation that needs a running server was issued while stopped.
    NotStarted,
}

impl Error {
    /// The stable numeric code carried in an error response.
    pub fn code(&self) -> (c: i64)
        ensures
            c == self.spec_code(),
    {
        match self {
            Error::Parameter(_) => -32602,
            Error::NotFound(_) => -32008,
            Error::Conflict(_) => -32009,
            Error::Upstream(_) => -32010,
            Error::AlreadyStarted => -32011,
            Error::NotStarted => -32012,
        }
    }

    /// The human-readable message carried in an error response.
    pub open spec fn spec_message(&self) -> Seq<char> {
        match self {
            Error::Parameter(m) => m@,
            Error::NotFound(m) => m@,
            Error::Conflict(m) => m@,
            Error::Upstream(m) => m@,
            Error::AlreadyStarted => "server already started"@,
            Error::NotStarted => "server not started"@,
        }
    }

    pub fn message(&self) -> (m: String)
        ensures
            m@ == self.spec_message(),
    {
        match self {
            Error::Parameter(s) => s.clone(),
            Error::NotFound(s) => s.clone(),
            Error::Conflict(s) => s.clone(),
            Error::Upstream(s) => s.clone(),
            Error::AlreadyStarted => String::from_str("server already started"),
            Error::NotStarted => String::from_str("server not started"),
        }
    }

    pub open spec fn spec_code(&self) -> i64 {
        match self {
            Error::Parameter(_) => -32602i64,
            Error::NotFound(_) => -32008i64,
            Error::Conflict(_) => -32009i64,
            Error::Upstream(_) => -32010i64,
            Error::AlreadyStarted => -32011i64,
            Error::NotStarted => -32012i64,
        }
    }
}

} // verus!
