use vstd::prelude::*;

use crate::records::{error_text, ErrorMessage};

verus! {

/// A failure of the HTTP client below the service's own replies: connecting,
/// sending, or decoding a body, as the client described it.
#[derive(Debug, Clone)]
pub struct TransportFailure {
    /// The client's description of what went wrong.
    pub message: String,
    /// The HTTP status of the reply, where one had come.
    pub status: Option<u16>,
}

/// Every way a call to the service can fail.
#[derive(Debug)]
pub enum Error {
    /// An error returned by the API itself
    Api(ErrorMessage),
    /// A failure of the HTTP client: the request or the reply's body did not
    /// get through.
    AsyncProtocol(TransportFailure),
    /// An error the client discovers before talking to the API: arguments
    /// that could not be built, as the builder described them.
    BadArguments(String),
}

/// The text that describes a failed call.
pub open spec fn failure_text(e: Error) -> Seq<char> {
    match e {
        Error::Api(m) => "API returned an Error: "@ + error_text(m.status_code@, m.message@),
        Error::AsyncProtocol(t) => "Build Client arguments: "@ + t.message@,
        Error::BadArguments(s) => "Bad arguments: "@ + s@,
    }
}

impl Error {
    /// A human-readable line: for a service error its status and message,
    /// for a transport failure the client's description, for arguments that
    /// could not be built the builder's.
    pub fn to_text(&self) -> (r: String)
        ensures
            r@ == failure_text(*self),
    {
        match self {
            Error::Api(m) => {
                let mut r = String::from_str("API returned an Error: ");
                let t = m.to_text();
                r.append(t.as_str());
                r
            },
            Error::AsyncProtocol(t) => {
                let mut r = String::from_str("Build Client arguments: ");
                r.append(t.message.as_str());
                r
            },
            Error::BadArguments(s) => {
                let mut r = String::from_str("Bad arguments: ");
                r.append(s.as_str());
                r
            },
        }
    }
}

impl From<ErrorMessage> for Error {
    fn from(e: ErrorMessage) -> (r: Error) {
        Error::Api(e)
    }
}

impl vstd::std_specs::convert::FromSpecImpl<ErrorMessage> for Error {
    open spec fn obeys_from_spec() -> bool {
        true
    }

    open spec fn from_spec(e: ErrorMessage) -> Error {
        Error::Api(e)
    }
}

impl From<TransportFailure> for Error {
    fn from(e: TransportFailure) -> (r: Error) {
        Error::AsyncProtocol(e)
    }
}

impl vstd::std_specs::convert::FromSpecImpl<TransportFailure> for Error {
    open spec fn obeys_from_spec() -> bool {
        true
    }

    open spec fn from_spec(e: TransportFailure) -> Error {
        Error::AsyncProtocol(e)
    }
}

} // verus!
