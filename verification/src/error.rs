//! Failure taxonomy shared by every layer of the client.

use vstd::prelude::*;

verus! {

/// One reportable failure kind for the whole client.
///
/// Every error is returned to the immediate caller as a typed value; none is
/// swallowed and none triggers an automatic retry inside the core.
#[derive(Debug, PartialEq, Eq)]
pub enum Error {
    /// Connection, timeout or protocol failure at the HTTP layer.
    Transport(String),
    /// The remote service explicitly signalled failure through the sentinel
    /// convention; the message is preserved verbatim.
    Server(String),
    /// The response body did not match the wire shape declared by the
    /// command's response format.
    Decode(String),
    /// The command's fields could not be encoded into an envelope.
    Encode(String),
    /// A token refresh was requested on a client that holds no credential.
    NoCredential,
}

impl Error {
    /// Human-readable rendering of the error, prefixed with its kind.
    pub fn describe(&self) -> (r: String)
        ensures
            match self {
                Error::Transport(m) => r@ == "transport error: "@ + m@,
                Error::Server(m) => r@ == "server error: "@ + m@,
                Error::Decode(m) => r@ == "decode error: "@ + m@,
                Error::Encode(m) => r@ == "encode error: "@ + m@,
                Error::NoCredential => r@ == "no credential available"@,
            },
    {
        match self {
            Error::Transport(m) => {
                let mut s = String::from_str("transport error: ");
                s.append(m.as_str());
                s
            },
            Error::Server(m) => {
                let mut s = String::from_str("server error: ");
                s.append(m.as_str());
                s
            },
            Error::Decode(m) => {
                let mut s = String::from_str("decode error: ");
                s.append(m.as_str());
                s
            },
            Error::Encode(m) => {
                let mut s = String::from_str("encode error: ");
                s.append(m.as_str());
                s
            },
            Error::NoCredential => String::from_str("no credential available"),
        }
    }
}

} // verus!
