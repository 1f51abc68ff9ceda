//! The error taxonomy of a request, and the rule that classifies a reply.

use crate::shabbat::response::Shabbat;
use vstd::prelude::*;
use vstd::string::StringExecFns;

verus! {

/// The service's own error reply, `{"error": "..."}`.
#[derive(Debug, Clone)]
pub struct HebCalError {
    pub error: String,
}

impl HebCalError {
    /// The error as a line of text: `Error: ` and the service's message.
    pub fn to_text(&self) -> (r: String)
        ensures
            r@ == "Error: "@ + self.error@,
    {
        let mut out = String::from_str("Error: ");
        out.append(self.error.as_str());
        out
    }
}

/// A body that could not be read as the structure expected of it.
#[derive(Debug, Clone)]
pub struct DecodeError {
    pub message: String,
}

/// A transport failure (connection, TLS, timeout), as the transport described it.
#[derive(Debug, Clone)]
pub struct TransportError {
    pub message: String,
}

/// Every way a request can fail; each failure has one kind.
#[derive(Debug)]
pub enum Error {
    /// The service answered with an error reply.
    HebCal { error: HebCalError },
    /// The transport failed: connection, TLS, timeout, or the like.
    Reqwest(TransportError),
    /// The request URL could not be built.
    UrlParser(url::ParseError),
    /// A reply body did not have the expected shape.
    Decode(DecodeError),
    /// A condition that no other kind describes.
    Unknown,
}

/// A reply body, decoded in the shape that its status called for.
#[derive(Debug)]
pub enum Reply {
    /// The body of a success reply, read as a Shabbat times result.
    Payload(Result<Shabbat, DecodeError>),
    /// The body of a failure reply, read as the service's error reply.
    Failure(Result<HebCalError, DecodeError>),
}

/// A status in 200..=299 is a success.
pub open spec fn spec_is_success(status: u16) -> bool {
    200 <= status <= 299
}

/// Whether a reply with this status carries a result (else an error reply).
pub fn is_success(status: u16) -> (r: bool)
    ensures
        r == spec_is_success(status),
{
    200 <= status && status <= 299
}

/// The outcome of a request whose reply had status `status`.
pub open spec fn classification(status: u16, reply: Reply) -> Result<Shabbat, Error> {
    match reply {
        Reply::Payload(decoded) => if spec_is_success(status) {
            match decoded {
                Ok(s) => Ok(s),
                Err(e) => Err(Error::Decode(e)),
            }
        } else {
            Err(Error::Unknown)
        },
        Reply::Failure(decoded) => if spec_is_success(status) {
            Err(Error::Unknown)
        } else {
            match decoded {
                Ok(h) => Err(Error::HebCal { error: h }),
                Err(e) => Err(Error::Decode(e)),
            }
        },
    }
}

/// Classifies a reply: a success status with a readable result gives the
/// result; a failure status with a readable error reply gives that service
/// error; a body of either kind that could not be read gives a decode error;
/// a body decoded in the shape its status did not call for is unknown.
pub fn classify(status: u16, reply: Reply) -> (r: Result<Shabbat, Error>)
    ensures
        r == classification(status, reply),
{
    let success = is_success(status);
    match reply {
        Reply::Payload(decoded) => if success {
            match decoded {
                Ok(s) => Ok(s),
                Err(e) => Err(Error::Decode(e)),
            }
        } else {
            Err(Error::Unknown)
        },
        Reply::Failure(decoded) => if success {
            Err(Error::Unknown)
        } else {
            match decoded {
                Ok(h) => Err(Error::HebCal { error: h }),
                Err(e) => Err(Error::Decode(e)),
            }
        },
    }
}

} // verus!
