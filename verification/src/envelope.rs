//! The uniform `{code, message}` wrapper carried by every reply, and the
//! reply itself.

use vstd::prelude::*;

verus! {

/// Status of a request that a page answered.
pub const OK: u16 = 200;

/// Status of a request whose body could not be read into the expected shape.
pub const BAD_REQUEST: u16 = 400;

/// Status of a request for a path that no page is registered for.
pub const NOT_FOUND: u16 = 404;

/// Status of a request for a known path with a method it does not accept.
pub const METHOD_NOT_ALLOWED: u16 = 405;

/// Status of a request that failed for a reason the service does not know.
pub const INTERNAL_SERVER_ERROR: u16 = 500;

/// Envelope of a request that succeeded.
#[derive(Clone, Debug, PartialEq, Eq)]
pub struct ResponseMessage {
    pub code: u16,
    pub message: String,
}

/// Envelope of a request that failed. It has the shape of
/// [`ResponseMessage`]; the two are kept apart for what they mean.
#[derive(Clone, Debug, PartialEq, Eq)]
pub struct ErrorMessage {
    pub code: u16,
    pub message: String,
}

/// The body of a reply: one of the two envelopes.
#[derive(Clone, Debug, PartialEq, Eq)]
pub enum Body {
    Success(ResponseMessage),
    Error(ErrorMessage),
}

impl Body {
    /// The `code` field of the envelope.
    pub open spec fn spec_code(&self) -> u16 {
        match self {
            Body::Success(m) => m.code,
            Body::Error(m) => m.code,
        }
    }

    /// The `message` field of the envelope, as characters.
    pub open spec fn spec_message(&self) -> Seq<char> {
        match self {
            Body::Success(m) => m.message@,
            Body::Error(m) => m.message@,
        }
    }

    /// The `code` field of the envelope.
    pub fn code(&self) -> (r: u16)
        ensures
            r == self.spec_code(),
    {
        match self {
            Body::Success(m) => m.code,
            Body::Error(m) => m.code,
        }
    }

    /// The `message` field of the envelope.
    pub fn message(&self) -> (r: &str)
        ensures
            r@ == self.spec_message(),
    {
        match self {
            Body::Success(m) => m.message.as_str(),
            Body::Error(m) => m.message.as_str(),
        }
    }
}

/// What the service answers to one request.
#[derive(Clone, Debug, PartialEq, Eq)]
pub struct Reply {
    /// The HTTP status of the reply.
    pub status: u16,
    /// The envelope to send as the reply's body.
    pub body: Body,
    /// A line for the operator's diagnostic stream, where one is due.
    pub diagnostic: Option<String>,
}

impl Reply {
    /// The line for the diagnostic stream, as characters.
    pub open spec fn spec_diagnostic(&self) -> Option<Seq<char>> {
        match self.diagnostic {
            Some(line) => Some(line@),
            None => None,
        }
    }

    /// The shape that every reply of the service has: the status is one of
    /// the five the service knows, the envelope's code repeats it, and the
    /// envelope is the success envelope exactly when the status is 200.
    pub open spec fn well_formed(&self) -> bool {
        &&& self.status == self.body.spec_code()
        &&& (self.status == OK || self.status == BAD_REQUEST || self.status == NOT_FOUND
            || self.status == METHOD_NOT_ALLOWED || self.status == INTERNAL_SERVER_ERROR)
        &&& (self.body is Success <==> self.status == OK)
    }
}

} // verus!
