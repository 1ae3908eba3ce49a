//! Why a request got no page, and the reply that each reason is given.

use vstd::prelude::*;
use vstd::string::StringExecFns;
use crate::envelope::{Body, ErrorMessage, Reply};
use crate::envelope::{BAD_REQUEST, INTERNAL_SERVER_ERROR, METHOD_NOT_ALLOWED, NOT_FOUND};
use crate::text::{contains, is_substring};

verus! {

/// The reason for which a request got no page.
#[derive(Clone, Debug, PartialEq, Eq)]
pub enum Rejection {
    /// No page is registered for the path.
    NotFound,
    /// The request's body could not be read into the expected shape.
    /// `cause` is the description of the underlying error, where there is one.
    BadRequestBody { cause: Option<String> },
    /// The path is known, the method is not accepted for it.
    MethodNotAllowed,
    /// Anything else; `detail` describes it for the operator.
    Unclassified { detail: String },
}

/// What a failure signal of the HTTP framework answers when asked, in turn,
/// for each reason that the service knows.
#[derive(Clone, Debug, PartialEq, Eq)]
pub struct Signal {
    /// The signal says that no route matched, and nothing else.
    pub not_found: bool,
    /// The signal holds a body that failed to deserialize: `Some`, with the
    /// description of the underlying cause where it has one.
    pub body_error: Option<Option<String>>,
    /// The signal holds a method that is not allowed.
    pub method_not_allowed: bool,
    /// The whole signal, printed for the operator.
    pub detail: String,
}

impl Signal {
    /// The reason that a signal stands for: the first that it answers to, in
    /// the order not found, unreadable body, method not allowed.
    pub open spec fn spec_classify(&self) -> Rejection {
        if self.not_found {
            Rejection::NotFound
        } else if let Some(cause) = self.body_error {
            Rejection::BadRequestBody { cause }
        } else if self.method_not_allowed {
            Rejection::MethodNotAllowed
        } else {
            Rejection::Unclassified { detail: self.detail }
        }
    }

    /// The reason that a signal stands for.
    pub fn classify(self) -> (r: Rejection)
        ensures
            r == self.spec_classify(),
    {
        if self.not_found {
            Rejection::NotFound
        } else if let Some(cause) = self.body_error {
            Rejection::BadRequestBody { cause }
        } else if self.method_not_allowed {
            Rejection::MethodNotAllowed
        } else {
            Rejection::Unclassified { detail: self.detail }
        }
    }
}

/// The description of the cause names the field `denom`.
pub open spec fn names_denom(cause: Option<String>) -> bool {
    match cause {
        Some(text) => is_substring(text@, "denom"@),
        None => false,
    }
}

impl Rejection {
    /// The status that a rejection is answered with.
    pub open spec fn spec_status(&self) -> u16 {
        match self {
            Rejection::NotFound => NOT_FOUND,
            Rejection::BadRequestBody { .. } => BAD_REQUEST,
            Rejection::MethodNotAllowed => METHOD_NOT_ALLOWED,
            Rejection::Unclassified { .. } => INTERNAL_SERVER_ERROR,
        }
    }

    /// The message that a rejection is answered with.
    pub open spec fn spec_message(&self) -> Seq<char> {
        match self {
            Rejection::NotFound => "Page not found."@,
            Rejection::BadRequestBody { cause } => if names_denom(*cause) {
                "FIELD_ERROR: denom"@
            } else {
                "BAD_REQUEST"@
            },
            Rejection::MethodNotAllowed => "METHOD_NOT_ALLOWED"@,
            Rejection::Unclassified { .. } => "UNHANDLED_REJECTION"@,
        }
    }

    /// The line that a rejection leaves on the diagnostic stream: none, but
    /// for one that the service cannot classify.
    pub open spec fn spec_diagnostic(&self) -> Option<Seq<char>> {
        match self {
            Rejection::Unclassified { detail } => Some("unhandled rejection: "@ + detail@),
            _ => None,
        }
    }
}

/// Turns a rejection into the reply that the client gets. There is a reply
/// for every rejection: its status and message are those of the rejection's
/// kind, its body is the error envelope with the status as its code, and the
/// detail of a rejection of unknown kind goes to the diagnostic stream.
pub fn handle_rejection(err: &Rejection) -> (r: Reply)
    ensures
        r.well_formed(),
        r.status == err.spec_status(),
        r.body is Error,
        r.body.spec_code() == err.spec_status(),
        r.body.spec_message() == err.spec_message(),
        r.spec_diagnostic() == err.spec_diagnostic(),
{
    let code: u16;
    let message: &str;
    let mut diagnostic: Option<String> = None;
    match err {
        Rejection::NotFound => {
            code = NOT_FOUND;
            message = "Page not found.";
        },
        Rejection::BadRequestBody { cause } => {
            message = match cause {
                Some(text) => {
                    if contains(text.as_str(), "denom") {
                        "FIELD_ERROR: denom"
                    } else {
                        "BAD_REQUEST"
                    }
                },
                None => "BAD_REQUEST",
            };
            code = BAD_REQUEST;
        },
        Rejection::MethodNotAllowed => {
            code = METHOD_NOT_ALLOWED;
            message = "METHOD_NOT_ALLOWED";
        },
        Rejection::Unclassified { detail } => {
            let line = "unhandled rejection: ".to_owned().concat(detail.as_str());
            diagnostic = Some(line);
            code = INTERNAL_SERVER_ERROR;
            message = "UNHANDLED_REJECTION";
        },
    }
    Reply {
        status: code,
        body: Body::Error(ErrorMessage { code, message: message.to_owned() }),
        diagnostic,
    }
}

} // verus!
