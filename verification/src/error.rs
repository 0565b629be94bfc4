//! Failures of a request, told apart by who is to blame.

use vstd::prelude::*;
use vstd::string::StringExecFns;

use crate::dispatch::Reply;

verus! {

/// Status of an answer to a request that cannot be served as it stands.
pub const BAD_REQUEST: u16 = 400;

/// Status of an answer to a request for something that does not exist.
pub const NOT_FOUND: u16 = 404;

/// Status of an answer that reports a fault of the server itself.
pub const INTERNAL_ERROR: u16 = 500;

/// A failed request.
#[derive(Debug)]
pub enum Error {
    /// Our fault: a description of what went wrong, for the log only.
    Us(String),
    /// Their fault: the status and the message to answer with.
    Them(u16, String),
}

impl Error {
    /// What the host is told of a fault of ours: nothing of its cause.
    pub open spec fn apology() -> Seq<char> {
        "Whoops; something went wrong on my end!"@
    }

    /// What goes before the description of a fault of ours in the log.
    pub open spec fn log_prefix() -> Seq<char> {
        "Internal error: "@
    }

    /// A request whose body could not be read as a turn; `reason` says why.
    pub fn bad_request(reason: String) -> (error: Error)
        ensures
            error == Error::Them(BAD_REQUEST, reason),
    {
        Error::Them(BAD_REQUEST, reason)
    }

    /// The answer that reports this failure to the host: for a fault of
    /// theirs its status and message, for one of ours an apology.
    pub fn into_response(self) -> (reply: Reply)
        ensures
            match self {
                Error::Us(_) => reply matches Reply::Text { status, message }
                    && status == INTERNAL_ERROR && message@ == Error::apology(),
                Error::Them(code, text) => reply == (Reply::Text { status: code, message: text }),
            },
    {
        match self {
            Error::Us(_) => Reply::Text {
                status: INTERNAL_ERROR,
                message: String::from_str("Whoops; something went wrong on my end!"),
            },
            Error::Them(code, text) => Reply::Text { status: code, message: text },
        }
    }
}

/// If we did something wrong, the line to log it with; nothing is logged
/// of what the host did wrong.
pub fn log_internal_errors(e: &Error) -> (line: Option<String>)
    ensures
        match *e {
            Error::Us(cause) => line matches Some(text) && text@ == Error::log_prefix() + cause@,
            Error::Them(_, _) => line is None,
        },
{
    match e {
        Error::Us(cause) => {
            let mut text = String::from_str("Internal error: ");
            text.append(cause.as_str());
            Some(text)
        },
        Error::Them(_, _) => None,
    }
}

} // verus!
