//! What can go wrong with a call: the request could not be built, or the
//! response was refused.

use crate::status::HttpStatus;
use crate::text::{decimal, decimal_text};
use vstd::prelude::*;

verus! {

/// The failure of a call.
#[derive(Debug)]
pub enum Error {
    /// The request could not be built or sent.
    Builder {
        /// What the library was doing.
        context: String,
        /// The error as the cause reported it.
        error: String,
    },
    /// A response arrived and was refused: its status reports a failure, or
    /// its body could not be read.
    Response {
        status: HttpStatus,
        /// What the library was doing.
        context: String,
        /// The error as the cause reported it.
        error: String,
    },
}

/// An `Error` as specifications see it.
pub enum ErrorView {
    Builder { context: Seq<char>, error: Seq<char> },
    Response { status: int, context: Seq<char>, error: Seq<char> },
}

impl View for Error {
    type V = ErrorView;

    open spec fn view(&self) -> ErrorView {
        match self {
            Error::Builder { context, error } => ErrorView::Builder {
                context: context@,
                error: error@,
            },
            Error::Response { status, context, error } => ErrorView::Response {
                status: status@,
                context: context@,
                error: error@,
            },
        }
    }
}

impl ErrorView {
    /// The message that describes the failure.
    pub open spec fn message(self) -> Seq<char> {
        match self {
            ErrorView::Builder { context, error } => "Builder error. Context: "@ + context
                + ". Error: "@ + error,
            ErrorView::Response { status, context, error } => "Response error. HTTP status: "@
                + decimal(status as nat) + ". Context: "@ + context + ". Error: "@ + error,
        }
    }
}

impl Error {
    /// A failure to build or send a request.
    pub fn builder(context: &str, error: &str) -> (r: Error)
        ensures
            r@ == (ErrorView::Builder { context: context@, error: error@ }),
    {
        Error::Builder { context: context.to_owned(), error: error.to_owned() }
    }

    /// A refused response.
    pub fn response(status: HttpStatus, context: &str, error: &str) -> (r: Error)
        ensures
            r@ == (ErrorView::Response { status: status@, context: context@, error: error@ }),
    {
        Error::Response { status, context: context.to_owned(), error: error.to_owned() }
    }

    /// The message that describes the failure.
    pub fn to_string(&self) -> (r: String)
        ensures
            r@ == self@.message(),
    {
        match self {
            Error::Builder { context, error } => {
                let mut message = String::from_str("Builder error. Context: ");
                message.append(context.as_str());
                message.append(". Error: ");
                message.append(error.as_str());
                message
            },
            Error::Response { status, context, error } => {
                let mut message = String::from_str("Response error. HTTP status: ");
                message.append(decimal_text(status.status()).as_str());
                message.append(". Context: ");
                message.append(context.as_str());
                message.append(". Error: ");
                message.append(error.as_str());
                message
            },
        }
    }
}

} // verus!
