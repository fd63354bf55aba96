//! The library's error taxonomy.

use vstd::prelude::*;
use vstd::string::*;
use crate::text::{int_text, push_int};

verus! {

pub enum Error {
    /// The model identifier is blank.
    EmptyModelName,
    /// A completion was asked for with no messages.
    EmptyMessages,
    /// The chosen provider needs a credential that the configuration lacks.
    InvalidProvider,
    /// The transport failed, or the provider reported a failure in its reply.
    RequestFailed(String),
    /// The provider answered with a status other than success.
    ApiError { status: u16, body: String },
    /// The reply does not have the shape the provider's schema gives.
    ParseError(String),
    /// A tool call's arguments are malformed or miss a field.
    ToolArgumentError(String),
    /// A tool could not compute its result.
    ToolExecutionError(String),
}

pub ghost enum ErrorView {
    EmptyModelName,
    EmptyMessages,
    InvalidProvider,
    RequestFailed(Seq<char>),
    ApiError { status: u16, body: Seq<char> },
    ParseError(Seq<char>),
    ToolArgumentError(Seq<char>),
    ToolExecutionError(Seq<char>),
}

impl View for Error {
    type V = ErrorView;

    open spec fn view(&self) -> ErrorView {
        match self {
            Error::EmptyModelName => ErrorView::EmptyModelName,
            Error::EmptyMessages => ErrorView::EmptyMessages,
            Error::InvalidProvider => ErrorView::InvalidProvider,
            Error::RequestFailed(m) => ErrorView::RequestFailed(m@),
            Error::ApiError { status, body } => ErrorView::ApiError { status: *status, body: body@ },
            Error::ParseError(m) => ErrorView::ParseError(m@),
            Error::ToolArgumentError(m) => ErrorView::ToolArgumentError(m@),
            Error::ToolExecutionError(m) => ErrorView::ToolExecutionError(m@),
        }
    }
}

/// What an error says to the caller.
pub open spec fn error_text(e: ErrorView) -> Seq<char> {
    match e {
        ErrorView::EmptyModelName => "Model name cannot be empty"@,
        ErrorView::EmptyMessages => "Messages cannot be empty"@,
        ErrorView::InvalidProvider => "Invalid provider configuration"@,
        ErrorView::RequestFailed(m) => "Request failed: "@ + m,
        ErrorView::ApiError { status, body } => "API error: status "@ + int_text(status as int)
            + " - "@ + body,
        ErrorView::ParseError(m) => "Failed to parse response: "@ + m,
        ErrorView::ToolArgumentError(m) => m,
        ErrorView::ToolExecutionError(m) => m,
    }
}

pub open spec fn result_view(r: Result<String, Error>) -> Result<Seq<char>, ErrorView> {
    match r {
        Ok(s) => Ok(s@),
        Err(e) => Err(e@),
    }
}

fn prefixed(prefix: &str, m: &String) -> (r: String)
    ensures
        r@ == prefix@ + m@,
{
    let mut r = String::from_str(prefix);
    r.append(m.as_str());
    r
}

impl Error {
    /// The error as text.
    pub fn to_string(&self) -> (r: String)
        ensures
            r@ == error_text(self@),
    {
        match self {
            Error::EmptyModelName => String::from_str("Model name cannot be empty"),
            Error::EmptyMessages => String::from_str("Messages cannot be empty"),
            Error::InvalidProvider => String::from_str("Invalid provider configuration"),
            Error::RequestFailed(m) => prefixed("Request failed: ", m),
            Error::ApiError { status, body } => {
                let mut r = String::from_str("API error: status ");
                push_int(&mut r, *status as i128);
                r.append(" - ");
                r.append(body.as_str());
                r
            },
            Error::ParseError(m) => prefixed("Failed to parse response: ", m),
            Error::ToolArgumentError(m) => m.clone(),
            Error::ToolExecutionError(m) => m.clone(),
        }
    }
}

} // verus!
