//! The gateway's errors and the shape in which they are reported.

use vstd::prelude::*;
use vstd::string::*;
use crate::status::{status_display, StatusCode};
use crate::text::join;

verus! {

/// What can end a request.
#[derive(Clone, Debug, PartialEq, Eq)]
pub enum GatewayError {
    /// The request itself is malformed.
    Validation { message: String },
    /// The request names a provider that no adapter serves.
    UnsupportedProvider { provider: String },
    /// The provider could not be reached, or its answer could not be read.
    UpstreamTransport { cause: String },
    /// The provider answered with a status outside the 2xx class.
    UpstreamRejected { status: StatusCode, body: String },
}

/// The content of a `GatewayError`.
pub enum ErrorModel {
    Validation { message: Seq<char> },
    UnsupportedProvider { provider: Seq<char> },
    UpstreamTransport { cause: Seq<char> },
    UpstreamRejected { status: u16, body: Seq<char> },
}

impl View for GatewayError {
    type V = ErrorModel;

    open spec fn view(&self) -> ErrorModel {
        match *self {
            GatewayError::Validation { message } => ErrorModel::Validation { message: message@ },
            GatewayError::UnsupportedProvider { provider } => ErrorModel::UnsupportedProvider {
                provider: provider@,
            },
            GatewayError::UpstreamTransport { cause } => ErrorModel::UpstreamTransport {
                cause: cause@,
            },
            GatewayError::UpstreamRejected { status, body } => ErrorModel::UpstreamRejected {
                status: status@,
                body: body@,
            },
        }
    }
}

/// The message for a rejection by the provider: the status as it is
/// displayed, and the body of the provider's answer.
pub open spec fn rejection_text(status: Seq<char>, body: Seq<char>) -> Seq<char> {
    "API request failed with status: "@ + status + "\nBody: "@ + body
}

/// The message for a rejection by the provider, from the status as it is
/// displayed and the body of the provider's answer.
pub fn rejection_message(status: &str, body: &str) -> (r: String)
    ensures
        r@ == rejection_text(status@, body@),
{
    let mut text = join("API request failed with status: ", status);
    text.append("\nBody: ");
    text.append(body);
    text
}

/// What the caller is told: a message and the HTTP status of the answer.
pub struct Report {
    pub error: Seq<char>,
    pub status: u16,
}

impl ErrorModel {
    /// The message reported for the error. A rejection by the provider
    /// carries the provider's status and body in the message.
    pub open spec fn message(self) -> Seq<char> {
        match self {
            ErrorModel::Validation { message } => message,
            ErrorModel::UnsupportedProvider { provider } => "Unsupported provider: "@ + provider,
            ErrorModel::UpstreamTransport { cause } => cause,
            ErrorModel::UpstreamRejected { status, body } => rejection_text(
                status_display(status),
                body,
            ),
        }
    }

    /// The HTTP status reported for the error: 400 where the request is at
    /// fault, be it malformed or meant for an unknown provider, and 502
    /// where the call to the provider failed. The status that a provider
    /// answered with is told in the message, never used as the status of
    /// the report.
    pub open spec fn status(self) -> u16 {
        match self {
            ErrorModel::Validation { .. } => 400,
            ErrorModel::UnsupportedProvider { .. } => 400,
            ErrorModel::UpstreamTransport { .. } => 502,
            ErrorModel::UpstreamRejected { .. } => 502,
        }
    }

    /// The error as it is reported.
    pub open spec fn report(self) -> Report {
        Report { error: self.message(), status: self.status() }
    }
}

impl GatewayError {
    /// The message reported for the error.
    pub fn message(&self) -> (r: String)
        ensures
            r@ == self@.message(),
    {
        match self {
            GatewayError::Validation { message } => message.clone(),
            GatewayError::UnsupportedProvider { provider } => join(
                "Unsupported provider: ",
                provider.as_str(),
            ),
            GatewayError::UpstreamTransport { cause } => cause.clone(),
            GatewayError::UpstreamRejected { status, body } => rejection_message(
                status.display().as_str(),
                body.as_str(),
            ),
        }
    }

    /// The HTTP status reported for the error.
    pub fn status(&self) -> (r: StatusCode)
        ensures
            r@ == self@.status(),
    {
        match self {
            GatewayError::Validation { .. } => StatusCode::bad_request(),
            GatewayError::UnsupportedProvider { .. } => StatusCode::bad_request(),
            GatewayError::UpstreamTransport { .. } => StatusCode::bad_gateway(),
            GatewayError::UpstreamRejected { .. } => StatusCode::bad_gateway(),
        }
    }
}

/// An error ready to be reported: its message and the status to answer with.
#[derive(Clone, Debug, PartialEq, Eq)]
pub struct AppError {
    /// An error message.
    pub error: String,
    pub status: StatusCode,
}

impl View for AppError {
    type V = Report;

    open spec fn view(&self) -> Report {
        Report { error: self.error@, status: self.status@ }
    }
}

impl AppError {
    /// An error with the given message; without a status it is reported as
    /// 500 Internal Server Error.
    pub fn new(error: String, status: Option<StatusCode>) -> (r: AppError)
        ensures
            r.error == error,
            r.status@ == match status {
                Some(s) => s@,
                None => 500,
            },
    {
        let status = match status {
            Some(s) => s,
            None => StatusCode::internal_server_error(),
        };
        AppError { error, status }
    }
}

impl vstd::std_specs::convert::FromSpecImpl<GatewayError> for AppError {
    open spec fn obeys_from_spec() -> bool {
        false
    }

    open spec fn from_spec(e: GatewayError) -> AppError {
        arbitrary()
    }
}

impl From<GatewayError> for AppError {
    /// Renders the error: its message, and 400 or 502 by who is at fault.
    fn from(e: GatewayError) -> (r: AppError)
        ensures
            r@ == e@.report(),
    {
        let status = e.status();
        AppError::new(e.message(), Some(status))
    }
}

/// The body of an error answer.
#[derive(Clone, Debug, PartialEq, Eq)]
pub struct AppErrorResponse {
    /// An error message.
    pub error: String,
    pub status: u16,
}

impl View for AppErrorResponse {
    type V = Report;

    open spec fn view(&self) -> Report {
        Report { error: self.error@, status: self.status }
    }
}

impl AppErrorResponse {
    /// The body that reports `err`: its message, and its status as a
    /// number.
    pub fn new(err: AppError) -> (r: AppErrorResponse)
        ensures
            r@ == err@,
            r.error == err.error,
    {
        let status: u16 = err.status.as_u16();
        AppErrorResponse { error: err.error, status }
    }
}

} // verus!
