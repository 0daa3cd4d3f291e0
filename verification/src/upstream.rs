//! One call to a provider: the request that is sent, and what becomes of
//! its answer.
//!
//! The library decides and the caller performs. A request is planned as an
//! `Exchange`; the caller sends it and reports either that the call failed
//! or the status of the answer; the status decides whether the body is to
//! be read as text or as bytes; what was read ends the exchange in audio
//! or in an error. Each step consumes the one before it, so an exchange
//! makes one upstream call and is never tried again.

use vstd::prelude::*;
use crate::error::{ErrorModel, GatewayError};
use crate::json::{Json, JsonValue};
use crate::provider::Provider;
use crate::status::StatusCode;
use crate::text::join;

verus! {

/// How the caller's token is presented to the provider: as a bearer token
/// or in a header of the provider's own, never both.
#[derive(Clone, Debug, PartialEq)]
pub enum Credential {
    /// `Authorization: Bearer <token>`.
    Bearer { token: String },
    /// `<name>: <value>`.
    Header { name: String, value: String },
}

/// The content of a `Credential`.
pub enum CredentialModel {
    Bearer { token: Seq<char> },
    Header { name: Seq<char>, value: Seq<char> },
}

impl View for Credential {
    type V = CredentialModel;

    open spec fn view(&self) -> CredentialModel {
        match *self {
            Credential::Bearer { token } => CredentialModel::Bearer { token: token@ },
            Credential::Header { name, value } => CredentialModel::Header {
                name: name@,
                value: value@,
            },
        }
    }
}

/// A POST to a provider: where it goes, how it is authenticated and the
/// JSON body it carries.
#[derive(Clone, Debug, PartialEq)]
pub struct UpstreamRequest {
    pub url: String,
    pub credential: Credential,
    pub body: JsonValue,
}

/// The content of an `UpstreamRequest`.
pub struct RequestModel {
    pub url: Seq<char>,
    pub credential: CredentialModel,
    pub body: Json,
}

impl View for UpstreamRequest {
    type V = RequestModel;

    open spec fn view(&self) -> RequestModel {
        RequestModel { url: self.url@, credential: self.credential@, body: self.body@ }
    }
}

/// The content of the outcome of planning a request.
pub open spec fn request_view(r: Result<UpstreamRequest, GatewayError>) -> Result<
    RequestModel,
    ErrorModel,
> {
    match r {
        Ok(request) => Ok(request@),
        Err(e) => Err(e@),
    }
}

/// Synthesized audio and its content type.
#[derive(Clone, Debug, PartialEq, Eq)]
pub struct SynthesisResult {
    pub audio: Vec<u8>,
    pub content_type: String,
}

/// The content of a `SynthesisResult`.
pub struct AudioModel {
    pub audio: Seq<u8>,
    pub content_type: Seq<char>,
}

impl View for SynthesisResult {
    type V = AudioModel;

    open spec fn view(&self) -> AudioModel {
        AudioModel { audio: self.audio@, content_type: self.content_type@ }
    }
}

/// A request that is ready to be sent to its provider.
#[derive(Clone, Debug, PartialEq)]
pub struct Exchange {
    pub provider: Provider,
    pub request: UpstreamRequest,
}

/// The content of an `Exchange`.
pub struct ExchangeModel {
    pub provider: Provider,
    pub request: RequestModel,
}

impl View for Exchange {
    type V = ExchangeModel;

    open spec fn view(&self) -> ExchangeModel {
        ExchangeModel { provider: self.provider, request: self.request@ }
    }
}

/// The content of the outcome of planning an exchange.
pub open spec fn exchange_view(r: Result<Exchange, GatewayError>) -> Result<
    ExchangeModel,
    ErrorModel,
> {
    match r {
        Ok(exchange) => Ok(exchange@),
        Err(e) => Err(e@),
    }
}

/// An answer whose status is in the 2xx class: its body is the audio.
#[derive(Clone, Debug, PartialEq)]
pub struct AcceptedReply {
    pub provider: Provider,
}

/// An answer whose status is outside the 2xx class: its body describes
/// the rejection.
#[derive(Clone, Debug, PartialEq)]
pub struct RejectedReply {
    pub status: StatusCode,
}

/// An answer, by what is to be read from it.
#[derive(Clone, Debug, PartialEq)]
pub enum Reply {
    /// The body is to be read as bytes.
    Accepted(AcceptedReply),
    /// The body is to be read as text.
    Rejected(RejectedReply),
}

impl Exchange {
    /// The call could not be made, or no answer came: the exchange ends in
    /// a transport error that carries the cause.
    pub fn transport_failed(self, cause: String) -> (e: GatewayError)
        ensures
            e@ == (ErrorModel::UpstreamTransport { cause: cause@ }),
    {
        GatewayError::UpstreamTransport { cause }
    }

    /// The provider answered with `status`. A status in the 2xx class
    /// accepts the request, every other status rejects it.
    pub fn answered(self, status: StatusCode) -> (r: Reply)
        ensures
            r == if 200 <= status@ < 300 {
                Reply::Accepted(AcceptedReply { provider: self.provider })
            } else {
                Reply::Rejected(RejectedReply { status })
            },
    {
        if status.is_success() {
            Reply::Accepted(AcceptedReply { provider: self.provider })
        } else {
            Reply::Rejected(RejectedReply { status })
        }
    }
}

impl AcceptedReply {
    /// The outcome of reading the body as bytes: the bytes are the audio,
    /// in the provider's content type; a failure to read them is a
    /// transport error.
    pub open spec fn outcome(self, body: Result<Seq<u8>, Seq<char>>) -> Result<
        AudioModel,
        ErrorModel,
    > {
        match body {
            Ok(bytes) => Ok(AudioModel { audio: bytes, content_type: self.provider.audio_type() }),
            Err(cause) => Err(ErrorModel::UpstreamTransport { cause }),
        }
    }

    /// Ends the exchange with what reading the body as bytes gave.
    pub fn audio(self, body: Result<Vec<u8>, String>) -> (r: Result<SynthesisResult, GatewayError>)
        ensures
            match r {
                Ok(result) => Ok::<AudioModel, ErrorModel>(result@),
                Err(e) => Err(e@),
            } == self.outcome(
                match body {
                    Ok(bytes) => Ok(bytes@),
                    Err(cause) => Err(cause@),
                },
            ),
            r matches Ok(result) ==> body == Ok::<Vec<u8>, String>(result.audio),
    {
        match body {
            Ok(bytes) => Ok(
                SynthesisResult { audio: bytes, content_type: self.provider.content_type() },
            ),
            Err(cause) => Err(GatewayError::UpstreamTransport { cause }),
        }
    }
}

impl RejectedReply {
    /// The rejection with the body that was read; where reading it failed,
    /// with a placeholder that names the failure.
    pub open spec fn outcome(self, body: Result<Seq<char>, Seq<char>>) -> ErrorModel {
        ErrorModel::UpstreamRejected {
            status: self.status@,
            body: match body {
                Ok(text) => text,
                Err(cause) => "Could not read error body: "@ + cause,
            },
        }
    }

    /// Ends the exchange with what reading the body as text gave.
    pub fn text(self, body: Result<String, String>) -> (e: GatewayError)
        ensures
            e@ == self.outcome(
                match body {
                    Ok(text) => Ok(text@),
                    Err(cause) => Err(cause@),
                },
            ),
    {
        let body = match body {
            Ok(text) => text,
            Err(cause) => join("Could not read error body: ", cause.as_str()),
        };
        GatewayError::UpstreamRejected { status: self.status, body }
    }
}

} // verus!
