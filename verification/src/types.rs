//! Data model of the job protocol: the two request payload shapes, the
//! shared response shape, the error taxonomy, and the transport outcome
//! that the embedding application reports for each network call.

use vstd::prelude::*;

verus! {

/// Declares `serde_json::Value` so that payloads and responses can carry
/// an arbitrary caller-supplied JSON document. The value is opaque here:
/// the protocol only threads it through unchanged.
#[verifier::external_type_specification]
#[verifier::external_body]
pub struct ExValue(serde_json::Value);

/// Request body for a job submission.
pub struct Payload {
    pub id: String,
    pub created: usize,
    pub api_key: String,
    pub model_key: String,
    pub model_inputs: serde_json::Value,
    pub start_only: bool,
}

/// Request body for a status check of a previously submitted job.
pub struct CheckPayload {
    pub id: String,
    pub created: usize,
    pub long_poll: bool,
    pub call_i_d: String,
    pub api_key: String,
}

/// Response body shared by the submission and the status-check endpoint.
#[derive(Debug, PartialEq)]
pub struct BananaResponse {
    pub id: String,
    pub message: String,
    pub created: usize,
    pub api_version: String,
    pub call_i_d: Option<String>,
    pub finished: Option<bool>,
    pub model_outputs: Option<serde_json::Value>,
}

/// The way a well-formed response can still violate the protocol.
#[derive(Debug, PartialEq, Eq, Clone, Copy)]
pub enum ProtocolViolation {
    /// A submission response carried no `finished` field.
    FinishedMissing,
    /// A handle was required, but the response carried none.
    HandleMissing,
}

/// Closed set of terminal failures; no layer retries or downgrades one.
#[derive(Debug, PartialEq, Eq)]
pub enum BananaError {
    /// The response body could not be decoded into [`BananaResponse`].
    JsonError(String),
    /// The server answered with a status code other than the success code.
    ServerError(String),
    /// The request never reached the server.
    ConnectionError(String),
    /// The response decoded, but its message signals an application error.
    ModelError(String),
    /// The response decoded, but violated the protocol's expectations.
    ResponseError(ProtocolViolation),
    /// The local clock could not produce a timestamp.
    TimeError(String),
}

/// What one network call came to, as the transport reports it: the
/// protocol decides from this alone, so every decision is verified for
/// every outcome the transport can hand back.
#[derive(Debug, PartialEq)]
pub enum TransportOutcome {
    /// The request failed before any response arrived (network, DNS, TLS).
    ConnectionFailure(String),
    /// The server answered with the given non-success status code.
    BadStatus(String),
    /// The body of a success response could not be decoded.
    DecodeFailure(String),
    /// A decoded response body.
    Response(BananaResponse),
}

} // verus!
