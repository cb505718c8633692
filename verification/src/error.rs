//! The engine's error kinds and their messages.

use vstd::prelude::*;

verus! {

#[verifier::external_type_specification]
#[verifier::external_body]
pub struct ExStatus(tonic::Status);

#[verifier::external_type_specification]
#[verifier::external_body]
pub struct ExTransportError(tonic::transport::Error);

/// Calls `tonic::Status`'s `Display`.  Trusted for no more than returning a
/// string: what the text holds is left unsaid.
#[verifier::external_body]
fn status_text(status: &tonic::Status) -> String {
    format!("{}", status)
}

/// Calls `tonic::transport::Error`'s `Display`.  Trusted for no more than
/// returning a string: what the text holds is left unsaid.
#[verifier::external_body]
fn transport_error_text(error: &tonic::transport::Error) -> String {
    format!("{}", error)
}

pub enum EngineError {
    GrpcError(tonic::Status),
    TransportError(tonic::transport::Error),
    ConfigError(String),
    RpcError(String),
}

impl EngineError {
    /// The error's message.
    pub fn message(&self) -> (text: String)
        ensures
            match self {
                EngineError::GrpcError(_) => exists|detail: Seq<char>|
                    text@ == "gRPC status error: "@ + detail,
                EngineError::TransportError(_) => exists|detail: Seq<char>|
                    text@ == "Transport error: "@ + detail,
                EngineError::ConfigError(msg) => text@ == "Configuration error: "@ + msg@,
                EngineError::RpcError(msg) => text@ == "RPC error: "@ + msg@,
            },
    {
        match self {
            EngineError::GrpcError(e) => {
                let detail = status_text(e);
                String::from_str("gRPC status error: ").concat(detail.as_str())
            },
            EngineError::TransportError(e) => {
                let detail = transport_error_text(e);
                String::from_str("Transport error: ").concat(detail.as_str())
            },
            EngineError::ConfigError(msg) => String::from_str("Configuration error: ").concat(
                msg.as_str(),
            ),
            EngineError::RpcError(msg) => String::from_str("RPC error: ").concat(msg.as_str()),
        }
    }
}

} // verus!
