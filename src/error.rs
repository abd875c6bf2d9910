use vstd::prelude::*;

use crate::json::Json;

verus! {

#[verifier::external_type_specification]
#[verifier::external_body]
pub struct ExIoError(std::io::Error);

#[verifier::external_type_specification]
#[verifier::external_body]
pub struct ExAnyhowError(anyhow::Error);

/// What can go wrong in the protocol client.
#[derive(Debug)]
pub enum ClientError {
    /// The agent process could not be launched.
    SpawnFailed(std::io::Error),
    /// The transport to the agent has closed.
    TransportClosed,
    SendFailed(String),
    /// A response lacked what was expected of it, or a frame did not decode.
    ParseError(String),
    Timeout(u64),
    /// The request with this id was cut short by a disconnect.
    Cancelled(u64),
    /// The agent's own error object, passed through.
    AgentError { code: i64, message: String, data: Option<Json> },
    NotConnected,
    Other(anyhow::Error),
}

} // verus!
