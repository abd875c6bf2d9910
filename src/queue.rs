use vstd::prelude::*;

use crate::agent::AgentId;

verus! {

#[verifier::external_type_specification]
#[verifier::external_body]
pub struct ExInstant(std::time::Instant);

#[derive(Debug, Clone, Copy, PartialEq, Eq, Structural)]
pub enum QueueItemStatus {
    Pending,
    InFlight,
    Success,
    Failed,
}

/// One request kept for later inspection, with its outcome.
#[derive(Debug)]
pub struct QueueItem {
    pub id: u64,
    pub agent_id: AgentId,
    pub method: String,
    pub request_json: String,
    pub response_json: Option<String>,
    pub status: QueueItemStatus,
    pub created_at: std::time::Instant,
    pub completed_at: Option<std::time::Instant>,
    pub error_message: Option<String>,
}

} // verus!
