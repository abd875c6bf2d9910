use vstd::prelude::*;

verus! {

#[derive(Debug, Clone, Copy, PartialEq, Eq, Structural)]
pub enum Role {
    User,
    Assistant,
}

/// What a tool call of the agent does.
#[derive(Debug, Clone, Copy, PartialEq, Eq, Structural)]
pub enum ToolCallKind {
    Read,
    Edit,
    Delete,
    Move,
    Search,
    Execute,
    Think,
    Fetch,
    Other,
}

#[derive(Debug, Clone, Copy, PartialEq, Eq, Structural)]
pub enum ToolCallStatus {
    Pending,
    InProgress,
    Completed,
    Failed,
}

#[derive(Debug, Clone, Copy, PartialEq, Eq, Structural)]
pub enum PlanEntryStatus {
    Pending,
    InProgress,
    Completed,
}

/// One step of an agent's plan.
#[derive(Debug, Clone)]
pub struct PlanEntry {
    pub content: String,
    pub status: PlanEntryStatus,
}

/// The kinds of entry in a conversation with an agent.
#[derive(Debug, Clone)]
pub enum ChatMessageVariant {
    /// Text from the user or the agent.
    Text { role: Role, content: String },
    /// The agent's reasoning.
    Thought { content: String },
    /// A tool invocation with its kind, status and, once there, its output.
    ToolCall { title: String, kind: ToolCallKind, status: ToolCallStatus, content: Option<String> },
    /// A plan with the progress of each entry.
    Plan { entries: Vec<PlanEntry> },
    /// A note from the system (a mode change, a config update).
    System { content: String },
}

/// One entry of a conversation with an agent.
#[derive(Debug, Clone)]
pub struct ChatMessage {
    pub variant: ChatMessageVariant,
}

pub open spec fn status_text(status: ToolCallStatus) -> Seq<char> {
    match status {
        ToolCallStatus::Pending => "pending"@,
        ToolCallStatus::InProgress => "running"@,
        ToolCallStatus::Completed => "completed"@,
        ToolCallStatus::Failed => "failed"@,
    }
}

/// How the status of a tool call is shown.
pub fn status_label(status: &ToolCallStatus) -> (r: &'static str)
    ensures
        r@ == status_text(*status),
{
    match status {
        ToolCallStatus::Pending => "pending",
        ToolCallStatus::InProgress => "running",
        ToolCallStatus::Completed => "completed",
        ToolCallStatus::Failed => "failed",
    }
}

impl ChatMessage {
    pub fn text(role: Role, content: &str) -> (r: ChatMessage)
        ensures
            match r.variant {
                ChatMessageVariant::Text { role: ro, content: c } => ro == role && c@ == content@,
                _ => false,
            },
    {
        ChatMessage { variant: ChatMessageVariant::Text { role, content: content.to_owned() } }
    }

    pub fn thought(content: &str) -> (r: ChatMessage)
        ensures
            match r.variant {
                ChatMessageVariant::Thought { content: c } => c@ == content@,
                _ => false,
            },
    {
        ChatMessage { variant: ChatMessageVariant::Thought { content: content.to_owned() } }
    }

    /// A tool call whose output is not there yet.
    pub fn tool_call(title: &str, kind: ToolCallKind, status: ToolCallStatus) -> (r: ChatMessage)
        ensures
            match r.variant {
                ChatMessageVariant::ToolCall { title: t, kind: k, status: s, content } => t@
                    == title@ && k == kind && s == status && content is None,
                _ => false,
            },
    {
        ChatMessage {
            variant: ChatMessageVariant::ToolCall {
                title: title.to_owned(),
                kind,
                status,
                content: None,
            },
        }
    }

    pub fn tool_call_with_content(
        title: &str,
        kind: ToolCallKind,
        status: ToolCallStatus,
        content: &str,
    ) -> (r: ChatMessage)
        ensures
            match r.variant {
                ChatMessageVariant::ToolCall { title: t, kind: k, status: s, content: c } => t@
                    == title@ && k == kind && s == status && c is Some && c->0@ == content@,
                _ => false,
            },
    {
        ChatMessage {
            variant: ChatMessageVariant::ToolCall {
                title: title.to_owned(),
                kind,
                status,
                content: Some(content.to_owned()),
            },
        }
    }

    pub fn plan(entries: Vec<PlanEntry>) -> (r: ChatMessage)
        ensures
            match r.variant {
                ChatMessageVariant::Plan { entries: e } => e == entries,
                _ => false,
            },
    {
        ChatMessage { variant: ChatMessageVariant::Plan { entries } }
    }

    pub fn system(content: &str) -> (r: ChatMessage)
        ensures
            match r.variant {
                ChatMessageVariant::System { content: c } => c@ == content@,
                _ => false,
            },
    {
        ChatMessage { variant: ChatMessageVariant::System { content: content.to_owned() } }
    }
}

} // verus!
