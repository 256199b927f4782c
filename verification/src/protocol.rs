//! Messages exchanged with the Shazam backend (the same format the terminal
//! client uses).

use vstd::prelude::*;

verus! {

/// Status message from the backend.
pub struct StatusMsg {
    pub company: Option<String>,
    pub provider: Option<String>,
    /// Accumulated cost, in cents.
    pub total_cost: Option<u64>,
    pub agents_active: Option<u32>,
    pub agents_total: Option<u32>,
    pub budget_total: Option<u64>,
    pub budget_used: Option<u64>,
    pub git_branch: Option<String>,
    pub git_status: Option<String>,
    pub memory_mb: Option<u32>,
    pub tasks_awaiting: Option<u32>,
    pub tasks_done: Option<u32>,
    pub tasks_pending: Option<u32>,
    pub tasks_running: Option<u32>,
}

/// Event message from the backend.
pub struct EventMsg {
    pub agent: Option<String>,
    pub event: String,
    pub title: Option<String>,
    pub timestamp: Option<String>,
}

/// Inbound messages from the backend, told apart by their `type` field:
/// `"status"`, `"event"`, anything else.
pub enum InboundMsg {
    Status(StatusMsg),
    Event(EventMsg),
    Unknown,
}

/// Command to send to the backend; `msg_type` is sent as `type`.
pub struct CommandMsg {
    pub msg_type: String,
    pub raw: String,
}

impl CommandMsg {
    /// A command message carrying `command` as its raw text.
    pub fn new(command: &str) -> (m: Self)
        ensures
            m.msg_type@ == "command"@,
            m.raw@ == command@,
    {
        CommandMsg { msg_type: String::from_str("command"), raw: String::from_str(command) }
    }
}

} // verus!
