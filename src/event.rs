use vstd::prelude::*;

verus! {

/// What an agent is doing.
#[derive(Clone, Copy, Debug, PartialEq, Eq, Structural)]
pub enum AgentStatus {
    Active,
    Thinking,
    Waiting,
    Idle,
    Error,
}

impl Default for AgentStatus {
    fn default() -> (r: Self)
        ensures
            r == AgentStatus::Idle,
    {
        AgentStatus::Idle
    }
}

/// Two agents talking, as reported by the event source.
pub struct Connection {
    pub from: String,
    pub to: String,
    pub label: String,
    pub timestamp: u64,
}

/// A named semantic location contributed by the event source.
pub struct Landmark {
    pub id: String,
    pub label: String,
    pub keywords: Vec<String>,
    pub timestamp: u64,
}

} // verus!
