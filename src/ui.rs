use vstd::prelude::*;

verus! {

/// Why the field shows no agents.
#[derive(Clone, Copy, Debug, PartialEq, Eq, Structural)]
pub enum EmptyStateType {
    /// No agent has reported yet.
    NoAgents,
    /// The filter hides every agent.
    AllFiltered,
}

impl EmptyStateType {
    /// The main line of the empty-state notice.
    pub fn message(&self) -> (r: &'static str)
        ensures
            r@ == match *self {
                EmptyStateType::NoAgents => "No agents connected"@,
                EmptyStateType::AllFiltered => "No agents match filter"@,
            },
    {
        match self {
            EmptyStateType::NoAgents => "No agents connected",
            EmptyStateType::AllFiltered => "No agents match filter",
        }
    }

    /// The hint under the main line.
    pub fn hint(&self) -> (r: &'static str)
        ensures
            r@ == match *self {
                EmptyStateType::NoAgents => "Waiting for agents to connect..."@,
                EmptyStateType::AllFiltered => "Press Esc to clear filter"@,
            },
    {
        match self {
            EmptyStateType::NoAgents => "Waiting for agents to connect...",
            EmptyStateType::AllFiltered => "Press Esc to clear filter",
        }
    }
}

/// The notice drawn when no agent is shown.
pub struct EmptyStateWidget {
    state_type: EmptyStateType,
}

impl EmptyStateWidget {
    pub fn new(state_type: EmptyStateType) -> (r: Self)
        ensures
            r.state() == state_type,
    {
        EmptyStateWidget { state_type }
    }

    pub closed spec fn state(&self) -> EmptyStateType {
        self.state_type
    }

    /// Which notice this is.
    pub fn state_type(&self) -> (r: EmptyStateType)
        ensures
            r == self.state(),
    {
        self.state_type
    }
}

/// The help panel listing the key bindings.
pub struct HelpOverlay;

} // verus!
