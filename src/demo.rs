use vstd::prelude::*;

verus! {

/// How a demo agent paces its work.
#[derive(Clone, Copy, Debug, PartialEq, Eq, Structural)]
pub enum ActivityStyle {
    /// Quick moves and short pauses.
    Fast,
    /// Even, medium activity.
    Steady,
    /// Long pauses, then sudden activity.
    Bursty,
}

impl ActivityStyle {
    /// The range, in milliseconds, that a pause between updates is drawn
    /// from: at least the first bound and below the second.
    pub fn update_interval_range(&self) -> (r: (u64, u64))
        ensures
            r == match *self {
                ActivityStyle::Fast => (500u64, 900u64),
                ActivityStyle::Steady => (800u64, 1200u64),
                ActivityStyle::Bursty => (1000u64, 1500u64),
            },
    {
        match self {
            ActivityStyle::Fast => (500, 900),
            ActivityStyle::Steady => (800, 1200),
            ActivityStyle::Bursty => (1000, 1500),
        }
    }
}

/// The acts of the scripted demo, in order.
#[derive(Clone, Copy, Debug, PartialEq, Eq, Structural)]
pub enum NarrativePhase {
    /// Agents spread out over different areas.
    Exploration,
    /// Some agents settle on something.
    Discovery,
    /// Agents connect and work together.
    Collaboration,
    /// Work ends and agents move on.
    Resolution,
}

impl NarrativePhase {
    /// How long the phase lasts, in milliseconds: at least the first bound
    /// and below the second.
    pub fn duration_range(&self) -> (r: (u64, u64))
        ensures
            r == match *self {
                NarrativePhase::Exploration => (8000u64, 12000u64),
                NarrativePhase::Discovery => (6000u64, 10000u64),
                NarrativePhase::Collaboration => (10000u64, 15000u64),
                NarrativePhase::Resolution => (5000u64, 8000u64),
            },
    {
        match self {
            NarrativePhase::Exploration => (8000, 12000),
            NarrativePhase::Discovery => (6000, 10000),
            NarrativePhase::Collaboration => (10000, 15000),
            NarrativePhase::Resolution => (5000, 8000),
        }
    }

    /// The phase after this one; Resolution leads back to Exploration.
    pub fn next(&self) -> (r: Self)
        ensures
            r == match *self {
                NarrativePhase::Exploration => NarrativePhase::Discovery,
                NarrativePhase::Discovery => NarrativePhase::Collaboration,
                NarrativePhase::Collaboration => NarrativePhase::Resolution,
                NarrativePhase::Resolution => NarrativePhase::Exploration,
            },
    {
        match self {
            NarrativePhase::Exploration => NarrativePhase::Discovery,
            NarrativePhase::Discovery => NarrativePhase::Collaboration,
            NarrativePhase::Collaboration => NarrativePhase::Resolution,
            NarrativePhase::Resolution => NarrativePhase::Exploration,
        }
    }
}

} // verus!
