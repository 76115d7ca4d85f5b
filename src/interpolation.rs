use vstd::prelude::*;

verus! {

/// The easing curves that animations can follow.
#[derive(Clone, Copy, Debug, PartialEq, Eq, Structural)]
pub enum EasingFunction {
    Linear,
    EaseOutCubic,
    EaseInOutCubic,
    EaseOutElastic,
}

impl Default for EasingFunction {
    fn default() -> (r: Self)
        ensures
            r == EasingFunction::EaseOutCubic,
    {
        EasingFunction::EaseOutCubic
    }
}

} // verus!
