//! The easing curves a paint-time transition can follow.
use vstd::prelude::*;

verus! {

/// The easing curve a transition follows.
#[derive(Clone, Copy, Debug, PartialEq, Eq, Structural)]
pub enum Easing {
    /// `cubic-bezier(0.4, 0, 0.2, 1)` -- Tailwind's default, which is what
    /// `transition-all` resolves to.
    Standard,
    /// `cubic-bezier(0, 0, 0.58, 1)` -- an explicit `ease-out`.
    EaseOut,
    /// `cubic-bezier(0.25, 0.1, 0.25, 1)` -- an explicit `ease`.
    Ease,
}

impl Default for Easing {
    fn default() -> (r: Self)
        ensures
            r == Easing::Standard,
    {
        Easing::Standard
    }
}

} // verus!
