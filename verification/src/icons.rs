//! The procedural icon set's names.
use vstd::prelude::*;

verus! {

/// Every procedural icon the window can draw.
#[derive(Clone, Copy, Debug, PartialEq, Eq, Structural)]
pub enum Name {
    Star,
    Languages,
    Measurement,
    Chart,
    Keyboard,
    Restore,
    Check,
    Warning,
    Timer,
    Revert,
    Play,
    Stop,
    ArrowRight,
    ArrowForward,
    Target,
    ArrowLeft,
    ArrowUp,
    ArrowDown,
    ChevronLeft,
    ChevronRight,
    Layers,
    Edit,
    Power,
    Close,
}

} // verus!
