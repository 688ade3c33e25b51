//! The settings the window edits: the SOCD mode and its timing values.
use vstd::prelude::*;

verus! {

/// How an opposite-direction overlap resolves.
#[derive(Clone, Copy, Debug, PartialEq, Eq, Structural)]
pub enum SocdMode {
    /// The new key takes over at once.
    Immediate,
    /// The new key waits out a delay after the previous one is released.
    PressDelay,
    /// The previous key is held for a delay after the new one arrives.
    ReleaseDelay,
    /// Each overlap randomly takes one of the two delays.
    RandomMix,
}

/// A mode's English name, the source string its label is localized from.
pub open spec fn mode_name_of(mode: SocdMode) -> Seq<char> {
    match mode {
        SocdMode::Immediate => "Immediate"@,
        SocdMode::PressDelay => "Press Delay"@,
        SocdMode::ReleaseDelay => "Release Delay"@,
        SocdMode::RandomMix => "Random Mix"@,
    }
}

impl SocdMode {
    /// The mode's English name, the source string its label is localized
    /// from.
    pub fn name(self) -> (r: &'static str)
        ensures
            r@ == mode_name_of(self),
    {
        match self {
            SocdMode::Immediate => "Immediate",
            SocdMode::PressDelay => "Press Delay",
            SocdMode::ReleaseDelay => "Release Delay",
            SocdMode::RandomMix => "Random Mix",
        }
    }
}

/// The timing half of a profile. Durations are microseconds; the
/// preservation rate is the percentage of overlaps Random Mix resolves with
/// the release delay.
#[derive(Clone, Copy, Debug, PartialEq, Eq, Structural)]
pub struct TimingSettings {
    pub mode: SocdMode,
    pub socd_transition_min_micros: u32,
    pub socd_transition_max_micros: u32,
    pub overlap_preservation_rate: u8,
    pub preserved_overlap_min_micros: u32,
    pub preserved_overlap_max_micros: u32,
}

} // verus!
