//! Everything the view can ask for that the library reasons about: which
//! timing value a message addresses, the preview's transport controls, and a
//! key event reduced to what the press tracker needs.
use vstd::prelude::*;

use crate::settings::{SocdMode, TimingSettings};

verus! {

/// Which timing value a message addresses. The index doubles as an index
/// into the per-field flag arrays.
#[derive(Clone, Copy, Debug, PartialEq, Eq, Structural)]
pub enum TimingField {
    TransitionMinimum,
    TransitionMaximum,
    PreservationRate,
    PreservedMinimum,
    PreservedMaximum,
}

/// A field's position in [`TimingField::ALL`].
pub open spec fn field_index(field: TimingField) -> usize {
    match field {
        TimingField::TransitionMinimum => 0,
        TimingField::TransitionMaximum => 1,
        TimingField::PreservationRate => 2,
        TimingField::PreservedMinimum => 3,
        TimingField::PreservedMaximum => 4,
    }
}

/// Whether `field`'s row is live in `mode`: each mode uses exactly the values
/// it acts on. Random Mix is the only mode that uses all three groups, and
/// Immediate uses none.
pub open spec fn field_editable(field: TimingField, mode: SocdMode) -> bool {
    match field {
        TimingField::TransitionMinimum | TimingField::TransitionMaximum => mode
            == SocdMode::PressDelay || mode == SocdMode::RandomMix,
        TimingField::PreservationRate => mode == SocdMode::RandomMix,
        TimingField::PreservedMinimum | TimingField::PreservedMaximum => mode
            == SocdMode::ReleaseDelay || mode == SocdMode::RandomMix,
    }
}

/// The duration a field names, if it names one.
pub open spec fn field_micros(field: TimingField, timing: TimingSettings) -> Option<u32> {
    match field {
        TimingField::TransitionMinimum => Some(timing.socd_transition_min_micros),
        TimingField::TransitionMaximum => Some(timing.socd_transition_max_micros),
        TimingField::PreservationRate => None,
        TimingField::PreservedMinimum => Some(timing.preserved_overlap_min_micros),
        TimingField::PreservedMaximum => Some(timing.preserved_overlap_max_micros),
    }
}

/// `timing` with the duration `field` names set to `value`; the rate field
/// names none, so it leaves `timing` as it is.
pub open spec fn with_field_micros(field: TimingField, timing: TimingSettings, value: u32) -> TimingSettings {
    match field {
        TimingField::TransitionMinimum => TimingSettings { socd_transition_min_micros: value, ..timing },
        TimingField::TransitionMaximum => TimingSettings { socd_transition_max_micros: value, ..timing },
        TimingField::PreservationRate => timing,
        TimingField::PreservedMinimum => TimingSettings { preserved_overlap_min_micros: value, ..timing },
        TimingField::PreservedMaximum => TimingSettings { preserved_overlap_max_micros: value, ..timing },
    }
}

/// Whether the min/max pair a field belongs to is inverted; the rate field
/// belongs to no pair.
pub open spec fn field_pair_invalid(field: TimingField, timing: TimingSettings) -> bool {
    match field {
        TimingField::TransitionMinimum | TimingField::TransitionMaximum => timing.socd_transition_min_micros
            > timing.socd_transition_max_micros,
        TimingField::PreservedMinimum | TimingField::PreservedMaximum => timing.preserved_overlap_min_micros
            > timing.preserved_overlap_max_micros,
        TimingField::PreservationRate => false,
    }
}

impl TimingField {
    pub const ALL: [TimingField; 5] = [
        TimingField::TransitionMinimum,
        TimingField::TransitionMaximum,
        TimingField::PreservationRate,
        TimingField::PreservedMinimum,
        TimingField::PreservedMaximum,
    ];

    /// The field's position in [`TimingField::ALL`].
    pub fn index(self) -> (r: usize)
        ensures
            r == field_index(self),
            r < 5,
    {
        match self {
            TimingField::TransitionMinimum => 0,
            TimingField::TransitionMaximum => 1,
            TimingField::PreservationRate => 2,
            TimingField::PreservedMinimum => 3,
            TimingField::PreservedMaximum => 4,
        }
    }

    /// The one definition of "this row is live". The view mounts only live
    /// groups and the update drops messages for the rest, so a message queued
    /// before a mode switch cannot edit a value the new mode hides.
    pub fn is_editable(self, timing: &TimingSettings) -> (r: bool)
        ensures
            r == field_editable(self, timing.mode),
    {
        match self {
            TimingField::TransitionMinimum | TimingField::TransitionMaximum => {
                matches!(timing.mode, SocdMode::PressDelay | SocdMode::RandomMix)
            },
            TimingField::PreservationRate => matches!(timing.mode, SocdMode::RandomMix),
            TimingField::PreservedMinimum | TimingField::PreservedMaximum => {
                matches!(timing.mode, SocdMode::ReleaseDelay | SocdMode::RandomMix)
            },
        }
    }

    /// The draft slot this field edits. `PreservationRate` is a percentage,
    /// not a duration, so it has none and keeps its own path.
    pub fn micros_mut(self, timing: &mut TimingSettings) -> (r: Option<&mut u32>)
        ensures
            r is Some <==> self != TimingField::PreservationRate,
            r matches Some(slot) ==> Some(*slot) == field_micros(self, *old(timing)) && *final(timing)
                == with_field_micros(self, *old(timing), *final(slot)),
            r is None ==> *final(timing) == *old(timing),
    {
        match self {
            TimingField::TransitionMinimum => Some(&mut timing.socd_transition_min_micros),
            TimingField::TransitionMaximum => Some(&mut timing.socd_transition_max_micros),
            TimingField::PreservationRate => None,
            TimingField::PreservedMinimum => Some(&mut timing.preserved_overlap_min_micros),
            TimingField::PreservedMaximum => Some(&mut timing.preserved_overlap_max_micros),
        }
    }

    /// The immutable sibling of `micros_mut`, so a display row can derive
    /// its value from `field` instead of restating it beside it.
    pub fn micros(self, timing: &TimingSettings) -> (r: Option<u32>)
        ensures
            r == field_micros(self, *timing),
    {
        match self {
            TimingField::TransitionMinimum => Some(timing.socd_transition_min_micros),
            TimingField::TransitionMaximum => Some(timing.socd_transition_max_micros),
            TimingField::PreservationRate => None,
            TimingField::PreservedMinimum => Some(timing.preserved_overlap_min_micros),
            TimingField::PreservedMaximum => Some(timing.preserved_overlap_max_micros),
        }
    }

    /// Whether this field's own min/max pair is inverted. The rate field has
    /// no pair; its validity is purely textual and decided by its caller.
    pub fn pair_invalid(self, timing: &TimingSettings) -> (r: bool)
        ensures
            r == field_pair_invalid(self, *timing),
    {
        match self {
            TimingField::TransitionMinimum | TimingField::TransitionMaximum => timing_pair_invalid(
                timing.socd_transition_min_micros,
                timing.socd_transition_max_micros,
            ),
            TimingField::PreservedMinimum | TimingField::PreservedMaximum => timing_pair_invalid(
                timing.preserved_overlap_min_micros,
                timing.preserved_overlap_max_micros,
            ),
            TimingField::PreservationRate => false,
        }
    }
}

/// Whether a minimum lies above its maximum.
pub fn timing_pair_invalid(min_micros: u32, max_micros: u32) -> (r: bool)
    ensures
        r == (min_micros > max_micros),
{
    min_micros > max_micros
}

/// Every field is live in Random Mix and none is in Immediate, and Random Mix
/// is the only mode in which all of them are live.
pub proof fn random_mix_uses_every_field_and_immediate_none(mode: SocdMode)
    ensures
        forall|f: TimingField| #[trigger] field_editable(f, SocdMode::RandomMix),
        forall|f: TimingField| !#[trigger] field_editable(f, SocdMode::Immediate),
        (forall|f: TimingField| #[trigger] field_editable(f, mode)) ==> mode == SocdMode::RandomMix,
{
    assert(field_editable(TimingField::PreservationRate, mode) ==> mode == SocdMode::RandomMix);
}

/// Writing a field's duration through its slot and reading it back gives the
/// value written, and leaves every other field as it was.
pub proof fn micros_read_back_what_was_written(field: TimingField, other: TimingField, timing: TimingSettings, value: u32)
    requires
        field != TimingField::PreservationRate,
        other != field,
    ensures
        field_micros(field, with_field_micros(field, timing, value)) == Some(value),
        field_micros(other, with_field_micros(field, timing, value)) == field_micros(other, timing),
        with_field_micros(field, timing, value).mode == timing.mode,
        with_field_micros(field, timing, value).overlap_preservation_rate == timing.overlap_preservation_rate,
{
}

/// Both fields of a min/max pair report the same inversion, and the pair is
/// inverted exactly when its minimum lies above its maximum.
pub proof fn a_pair_reports_one_inversion(timing: TimingSettings)
    ensures
        field_pair_invalid(TimingField::TransitionMinimum, timing) == field_pair_invalid(
            TimingField::TransitionMaximum,
            timing,
        ),
        field_pair_invalid(TimingField::PreservedMinimum, timing) == field_pair_invalid(
            TimingField::PreservedMaximum,
            timing,
        ),
        field_pair_invalid(TimingField::TransitionMinimum, timing) <==> timing.socd_transition_min_micros
            > timing.socd_transition_max_micros,
        field_pair_invalid(TimingField::PreservedMinimum, timing) <==> timing.preserved_overlap_min_micros
            > timing.preserved_overlap_max_micros,
        !field_pair_invalid(TimingField::PreservationRate, timing),
{
}

/// A field's index is its position in `TimingField::ALL`, and no two fields
/// share an index.
pub proof fn field_indices_follow_all(a: TimingField, b: TimingField)
    ensures
        TimingField::ALL@[field_index(a) as int] == a,
        field_index(a) == field_index(b) ==> a == b,
{
}

/// Which mode-preview control was used. Display-only; the preview never reads
/// or predicts monitor output.
#[derive(Clone, Copy, Debug, PartialEq, Eq, Structural)]
pub enum PreviewAction {
    Previous,
    Next,
    Toggle,
    Tick,
}

/// A key event reduced to what the press tracker needs. The view layer builds
/// it from its own key type.
#[derive(Clone, Debug, PartialEq, Eq)]
pub struct KeyPress {
    /// The typed character, when the key produced one.
    pub character: Option<String>,
    /// The physical key name, e.g. `ArrowUp`, `KeyW`, `Numpad4`.
    pub physical: Option<String>,
}

/// Where the window sends one keyboard event.
#[derive(Clone, Copy, Debug, PartialEq, Eq, Structural)]
pub enum KeyRoute {
    /// Escape went down: any running capture is cancelled.
    CancelCapture,
    /// A fresh press for the press tracker.
    Pressed,
    /// A release for the press tracker.
    Released,
}

/// The routing rule for one key event: Escape going down cancels a capture,
/// any other press that is not an auto-repeat feeds the press tracker, every
/// release does too, and a repeat is dropped.
pub open spec fn key_route_of(escape: bool, pressed: bool, repeat: bool) -> Option<KeyRoute> {
    if escape && pressed {
        Some(KeyRoute::CancelCapture)
    } else if pressed && !repeat {
        Some(KeyRoute::Pressed)
    } else if !pressed {
        Some(KeyRoute::Released)
    } else {
        None
    }
}

/// Routes one key event: whether it is the Escape key, whether it went down,
/// and whether it is an auto-repeat.
pub fn route_key(escape: bool, pressed: bool, repeat: bool) -> (r: Option<KeyRoute>)
    ensures
        r == key_route_of(escape, pressed, repeat),
{
    if escape && pressed {
        Some(KeyRoute::CancelCapture)
    } else if pressed && !repeat {
        Some(KeyRoute::Pressed)
    } else if !pressed {
        Some(KeyRoute::Released)
    } else {
        None
    }
}

/// Holding a key down reaches the press tracker once: its auto-repeats are
/// dropped, and its release always arrives, Escape's included.
pub proof fn a_held_key_is_pressed_once_and_released_once(escape: bool)
    ensures
        !escape ==> key_route_of(escape, true, false) == Some(KeyRoute::Pressed),
        !escape ==> key_route_of(escape, true, true) == None::<KeyRoute>,
        key_route_of(escape, false, false) == Some(KeyRoute::Released),
        key_route_of(escape, false, true) == Some(KeyRoute::Released),
{
}

/// Escape going down always cancels, repeat or not, and is never handed to the
/// press tracker as a press.
pub proof fn escape_cancels_and_is_never_a_press(repeat: bool)
    ensures
        key_route_of(true, true, repeat) == Some(KeyRoute::CancelCapture),
        forall|pressed: bool, r: bool| key_route_of(true, pressed, r) != Some(KeyRoute::Pressed),
{
}

/// Each mode uses exactly the values it acts on: Press Delay the transition
/// range, Release Delay the preserved-overlap range, Random Mix all three
/// groups, Immediate none; and both fields of a min/max pair are live in the
/// same modes.
pub proof fn each_mode_uses_exactly_the_values_it_acts_on(field: TimingField, mode: SocdMode)
    ensures
        field_editable(field, SocdMode::PressDelay) <==> (field == TimingField::TransitionMinimum
            || field == TimingField::TransitionMaximum),
        field_editable(field, SocdMode::ReleaseDelay) <==> (field == TimingField::PreservedMinimum
            || field == TimingField::PreservedMaximum),
        field_editable(field, SocdMode::RandomMix),
        !field_editable(field, SocdMode::Immediate),
        field_editable(TimingField::TransitionMinimum, mode) == field_editable(TimingField::TransitionMaximum, mode),
        field_editable(TimingField::PreservedMinimum, mode) == field_editable(TimingField::PreservedMaximum, mode),
{
}

/// A pair is inverted exactly when the value its minimum field reads lies
/// above the value its maximum field reads, and the rate reads no duration.
pub proof fn a_pair_is_inverted_when_its_minimum_reads_above_its_maximum(timing: TimingSettings)
    ensures
        field_pair_invalid(TimingField::TransitionMinimum, timing) <==> field_micros(
            TimingField::TransitionMinimum,
            timing,
        )->0 > field_micros(TimingField::TransitionMaximum, timing)->0,
        field_pair_invalid(TimingField::PreservedMinimum, timing) <==> field_micros(
            TimingField::PreservedMinimum,
            timing,
        )->0 > field_micros(TimingField::PreservedMaximum, timing)->0,
        field_micros(TimingField::TransitionMinimum, timing) is Some,
        field_micros(TimingField::TransitionMaximum, timing) is Some,
        field_micros(TimingField::PreservedMinimum, timing) is Some,
        field_micros(TimingField::PreservedMaximum, timing) is Some,
        field_micros(TimingField::PreservationRate, timing) is None,
{
}

} // verus!
