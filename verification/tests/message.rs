use lastkey_ui::message::{route_key, timing_pair_invalid, KeyRoute, TimingField};
use lastkey_ui::settings::{SocdMode, TimingSettings};

fn timing(mode: SocdMode) -> TimingSettings {
    TimingSettings {
        mode,
        socd_transition_min_micros: 2_000,
        socd_transition_max_micros: 4_000,
        overlap_preservation_rate: 50,
        preserved_overlap_min_micros: 2_000,
        preserved_overlap_max_micros: 6_000,
    }
}

#[test]
fn timing_field_indices_match_all_order() {
    for (index, field) in TimingField::ALL.iter().enumerate() {
        assert_eq!(field.index(), index);
    }
}

#[test]
fn timing_pair_flags_minimum_above_maximum() {
    assert!(timing_pair_invalid(4_000, 2_000));
    assert!(!timing_pair_invalid(2_000, 2_000));
    assert!(!timing_pair_invalid(2_000, 4_000));
}

#[test]
fn each_mode_edits_exactly_the_values_it_acts_on() {
    for field in TimingField::ALL {
        assert!(field.is_editable(&timing(SocdMode::RandomMix)));
        assert!(!field.is_editable(&timing(SocdMode::Immediate)));
    }
    let press = timing(SocdMode::PressDelay);
    assert!(TimingField::TransitionMinimum.is_editable(&press));
    assert!(TimingField::TransitionMaximum.is_editable(&press));
    assert!(!TimingField::PreservationRate.is_editable(&press));
    assert!(!TimingField::PreservedMinimum.is_editable(&press));
    let release = timing(SocdMode::ReleaseDelay);
    assert!(!TimingField::TransitionMinimum.is_editable(&release));
    assert!(TimingField::PreservedMaximum.is_editable(&release));
    assert!(!TimingField::PreservationRate.is_editable(&release));
}

#[test]
fn a_field_reads_and_writes_its_own_slot() {
    let mut draft = timing(SocdMode::RandomMix);
    assert_eq!(TimingField::TransitionMaximum.micros(&draft), Some(4_000));
    assert_eq!(TimingField::PreservedMaximum.micros(&draft), Some(6_000));
    assert_eq!(TimingField::PreservationRate.micros(&draft), None);
    *TimingField::PreservedMinimum.micros_mut(&mut draft).unwrap() = 7_000;
    assert_eq!(draft.preserved_overlap_min_micros, 7_000);
    assert_eq!(draft.socd_transition_min_micros, 2_000);
    assert!(TimingField::PreservationRate.micros_mut(&mut draft).is_none());
    assert!(TimingField::PreservedMaximum.pair_invalid(&draft));
    assert!(TimingField::PreservedMinimum.pair_invalid(&draft));
    assert!(!TimingField::TransitionMinimum.pair_invalid(&draft));
    assert!(!TimingField::PreservationRate.pair_invalid(&draft));
}

#[test]
fn escape_going_down_cancels_the_capture() {
    assert_eq!(route_key(true, true, false), Some(KeyRoute::CancelCapture));
    assert_eq!(route_key(true, true, true), Some(KeyRoute::CancelCapture));
}

#[test]
fn fresh_presses_and_every_release_reach_the_tracker() {
    assert_eq!(route_key(false, true, false), Some(KeyRoute::Pressed));
    assert_eq!(route_key(false, false, false), Some(KeyRoute::Released));
    assert_eq!(route_key(false, false, true), Some(KeyRoute::Released));
    assert_eq!(route_key(true, false, false), Some(KeyRoute::Released));
}

#[test]
fn an_auto_repeat_is_dropped() {
    assert_eq!(route_key(false, true, true), None);
}
