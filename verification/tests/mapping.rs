use lastkey_ui::mapping::{duplicate_slots, resolve_dpad, TimelineReading};
use lastkey_ui::protocol::{KeySlot, PhysicalKey};
use lastkey_ui::mapping::assignment_status;
use lastkey_ui::mapping::key_slot_index;
use lastkey_ui::theme::{self, Icon};

#[test]
fn duplicate_slots_flag_every_sharer() {
    let distinct = [
        PhysicalKey::new(0x11, false),
        PhysicalKey::new(0x1F, false),
        PhysicalKey::new(0x1E, false),
        PhysicalKey::new(0x20, false),
    ];
    assert_eq!(duplicate_slots(&distinct), [false; 4]);

    let pair = [
        PhysicalKey::new(0x11, false),
        PhysicalKey::new(0x11, false),
        PhysicalKey::new(0x1E, false),
        PhysicalKey::new(0x20, false),
    ];
    assert_eq!(duplicate_slots(&pair), [true, true, false, false]);

    let triple = [
        PhysicalKey::new(0x11, false),
        PhysicalKey::new(0x1E, false),
        PhysicalKey::new(0x11, false),
        PhysicalKey::new(0x11, false),
    ];
    assert_eq!(duplicate_slots(&triple), [true, false, true, true]);
}

#[test]
fn the_extended_flag_distinguishes_two_keys() {
    let keys = [
        PhysicalKey::new(0x48, true),
        PhysicalKey::new(0x48, false),
        PhysicalKey::new(0x1E, false),
        PhysicalKey::new(0x20, false),
    ];
    assert_eq!(duplicate_slots(&keys), [false; 4]);
}

#[test]
fn resolve_dpad_handles_opposing_presses_and_diagonals() {
    let timestamps = [None; 4];
    let (x, y, active) = resolve_dpad(&[false; 4], &timestamps, None);
    assert_eq!((x, y, active), (0, 0, false));

    let (x, y, active) = resolve_dpad(&[true, false, false, false], &timestamps, None);
    assert_eq!((x, y, active), (0, -18, true));

    let (x, y, active) = resolve_dpad(&[true, false, false, true], &timestamps, None);
    assert_eq!((x, y, active), (13, -13, true));

    // Opposing horizontal keys: Left pressed first, Right pressed second, so
    // the later press wins.
    let now = 1_000_000u64;
    let timestamps = [None, None, Some(now), Some(now + 10_000_000)];
    let (x, _, active) = resolve_dpad(&[false, false, true, true], &timestamps, None);
    assert_eq!(x, 18);
    assert!(active);
}

#[test]
fn the_earlier_press_loses_and_filtered_output_follows_the_timeline() {
    let timestamps = [Some(50), Some(20), None, None];
    let (_, y, _) = resolve_dpad(&[true, true, false, false], &timestamps, None);
    assert_eq!(y, -18, "up was pressed later, so up wins");

    let filtered = TimelineReading {
        physical: false,
        horizontal_winner: Some(KeySlot::HorizontalFirst),
        vertical_winner: Some(KeySlot::VerticalSecond),
        held: [false; 4],
    };
    assert_eq!(resolve_dpad(&[false; 4], &[None; 4], Some(&filtered)), (-13, 13, true));

    let physical = TimelineReading {
        physical: true,
        horizontal_winner: None,
        vertical_winner: None,
        held: [false, false, false, true],
    };
    assert_eq!(resolve_dpad(&[false; 4], &[None; 4], Some(&physical)), (18, 0, true));
}

#[test]
fn the_footer_status_follows_the_duplicate_flags() {
    let unique = assignment_status(&[false; 4]);
    assert_eq!(unique.message, "All keys uniquely assigned.");
    assert_eq!(unique.mark, Icon::Check);
    assert_eq!(unique.ink, theme::EMERALD_600_80);
    assert!(!unique.emphasized);
    let shared = assignment_status(&[false, true, false, true]);
    assert_eq!(shared.message, "Duplicate key bindings detected.");
    assert_eq!(shared.mark, Icon::Warning);
    assert_eq!(shared.mark_ink, theme::RED_600);
    assert!(shared.emphasized);
}

#[test]
fn slots_index_the_arrays_in_direction_order() {
    assert_eq!(key_slot_index(KeySlot::VerticalFirst), 0);
    assert_eq!(key_slot_index(KeySlot::VerticalSecond), 1);
    assert_eq!(key_slot_index(KeySlot::HorizontalFirst), 2);
    assert_eq!(key_slot_index(KeySlot::HorizontalSecond), 3);
}
