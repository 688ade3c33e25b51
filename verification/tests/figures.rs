use lastkey_ui::figures::grouped;
use lastkey_ui::profiles::theme_slot_state;
use lastkey_ui::state::SlotState;
use lastkey_ui::theme;

#[test]
fn counts_group_their_thousands() {
    assert_eq!(grouped(1072), "1,072");
    assert_eq!(grouped(1240), "1,240");
    assert_eq!(grouped(1040), "1,040");
    assert_eq!(grouped(0), "0");
    assert_eq!(grouped(999), "999");
    assert_eq!(grouped(1000), "1,000");
    assert_eq!(grouped(123456), "123,456");
    assert_eq!(grouped(1234567), "1,234,567");
    assert_eq!(grouped(u32::MAX), "4,294,967,295");
}

#[test]
fn the_slot_state_bridge_keeps_each_state() {
    assert_eq!(theme_slot_state(SlotState::Idle), theme::SlotState::Idle);
    assert_eq!(theme_slot_state(SlotState::Hovered), theme::SlotState::Hovered);
    assert_eq!(theme_slot_state(SlotState::Active), theme::SlotState::Active);
}

#[test]
fn groups_are_threes_from_the_right_behind_a_short_lead() {
    for value in [0u32, 7, 42, 999, 1000, 12_345, 999_999, 1_000_000, 10_000_000, u32::MAX] {
        let text = grouped(value);
        let groups: Vec<&str> = text.split(',').collect();
        assert!((1..=3).contains(&groups[0].len()), "{text}");
        assert!(groups[1..].iter().all(|group| group.len() == 3), "{text}");
        assert_eq!(text.contains(','), value >= 1000, "{text}");
        assert_eq!(text.replace(',', ""), value.to_string());
    }
}
