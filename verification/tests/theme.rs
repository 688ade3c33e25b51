use lastkey_ui::settings::SocdMode;
use lastkey_ui::theme::{
    action_icon_ink, channels as split, secondary_inks, slot_ink, slot_ink_hovering, slot_mode_ink,
    with_alpha, Color, Icon, SlotState, BLACK_10, BLUE_600, BLUE_600_25, BLUE_600_30,
    INDIGO_300, INDIGO_50_60, INDIGO_600, SLATE_200, SLATE_300, SLATE_300_60, SLATE_400,
    SLATE_400_80, SLATE_600, WHITE,
};

/// Splits a colour into its 8-bit channels, the way a screen shows it.
fn channels(color: Color) -> [u8; 3] {
    let (r, g, b, _) = split(color);
    [r, g, b]
}

/// Parses `#RRGGBB` into its 8-bit channels.
fn parse(hex: &str) -> [u8; 3] {
    let byte = |i: usize| u8::from_str_radix(&hex[1 + i * 2..3 + i * 2], 16).expect("hex digits");
    [byte(0), byte(1), byte(2)]
}

/// Asserts a colour's channels match, one 8-bit step per channel.
fn assert_close(color: Color, expected: &str, what: &str) {
    let actual = channels(color);
    let want = parse(expected);
    for i in 0..3 {
        assert!(
            actual[i].abs_diff(want[i]) <= 1,
            "{what}: got {actual:?} want {expected} ({want:?})"
        );
    }
}

fn srgba(color: Color) -> [u8; 4] {
    let (r, g, b, a) = split(color);
    [r, g, b, a]
}

#[test]
fn the_state_triples_are_the_named_tokens() {
    let rest = (WHITE, SLATE_200, SLATE_600);
    let hovered = (INDIGO_50_60, INDIGO_300, INDIGO_600);
    let disabled = (WHITE, SLATE_200, SLATE_300);
    assert_ne!(rest.2, hovered.2, "hover must actually move the ink");
    assert_ne!(rest.2, disabled.2, "disabled must actually dim the ink");
    assert_eq!(rest.0, disabled.0, "both keep the WHITE shell");
    assert_eq!(secondary_inks(true, false), rest);
    assert_eq!(secondary_inks(true, true), hovered);
    assert_eq!(secondary_inks(false, true), disabled);
    assert_eq!(secondary_inks(false, false), disabled);
}

#[test]
fn the_restore_icon_keeps_the_slate_ink_rule() {
    assert_eq!(action_icon_ink(Icon::Restore, INDIGO_600), SLATE_600);
    assert_eq!(action_icon_ink(Icon::Keyboard, INDIGO_600), INDIGO_600);
    assert_eq!(action_icon_ink(Icon::Restore, SLATE_600), SLATE_600);
    assert_eq!(action_icon_ink(Icon::Check, SLATE_600), SLATE_600);
}

#[test]
fn theme_idle_ink_is_the_reference_opacity_step() {
    assert_close(slot_ink(SlotState::Active).name, "#0F172B", "active name");
    assert_close(slot_ink(SlotState::Idle).name, "#4B5160", "idle name");
    assert_close(slot_ink(SlotState::Active).chip_edge, "#CAD5E2", "active chip edge");
    assert_eq!(
        channels(slot_ink(SlotState::Hovered).name),
        channels(slot_ink(SlotState::Active).name)
    );
}

#[test]
fn theme_tests_idle_ink_is_the_reference_opacity_step() {
    assert_close(slot_ink(SlotState::Active).name, "#0F172B", "active name");
    assert_close(slot_ink(SlotState::Idle).name, "#4B5160", "idle name");
    assert_close(slot_ink(SlotState::Active).chip_edge, "#CAD5E2", "active chip edge");
    assert_eq!(
        channels(slot_ink(SlotState::Hovered).name),
        channels(slot_ink(SlotState::Active).name)
    );
}

fn name_box_hover_check() {
    for state in [SlotState::Idle, SlotState::Hovered, SlotState::Active] {
        let resting = slot_ink(state);
        let hovered = slot_ink_hovering(state, true);

        assert_close(hovered.name, "#4F39F6", "hovered name");
        assert_close(hovered.pencil, "#4F39F6", "hovered pencil");
        assert_ne!(
            channels(hovered.name),
            channels(resting.name),
            "{state:?}: the hover has to be visible against the rest ink"
        );
        assert_eq!(
            channels(hovered.name),
            channels(hovered.pencil),
            "{state:?}: the pencil follows the name's colour on hover"
        );
        assert_eq!(channels(hovered.chip_label), channels(resting.chip_label));
        assert_eq!(channels(hovered.chip_edge), channels(resting.chip_edge));
        assert_eq!(channels(hovered.hairline), channels(resting.hairline));
    }
    assert_ne!(
        channels(slot_ink(SlotState::Active).name),
        channels(slot_ink(SlotState::Active).pencil)
    );
    for state in [SlotState::Idle, SlotState::Hovered, SlotState::Active] {
        assert_eq!(
            channels(slot_ink_hovering(state, false).name),
            channels(slot_ink(state).name),
            "{state:?}: `slot_ink` is `slot_ink_hovering` with no hover"
        );
    }
}

#[test]
fn theme_name_box_hover_moves_the_name_and_the_pencil_together() {
    name_box_hover_check();
}

#[test]
fn theme_tests_name_box_hover_moves_the_name_and_the_pencil_together() {
    name_box_hover_check();
}

#[test]
fn theme_mode_label_ink_matches_the_reference_table() {
    assert_close(slot_mode_ink(SocdMode::Immediate, SlotState::Active), "#155DFC", "Immediate label");
    assert_close(slot_mode_ink(SocdMode::PressDelay, SlotState::Active), "#432DD7", "Press Delay label");
    assert_close(slot_mode_ink(SocdMode::RandomMix, SlotState::Active), "#9810FA", "Random Mix label");
    assert_close(slot_mode_ink(SocdMode::ReleaseDelay, SlotState::Active), "#7008E7", "Release Delay label");
    assert_close(slot_mode_ink(SocdMode::PressDelay, SlotState::Idle), "#7262E1", "idle Press Delay label");
}

#[test]
fn widget_sourced_tokens_match_their_palette_bytes() {
    assert_eq!(srgba(SLATE_300), [0xca, 0xd5, 0xe2, 255]);
    assert_eq!(srgba(SLATE_300_60), [0xdf, 0xe6, 0xee, 255]);
    assert_eq!(srgba(BLUE_600_25), [0xc5, 0xd7, 0xfe, 255]);
    assert_eq!(srgba(BLUE_600_30), [0xb9, 0xce, 0xfe, 255]);
    assert_eq!(srgba(BLACK_10), [0, 0, 0, 26]);
    assert_eq!(srgba(SLATE_400_80), [0xa6, 0xb4, 0xc7, 255]);
    assert_ne!(&srgba(SLATE_400)[..3], &[0xa6, 0xb4, 0xc7]);
    assert_eq!(srgba(BLUE_600), [0x15, 0x5d, 0xfc, 255]);
}

#[test]
fn with_alpha_keeps_the_channels_and_swaps_the_alpha() {
    assert_eq!(srgba(with_alpha(INDIGO_600, 64)), [0x4f, 0x39, 0xf6, 64]);
    assert_eq!(srgba(with_alpha(WHITE, 102)), [0xff, 0xff, 0xff, 102]);
}
