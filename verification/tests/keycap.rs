use lastkey_ui::keycap::{down, format_key_for_display, key_lines, keycap_label, left, right, up};
use lastkey_ui::theme;
use lastkey_ui::theme::KeycapMode;
use lastkey_ui::protocol::KeySlot;
use lastkey_ui::keycap::{keycap_click, keycap_mode, keycap_paint, Keycap, KeycapClick, KeycapRing, KeycapShadow, WHITE_80};

#[test]
fn directions_keep_the_reference_accents() {
    assert_eq!(up().accent, theme::BLUE_600);
    assert_eq!(left().accent, theme::INDIGO_600);
    assert_eq!(right().accent, theme::PURPLE_600);
    assert_eq!(down().accent, theme::VIOLET_600);
    // The ring is the mode accent's lighter step and must differ per
    // direction, or the rebind glow loses its identity.
    let rings = [up().ring, down().ring, left().ring, right().ring];
    for (index, ring) in rings.iter().enumerate() {
        assert!(
            !rings
                .iter()
                .enumerate()
                .any(|(other, value)| other != index && value == ring),
            "ring colour must be unique"
        );
    }
}

#[test]
fn direction_accents_are_the_mode_bases() {
    let channels = |color: theme::Color| {
        let (r, g, b, _) = theme::channels(color);
        [r, g, b]
    };
    assert_eq!(channels(up().accent), [0x15, 0x5d, 0xfc]);
    assert_eq!(channels(left().accent), [0x4f, 0x39, 0xf6]);
    assert_eq!(channels(right().accent), [0x98, 0x10, 0xfa]);
    assert_eq!(channels(down().accent), [0x7f, 0x22, 0xfe]);
}

#[test]
fn every_direction_row_is_a_complete_colour_set() {
    let rows = [up(), down(), left(), right()];
    for (index, row) in rows.iter().enumerate() {
        for (other_index, other) in rows.iter().enumerate() {
            if other_index == index {
                continue;
            }
            assert_ne!(row.accent, other.accent, "{}: accents must differ", row.label);
            assert_ne!(row.edge, other.edge, "{}: edges must differ", row.label);
            assert_ne!(row.ring, other.ring, "{}: rings must differ", row.label);
            assert_ne!(row.arrow, other.arrow, "{}: arrows must differ", row.label);
            assert_ne!(row.slot, other.slot, "{}: slots must differ", row.label);
        }
        assert_ne!(row.edge, row.accent, "{}: the edge is one step darker", row.label);
    }
}

#[test]
fn key_lines_is_the_windows_one_splitter() {
    for (name, expected) in [
        ("Arrow Up", vec!["ARROW", "UP"]),
        ("Numpad 8", vec!["NUMPAD", "8"]),
        ("Num 5", vec!["NUM", "5"]),
        ("Page Down", vec!["PAGE", "DOWN"]),
        ("Backspace", vec!["BACK", "SPACE"]),
        ("CapsLock", vec!["CAPS", "LOCK"]),
        ("Left Ctrl", vec!["LEFT", "CTRL"]),
        ("Right Shift", vec!["RIGHT", "SHIFT"]),
        ("Ctrl Shift", vec!["CTRL", "SHIFT"]),
        ("A B C", vec!["A", "B C"]),
        ("W", vec!["W"]),
        ("F13", vec!["F13"]),
        ("", vec!["-"]),
    ] {
        assert_eq!(key_lines(name), expected, "{name:?}");
    }
}

#[test]
fn format_key_for_display_splits_compound_keys() {
    let single = format_key_for_display("W");
    assert_eq!(single.lines, vec!["W"]);
    assert_eq!(single.size_tenths, 180);

    let numpad = format_key_for_display("Numpad 8");
    assert_eq!(numpad.lines, vec!["NUMPAD", "8"]);

    let arrow = format_key_for_display("Arrow Up");
    assert_eq!(arrow.lines, vec!["ARROW", "UP"]);

    let backspace = format_key_for_display("Backspace");
    assert_eq!(backspace.lines, vec!["BACK", "SPACE"]);

    let capslock = format_key_for_display("CapsLock");
    assert_eq!(capslock.lines, vec!["CAPS", "LOCK"]);
}

#[test]
fn compound_lines_autoscale_to_their_longest_line() {
    assert_eq!(format_key_for_display("Num 5").size_tenths, 120);
    assert_eq!(format_key_for_display("Page Down").size_tenths, 120);
    assert_eq!(format_key_for_display("Right Shift").size_tenths, 110);
    assert_eq!(format_key_for_display("Numpad Pagedown").size_tenths, 95);
    assert_eq!(format_key_for_display("F1").size_tenths, 180);
    assert_eq!(format_key_for_display("Tab").size_tenths, 140);
    assert_eq!(format_key_for_display("Enter").size_tenths, 110);
}

#[test]
fn an_empty_key_name_draws_a_dash() {
    let empty = format_key_for_display("");
    assert_eq!(empty.lines, vec!["-"]);
    assert_eq!(empty.size_tenths, 160);
}

#[test]
fn multi_byte_names_split_without_panicking() {
    let long = format_key_for_display("가나다라마바사");
    assert_eq!(long.lines, vec!["가나다라", "마바사"]);
    assert_eq!(long.size_tenths, 120);

    let five = format_key_for_display("가나다라마");
    assert_eq!(five.lines, vec!["가나다라마"]);
    assert_eq!(five.size_tenths, 110);

    let short = format_key_for_display("F한");
    assert_eq!(short.lines, vec!["F한"]);
    assert_eq!(short.size_tenths, 180);

    let digit = format_key_for_display("가나다라마바4");
    assert_eq!(digit.lines, vec!["가나다라마바", "4"]);
}

#[test]
fn keycap_labels_name_the_direction_and_key() {
    assert_eq!(keycap_label(&up(), KeycapMode::Normal, "W"), "UP keycap: W");
    assert_eq!(keycap_label(&down(), KeycapMode::Pressed, "S"), "DOWN keycap: S (pressed)");
    assert_eq!(keycap_label(&right(), KeycapMode::Rebinding, "D"), "RIGHT keycap: rebinding");
}

#[test]
fn key_names_are_trimmed_and_upper_cased_before_the_split() {
    assert_eq!(key_lines("  arrow left \t"), vec!["ARROW", "LEFT"]);
    assert_eq!(key_lines("\u{3000}w\u{a0}"), vec!["W"]);
    assert_eq!(key_lines("   "), vec!["-"]);
    assert_eq!(format_key_for_display(" \t ").size_tenths, 160);
}

#[test]
fn extra_white_space_between_words_collapses_on_the_second_line() {
    assert_eq!(key_lines("Media  Play   Pause"), vec!["MEDIA", "PLAY PAUSE"]);
    assert_eq!(key_lines("Shift \t Tab"), vec!["SHIFT", "TAB"]);
}

#[test]
fn long_names_split_at_the_first_digit_or_the_middle() {
    assert_eq!(key_lines("Launch1"), vec!["LAUNCH", "1"]);
    assert_eq!(key_lines("Insertx"), vec!["INSE", "RTX"]);
    assert_eq!(key_lines("8Numbers"), vec!["8NUM", "BERS"]);
    assert_eq!(key_lines("Delete"), vec!["DELETE"]);
    assert_eq!(key_lines("PageUp"), vec!["PAGE", "UP"]);
    assert_eq!(key_lines("RightAlt"), vec!["RIGHT", "ALT"]);
    assert_eq!(key_lines("Page"), vec!["PAGE"]);
}

#[test]
fn the_split_prefixes_only_fire_past_their_own_length() {
    assert_eq!(key_lines("Arrow"), vec!["ARROW"]);
    assert_eq!(key_lines("Numpad"), vec!["NUMPAD"]);
    assert_eq!(key_lines("Left"), vec!["LEFT"]);
    assert_eq!(key_lines("Num 0"), vec!["NUM", "0"]);
}

#[test]
fn the_keycap_paint_follows_its_mode() {
    let cap = |mode, duplicate| Keycap { name: "W", mode, duplicate };

    let rebinding = keycap_paint(&up(), &cap(KeycapMode::Rebinding, true), true, true);
    assert_eq!(rebinding.fill, theme::BLUE_600);
    assert_eq!(rebinding.edge, theme::WHITE_40);
    assert_eq!(rebinding.shadow, KeycapShadow::RebindGlow);
    assert_eq!(rebinding.ring, Some(KeycapRing::Rebind));
    assert_eq!(rebinding.legend_ink, WHITE_80);
    assert_eq!(rebinding.arrow_ink, theme::WHITE);

    let pressed = keycap_paint(&left(), &cap(KeycapMode::Pressed, false), false, false);
    assert_eq!((pressed.fill, pressed.edge), (theme::INDIGO_600, theme::INDIGO_600));
    assert!(pressed.inner_shadow);
    assert_eq!(pressed.ring, Some(KeycapRing::Pressed));

    let resting = keycap_paint(&right(), &cap(KeycapMode::Normal, false), false, false);
    assert_eq!((resting.fill, resting.edge, resting.ink), (theme::WHITE, theme::SLATE_200, theme::SLATE_900));
    assert_eq!(resting.arrow_ink, theme::PURPLE_600);
    assert_eq!(resting.legend_ink, theme::SLATE_400);
    assert_eq!(resting.ring, None);
    assert!(!resting.edit_badge);

    let hovered = keycap_paint(&right(), &cap(KeycapMode::Normal, false), true, false);
    assert_eq!((hovered.fill, hovered.edge), (theme::SLATE_50, theme::INDIGO_400));
    assert!(hovered.edit_badge);

    let duplicate = keycap_paint(&down(), &cap(KeycapMode::Normal, true), true, true);
    assert_eq!((duplicate.fill, duplicate.edge, duplicate.ink), (theme::VIOLET_600, theme::RED_400, theme::WHITE));

    assert_eq!(keycap_click(&up(), KeycapMode::Rebinding), KeycapClick::CancelCapture);
    assert_eq!(keycap_click(&up(), KeycapMode::Normal), KeycapClick::Capture(KeySlot::VerticalFirst));
    assert_eq!(keycap_mode(Some(KeySlot::VerticalFirst), KeySlot::VerticalFirst, true), KeycapMode::Rebinding);
    assert_eq!(keycap_mode(Some(KeySlot::VerticalSecond), KeySlot::VerticalFirst, true), KeycapMode::Pressed);
    assert_eq!(keycap_mode(None, KeySlot::VerticalFirst, false), KeycapMode::Normal);
}

#[test]
fn a_one_word_name_reads_back_from_its_lines() {
    for (name, spelled) in [
        ("Backspace", "BACKSPACE"),
        ("Numpad8", "NUMPAD8"),
        ("ArrowUp", "ARROWUP"),
        ("  PageDown ", "PAGEDOWN"),
        ("F13", "F13"),
        ("Launch1Mail", "LAUNCH1MAIL"),
        ("Semicolon", "SEMICOLON"),
    ] {
        assert_eq!(key_lines(name).concat(), spelled, "{name:?}");
    }
}

#[test]
fn every_name_reads_back_from_its_lines_but_its_spaces() {
    for (name, spelled) in [
        ("Arrow Up", "ARROWUP"),
        ("Num 5", "NUM5"),
        ("Page Down", "PAGEDOWN"),
        ("Left Ctrl", "LEFTCTRL"),
        ("A B C", "ABC"),
        ("Ctrl  Shift", "CTRLSHIFT"),
        (" Numpad 8 ", "NUMPAD8"),
    ] {
        let lines = key_lines(name);
        let joined: String = lines.concat().chars().filter(|c| !c.is_whitespace()).collect();
        assert_eq!(joined, spelled, "{name:?}");
    }
}
