use lastkey_ui::language::{en, es, zh, Language};

#[test]
fn the_direction_count_caption_is_retired_from_every_language() {
    for language in [Language::English, Language::Chinese, Language::Spanish] {
        assert_eq!(
            language.text("4 directions mapped"),
            "4 directions mapped",
            "{language:?} must no longer register the retired caption"
        );
    }
}

#[test]
fn every_language_names_itself() {
    assert_eq!(Language::English.name(), "English");
    assert_eq!(Language::Chinese.name(), "中文");
    assert_eq!(Language::Spanish.name(), "Español");
    assert_eq!(Language::ALL, [Language::English, Language::Chinese, Language::Spanish]);
    assert_eq!(Language::default(), Language::English);
}

#[test]
fn a_translated_string_renders_in_the_language() {
    assert_eq!(Language::Chinese.text("Play preview"), "播放预览");
    assert_eq!(Language::Spanish.text("Play preview"), "Reproducir vista previa");
    assert_eq!(Language::English.text("Play preview"), "Play preview");
    assert_eq!(zh::text("ESC Cancel"), Some("ESC 取消"));
}

#[test]
fn english_maps_every_string_to_itself() {
    for source in ["Apply", "Revert", "Key mappings", "ESC Cancel", "Profile name"] {
        assert_eq!(en::text(source), Some(source));
    }
}

#[test]
fn a_string_a_file_omits_falls_back_to_the_source() {
    assert_eq!(es::text("PREVIEW"), None);
    assert_eq!(Language::Spanish.text("PREVIEW"), "PREVIEW");
    assert_eq!(Language::Spanish.text("A output active"), "A output active");
    assert_eq!(Language::Chinese.text("LastKey"), "LastKey");
    assert_eq!(en::text("LastKey"), None);
    assert_eq!(es::text("not a source string"), None);
}

#[test]
fn every_translated_string_is_in_the_english_inventory() {
    for source in [
        "Preview",
        "Game receives A",
        "Game receives A + D",
        "Game receives D",
        "Game receives no direction",
        "Play preview",
        "ESC Cancel",
    ] {
        assert_eq!(en::text(source), Some(source), "{source:?}");
        assert!(es::text(source).is_some(), "{source:?}");
        assert!(zh::text(source).is_some(), "{source:?}");
    }
    assert_eq!(es::text("Preview"), Some("Vista previa"));
    assert_eq!(Language::English.text("Preview"), "Preview");
}
