use lastkey_ui::header::DotState;
use lastkey_ui::state::RuntimeStatus;
use lastkey_ui::theme;

fn synced() -> RuntimeStatus {
    RuntimeStatus { filter_enabled: true, measurement_active: false, capturing: false }
}

#[test]
fn the_dot_state_follows_the_reference_precedence() {
    assert_eq!(DotState::of(true, Some(synced())), DotState::Synced);

    let measuring = RuntimeStatus { measurement_active: true, ..synced() };
    assert_eq!(DotState::of(true, Some(measuring)), DotState::Measuring);
    let rebinding = RuntimeStatus { capturing: true, ..synced() };
    assert_eq!(DotState::of(true, Some(rebinding)), DotState::Rebinding);
    let both = RuntimeStatus { measurement_active: true, capturing: true, ..synced() };
    assert_eq!(DotState::of(true, Some(both)), DotState::Measuring, "measuring wins over rebinding");

    let engine_off = RuntimeStatus { filter_enabled: false, ..both };
    assert_eq!(DotState::of(true, Some(engine_off)), DotState::Idle);
    assert_eq!(DotState::of(false, Some(synced())), DotState::Idle);
    assert_eq!(DotState::of(true, None), DotState::Idle);
}

#[test]
fn each_dot_state_wears_its_inks() {
    assert_eq!(DotState::Synced.ink(), (theme::EMERALD_500, theme::EMERALD_100));
    assert_eq!(DotState::Measuring.ink(), (theme::AMBER_500, theme::AMBER_100));
    assert_eq!(DotState::Rebinding.ink(), (theme::INDIGO_500, theme::INDIGO_100));
    assert_eq!(DotState::Idle.ink(), (theme::SLATE_300, theme::SLATE_100));
    assert!(DotState::Measuring.animating());
    assert!(DotState::Rebinding.animating());
    assert!(!DotState::Synced.animating());
    assert!(!DotState::Idle.animating());
}
