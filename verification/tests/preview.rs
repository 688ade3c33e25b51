use lastkey_ui::message::PreviewAction;
use lastkey_ui::preview::Preview;
use lastkey_ui::preview::picture;
use lastkey_ui::settings::SocdMode;

#[test]
fn examples_show_the_resolution_then_the_new_key_without_running_the_filter() {
    let mut preview = Preview::default();
    preview.update(PreviewAction::Tick);
    assert_eq!(preview.phase, 0);
    preview.update(PreviewAction::Toggle);
    for expected in [(false, true), (false, false), (true, true)] {
        assert_eq!(preview.held(), (true, false), "resting on A");
        preview.update(PreviewAction::Tick);
        assert_eq!(preview.held(), expected);
        preview.update(PreviewAction::Tick);
        assert_eq!(preview.held(), (false, true), "resting on D");
        preview.update(PreviewAction::Next);
    }
    assert_eq!(preview.example, 0);
}

#[test]
fn the_cycle_plays_both_legs_of_the_round_trip() {
    for example in 0..3 {
        let mut preview = Preview { example, phase: 0, playing: true };
        let mut seen = Vec::new();
        let mut legs = Vec::new();
        for _ in 0..4 {
            seen.push(preview.held());
            legs.push(preview.transitioning());
            preview.update(PreviewAction::Tick);
        }
        assert_eq!(preview.phase, 0, "example {example}: four ticks wrap to phase 0");
        assert_eq!(seen[0], (true, false), "example {example} opens resting on A");
        assert_eq!(seen[2], (false, true), "example {example} rests on D before the return leg");
        assert_eq!(
            legs,
            vec![false, true, false, true],
            "example {example}: the rests and legs alternate"
        );
    }
}

#[test]
fn the_swap_shows_both_directions() {
    let mut preview = Preview { example: 0, phase: 0, playing: true };
    let mut pairs = Vec::new();
    for _ in 0..4 {
        pairs.push(preview.held());
        preview.update(PreviewAction::Tick);
    }
    assert_eq!(
        pairs,
        vec![(true, false), (false, true), (false, true), (true, false)],
        "the loop rests on A, lands on D, rests on D, and lands on A"
    );
    for example in [1, 2] {
        let mut preview = Preview { example, phase: 1, playing: true };
        let out = preview.held();
        preview.update(PreviewAction::Tick);
        preview.update(PreviewAction::Tick);
        assert_eq!(
            preview.held(),
            out,
            "example {example}: the two legs of a delay example are one picture"
        );
    }
}

#[test]
fn previous_and_next_step_through_the_examples_and_restart_the_loop() {
    let mut preview = Preview { example: 1, phase: 3, playing: true };
    preview.update(PreviewAction::Previous);
    assert_eq!((preview.example, preview.phase), (0, 0));
    preview.update(PreviewAction::Previous);
    assert_eq!(preview.example, 2);
    preview.update(PreviewAction::Next);
    assert_eq!(preview.example, 0);
    preview.update(PreviewAction::Toggle);
    assert!(!preview.playing);
    preview.update(PreviewAction::Tick);
    assert_eq!(preview.phase, 0);
}

#[test]
fn the_caption_names_every_resolved_state() {
    let caption = |example, phase| {
        picture(&Preview { example, phase, playing: false }).caption
    };
    for example in 0..3 {
        assert_eq!(caption(example, 0), "A output active");
        assert_eq!(caption(example, 2), "D output active");
    }
    assert_eq!(caption(0, 1), "D output active");
    assert_eq!(caption(0, 3), "A output active");
    assert_eq!(caption(1, 1), "Neutral gap (neither key active)");
    assert_eq!(caption(1, 3), "Neutral gap (neither key active)");
    assert_eq!(caption(2, 1), "Opposite-direction overlap");
    assert_eq!(caption(2, 3), "Opposite-direction overlap");
}

#[test]
fn the_picture_illustrates_the_default_ranges_and_lights_the_gap() {
    let swap = picture(&Preview { example: 0, phase: 1, playing: true });
    assert_eq!(swap.mode, SocdMode::Immediate);
    assert_eq!(swap.delay_micros, (0, 0));
    assert!(!swap.gap_highlight);
    let press = picture(&Preview { example: 1, phase: 1, playing: true });
    assert_eq!(press.mode, SocdMode::PressDelay);
    assert_eq!(press.delay_micros, (2_000, 4_000));
    assert!(press.gap_highlight);
    assert!(press.transitioning);
    let resting = picture(&Preview { example: 1, phase: 2, playing: true });
    assert!(!resting.gap_highlight);
    let release = picture(&Preview { example: 5, phase: 3, playing: true });
    assert_eq!(release.mode, SocdMode::ReleaseDelay);
    assert_eq!(release.delay_micros, (2_000, 6_000));
    assert_eq!(release.held, (true, true));
}

#[test]
fn the_clock_runs_only_while_playing_awake_mounted_and_visible() {
    let mut preview = Preview::default();
    assert!(!preview.clock_runs(true, true, true));
    preview.update(PreviewAction::Toggle);
    assert!(preview.clock_runs(true, true, true));
    assert!(!preview.clock_runs(false, true, true));
    assert!(!preview.clock_runs(true, false, true));
    assert!(!preview.clock_runs(true, true, false));
}
