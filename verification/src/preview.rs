//! Illustrative examples only: this module never reads or predicts monitor
//! output.
//!
//! The mode preview's state: which of its three examples is shown, where the
//! four-phase A -> D -> A loop stands, and whether the loop is playing.
//! Phases 0 and 2 rest on a key -- the one the last leg delivered -- and
//! phases 1 and 3 are the legs between them, where the example's rule is the
//! whole picture.
use vstd::prelude::*;

use crate::message::PreviewAction;
use crate::settings::SocdMode;

verus! {

/// The three examples the preview illustrates, in order.
pub const EXAMPLES: [SocdMode; 3] = [SocdMode::Immediate, SocdMode::PressDelay, SocdMode::ReleaseDelay];

/// The example shown at `example`, wrapping past the third.
pub open spec fn example_mode(example: usize) -> SocdMode {
    EXAMPLES@[(example % 3) as int]
}

#[derive(Clone, Copy, Debug, PartialEq, Eq, Structural)]
pub struct Preview {
    pub example: usize,
    pub phase: usize,
    pub playing: bool,
}

/// What one transport action does to the preview.
pub open spec fn preview_after(p: Preview, action: PreviewAction) -> Preview {
    match action {
        PreviewAction::Previous => Preview { example: ((p.example + 2) % 3) as usize, phase: 0, ..p },
        PreviewAction::Next => Preview { example: ((p.example + 1) % 3) as usize, phase: 0, ..p },
        PreviewAction::Toggle => Preview { playing: !p.playing, ..p },
        PreviewAction::Tick => if p.playing {
            Preview { phase: ((p.phase + 1) % 4) as usize, ..p }
        } else {
            p
        },
    }
}

/// Whether an action's arithmetic stays inside `usize`.
pub open spec fn action_fits(p: Preview, action: PreviewAction) -> bool {
    match action {
        PreviewAction::Previous => p.example + 2 <= usize::MAX,
        PreviewAction::Next => p.example + 1 <= usize::MAX,
        PreviewAction::Toggle => true,
        PreviewAction::Tick => p.playing ==> p.phase + 1 <= usize::MAX,
    }
}

/// The pair the card draws: `(A held, D held)`.
///
/// A gap is a gap whichever way the loop is moving, and an overlap is too, so
/// only `Immediate`'s swap has a side: it shows the new key alone, which is D
/// on the way out and A on the way back.
pub open spec fn held_of(p: Preview) -> (bool, bool) {
    if p.phase == 0 {
        (true, false)
    } else if p.phase == 2 {
        (false, true)
    } else {
        match example_mode(p.example) {
            SocdMode::PressDelay => (false, false),
            SocdMode::ReleaseDelay => (true, true),
            SocdMode::Immediate | SocdMode::RandomMix => (p.phase == 3, p.phase != 3),
        }
    }
}

impl Default for Preview {
    /// The first example, resting on A, paused.
    fn default() -> (r: Self)
        ensures
            r == (Preview { example: 0, phase: 0, playing: false }),
    {
        Preview { example: 0, phase: 0, playing: false }
    }
}

/// The tick gate: the clock runs only while the loop plays, the window is
/// awake, the clock is mounted and the card is visible.
pub open spec fn clock_runs_of(p: Preview, awake: bool, mounted: bool, visible: bool) -> bool {
    p.playing && awake && mounted && visible
}

impl Preview {
    /// Applies one transport action. Previous and Next step through the
    /// three examples and restart the loop; Toggle plays or pauses; a Tick
    /// advances the loop only while it plays.
    pub fn update(&mut self, action: PreviewAction)
        requires
            action_fits(*old(self), action),
        ensures
            *final(self) == preview_after(*old(self), action),
    {
        match action {
            PreviewAction::Previous => {
                self.example = (self.example + 2) % 3;
                self.phase = 0;
            },
            PreviewAction::Next => {
                self.example = (self.example + 1) % 3;
                self.phase = 0;
            },
            PreviewAction::Toggle => self.playing = !self.playing,
            PreviewAction::Tick => {
                if self.playing {
                    self.phase = (self.phase + 1) % 4;
                }
            },
        }
    }

    /// Whether the preview's clock runs this frame: the loop is playing, the
    /// window is awake, the clock is mounted, and the card is on screen. A
    /// clock that does not run issues no tick and restarts its dwell when it
    /// runs again.
    pub fn clock_runs(&self, awake: bool, mounted: bool, visible: bool) -> (r: bool)
        ensures
            r == clock_runs_of(*self, awake, mounted, visible),
    {
        self.playing && awake && mounted && visible
    }

    /// Whether the loop is on one of its two legs: the rests and the legs
    /// alternate, so the phase's parity is the test.
    pub fn transitioning(&self) -> (r: bool)
        ensures
            r == (self.phase % 2 == 1),
    {
        self.phase % 2 == 1
    }

    /// The pair the card draws: `(A held, D held)`.
    pub fn held(&self) -> (r: (bool, bool))
        ensures
            r == held_of(*self),
    {
        let arriving_at_a = self.phase == 3;
        match self.phase {
            0 => (true, false),
            2 => (false, true),
            _ => match EXAMPLES[self.example % 3] {
                SocdMode::PressDelay => (false, false),
                SocdMode::ReleaseDelay => (true, true),
                SocdMode::Immediate | SocdMode::RandomMix => (arriving_at_a, !arriving_at_a),
            },
        }
    }
}

/// Four ticks while playing bring the loop back to the phase it started on,
/// and each tick moves it one phase on.
pub proof fn four_ticks_close_the_loop(p: Preview)
    requires
        p.playing,
        p.phase < 4,
    ensures
        preview_after(preview_after(preview_after(preview_after(p, PreviewAction::Tick), PreviewAction::Tick), PreviewAction::Tick), PreviewAction::Tick) == p,
        preview_after(p, PreviewAction::Tick).phase == (p.phase + 1) % 4,
{
}

/// A paused preview ignores ticks.
pub proof fn a_paused_preview_ignores_ticks(p: Preview)
    requires
        !p.playing,
    ensures
        preview_after(p, PreviewAction::Tick) == p,
{
}

/// Toggling twice restores the preview.
pub proof fn toggling_twice_restores(p: Preview)
    ensures
        preview_after(preview_after(p, PreviewAction::Toggle), PreviewAction::Toggle) == p,
{
}

/// Next undoes Previous and Previous undoes Next, both landing on the start
/// of the loop; three steps in one direction come back to the same example.
pub proof fn next_and_previous_are_inverse(p: Preview, a: PreviewAction, b: PreviewAction)
    requires
        p.example < 3,
        (a == PreviewAction::Previous && b == PreviewAction::Next) || (a == PreviewAction::Next && b
            == PreviewAction::Previous),
    ensures
        preview_after(preview_after(p, a), b) == (Preview { phase: 0, ..p }),
        preview_after(preview_after(preview_after(p, a), a), a) == (Preview { phase: 0, ..p }),
{
}

/// The loop leaves A and comes back to it: every example rests on A at phase
/// 0 and on D at phase 2, and the legs are the odd phases.
pub proof fn the_loop_rests_on_a_then_d(p: Preview)
    ensures
        p.phase == 0 ==> held_of(p) == (true, false),
        p.phase == 2 ==> held_of(p) == (false, true),
{
}

/// The swap's two legs are mirror images, while a delay example shows the
/// same picture on both legs.
pub proof fn the_swap_mirrors_and_the_delays_repeat(p: Preview)
    requires
        p.phase == 1,
    ensures
        example_mode(p.example) == SocdMode::Immediate ==> held_of(Preview { phase: 3, ..p }) == (
        held_of(p).1, held_of(p).0),
        example_mode(p.example) != SocdMode::Immediate ==> held_of(Preview { phase: 3, ..p })
            == held_of(p),
{
}

/// The delay range each delay example illustrates, in microseconds: the
/// product's default ranges, so the preview shows the same examples on every
/// launch whatever the draft holds. Immediate adds no delay.
pub open spec fn demo_range(mode: SocdMode) -> (u32, u32) {
    match mode {
        SocdMode::PressDelay => (2_000, 4_000),
        SocdMode::ReleaseDelay => (2_000, 6_000),
        _ => (0, 0),
    }
}

/// The caption naming the game's resolved output for a held pair: during
/// the Release Delay overlap the old direction stays held, so the pair is
/// described as an overlap rather than two outputs.
pub open spec fn caption_of(held: (bool, bool)) -> Seq<char> {
    match held {
        (true, true) => "Opposite-direction overlap"@,
        (false, false) => "Neutral gap (neither key active)"@,
        (true, false) => "A output active"@,
        (false, true) => "D output active"@,
    }
}

/// What the preview card draws for one frame, everything but the pixels.
#[derive(Clone, Copy, Debug)]
pub struct PreviewPicture {
    /// The example's mode.
    pub mode: SocdMode,
    /// The illustrated delay range, in microseconds.
    pub delay_micros: (u32, u32),
    /// `(A held, D held)`.
    pub held: (bool, bool),
    /// The caption's English source string.
    pub caption: &'static str,
    /// Whether the loop is on a leg, which is when the delay badge lights.
    pub transitioning: bool,
    /// Whether the neutral dot lights: only in the Press Delay gap, the leg
    /// whose picture is the neutral state itself.
    pub gap_highlight: bool,
}

/// The preview card's picture for the preview's current state.
pub fn picture(preview: &Preview) -> (r: PreviewPicture)
    ensures
        r.mode == example_mode(preview.example),
        r.delay_micros == demo_range(r.mode),
        r.held == held_of(*preview),
        r.caption@ == caption_of(r.held),
        r.transitioning == (preview.phase % 2 == 1),
        r.gap_highlight == (r.mode == SocdMode::PressDelay && r.transitioning),
{
    let mode = EXAMPLES[preview.example % 3];
    let delay_micros = match mode {
        SocdMode::PressDelay => (2_000, 4_000),
        SocdMode::ReleaseDelay => (2_000, 6_000),
        _ => (0, 0),
    };
    let held = preview.held();
    let caption = match held {
        (true, true) => "Opposite-direction overlap",
        (false, false) => "Neutral gap (neither key active)",
        (true, false) => "A output active",
        (false, true) => "D output active",
    };
    let transitioning = preview.transitioning();
    PreviewPicture {
        mode,
        delay_micros,
        held,
        caption,
        transitioning,
        gap_highlight: mode == SocdMode::PressDelay && transitioning,
    }
}

/// The caption always names the picture: the rests name the key the loop
/// rests on, and each example's legs name its rule.
pub proof fn the_caption_names_the_resolved_state(p: Preview)
    requires
        p.phase < 4,
    ensures
        p.phase == 0 ==> caption_of(held_of(p)) == "A output active"@,
        p.phase == 2 ==> caption_of(held_of(p)) == "D output active"@,
        p.phase % 2 == 1 && example_mode(p.example) == SocdMode::PressDelay ==> caption_of(held_of(p))
            == "Neutral gap (neither key active)"@,
        p.phase % 2 == 1 && example_mode(p.example) == SocdMode::ReleaseDelay ==> caption_of(
            held_of(p),
        ) == "Opposite-direction overlap"@,
        p.phase == 1 && example_mode(p.example) == SocdMode::Immediate ==> caption_of(held_of(p))
            == "D output active"@,
        p.phase == 3 && example_mode(p.example) == SocdMode::Immediate ==> caption_of(held_of(p))
            == "A output active"@,
{
}


/// Every tick the clock issues moves the loop one phase on: the clock runs
/// only while the loop plays, and a paused loop, a sleeping window, an
/// unmounted clock or a card off screen issue none.
pub proof fn a_running_clock_always_advances_the_loop(p: Preview, awake: bool, mounted: bool, visible: bool)
    requires
        p.phase < 4,
    ensures
        clock_runs_of(p, awake, mounted, visible) ==> preview_after(p, PreviewAction::Tick).phase == (p.phase + 1) % 4,
        !p.playing ==> !clock_runs_of(p, awake, mounted, visible),
{
}

} // verus!
