//! The Key mappings card's decisions: which binding slots share a key, and
//! where the D-pad's centre dot points.
use vstd::prelude::*;

use crate::protocol::{KeySlot, PhysicalKey};
use crate::theme;
use crate::theme::{Color, Icon};

verus! {

/// Whether slot `i` shares its key with another slot.
pub open spec fn is_shared(bindings: [PhysicalKey; 4], i: int) -> bool {
    exists|j: int| 0 <= j < 4 && j != i && #[trigger] bindings[j] == bindings[i]
}

/// Flags every binding slot that shares its key with another slot.
pub fn duplicate_slots(bindings: &[PhysicalKey; 4]) -> (r: [bool; 4])
    ensures
        forall|i: int| 0 <= i < 4 ==> r[i] == is_shared(*bindings, i),
{
    let mut flags = [false; 4];
    let mut index: usize = 0;
    while index < 4
        invariant
            index <= 4,
            forall|i: int| 0 <= i < index ==> flags[i] == is_shared(*bindings, i),
        decreases 4 - index,
    {
        let mut shared = false;
        let mut other: usize = 0;
        while other < 4
            invariant
                index < 4,
                other <= 4,
                shared == exists|j: int| 0 <= j < other && j != index && #[trigger] bindings[j] == bindings[index as int],
            decreases 4 - other,
        {
            if other != index && bindings[other] == bindings[index] {
                shared = true;
            }
            other += 1;
        }
        flags[index] = shared;
        index += 1;
    }
    flags
}

/// A shared key is flagged on every slot that shares it: a flagged slot is
/// never alone, and so exactly one flag is never raised.
pub proof fn every_sharer_is_flagged(bindings: [PhysicalKey; 4], i: int, j: int)
    requires
        0 <= i < 4,
        0 <= j < 4,
        i != j,
        bindings[i] == bindings[j],
    ensures
        is_shared(bindings, i),
        is_shared(bindings, j),
{
    assert(bindings[j] == bindings[i]);
}

/// What the timeline reports for the D-pad: whether it is showing physical
/// input rather than filtered output, each axis's winner, and which slots it
/// holds (in slot order: up, down, left, right).
#[derive(Clone, Copy, Debug)]
pub struct TimelineReading {
    pub physical: bool,
    pub horizontal_winner: Option<KeySlot>,
    pub vertical_winner: Option<KeySlot>,
    pub held: [bool; 4],
}

/// One axis from the timeline's winner: the axis's first slot points
/// negative, any other winner positive, no winner centres.
pub open spec fn winner_axis(winner: Option<KeySlot>, first: KeySlot) -> int {
    match winner {
        Some(slot) => if slot == first {
            -1
        } else {
            1
        },
        None => 0,
    }
}

/// One axis from the window's own press set: a lone key points its way, and
/// of two held keys the later press wins, the second key winning a tie or an
/// untimed pair.
pub open spec fn pressed_axis(first: bool, second: bool, first_at: Option<u64>, second_at: Option<u64>) -> int {
    if first && second {
        match (first_at, second_at) {
            (Some(l), Some(r)) => if r >= l {
                1
            } else {
                -1
            },
            _ => 1,
        }
    } else if first {
        -1
    } else if second {
        1
    } else {
        0
    }
}

/// How far the dot travels: 18 along one axis, 13 on each axis of a
/// diagonal.
pub open spec fn reach(x: int, y: int) -> int {
    if x != 0 && y != 0 {
        13
    } else {
        18
    }
}

/// The dot's axes `(x, y)`, each -1, 0 or 1: the timeline's winners while it
/// shows filtered output, else the press set, where a key the timeline holds
/// counts as pressed.
pub open spec fn dpad_axes(pressed: [bool; 4], stamps: [Option<u64>; 4], timeline: Option<TimelineReading>) -> (int, int) {
    match timeline {
        Some(t) if !t.physical => (
            winner_axis(t.horizontal_winner, KeySlot::HorizontalFirst),
            winner_axis(t.vertical_winner, KeySlot::VerticalFirst),
        ),
        _ => {
            let held = |i: int| pressed[i] || (timeline matches Some(t) && t.held[i]);
            (
                pressed_axis(held(2), held(3), stamps[2], stamps[3]),
                pressed_axis(held(0), held(1), stamps[0], stamps[1]),
            )
        },
    }
}

/// Last-input-priority resolution for the centre tile: the dot's offset
/// `(x, y)` and whether any direction wins.
pub open spec fn dpad_offset(pressed: [bool; 4], stamps: [Option<u64>; 4], timeline: Option<TimelineReading>) -> (int, int, bool) {
    let (x, y) = dpad_axes(pressed, stamps, timeline);
    (x * reach(x, y), y * reach(x, y), x != 0 || y != 0)
}

/// Of two held opposite keys the later press wins, whichever side it is on;
/// the dot rests only when no key is held, and its offset is 18 along one
/// axis or 13 on each axis of a diagonal.
pub proof fn the_later_press_wins(first_at: u64, second_at: u64, pressed: [bool; 4], stamps: [Option<u64>; 4], timeline: Option<TimelineReading>)
    ensures
        first_at < second_at ==> pressed_axis(true, true, Some(first_at), Some(second_at)) == 1,
        second_at < first_at ==> pressed_axis(true, true, Some(first_at), Some(second_at)) == -1,
        ({
            let (x, y, active) = dpad_offset(pressed, stamps, timeline);
            &&& active <==> (x != 0 || y != 0)
            &&& x == 0 || x == 18 || x == -18 || x == 13 || x == -13
            &&& y == 0 || y == 18 || y == -18 || y == 13 || y == -13
            &&& (x != 0 && y != 0) ==> (x == 13 || x == -13) && (y == 13 || y == -13)
        }),
{
}

fn winner_step(winner: Option<KeySlot>, first: KeySlot) -> (r: i8)
    ensures
        r == winner_axis(winner, first),
{
    match winner {
        Some(slot) => if slot == first {
            -1
        } else {
            1
        },
        None => 0,
    }
}

fn pressed_step(first: bool, second: bool, first_at: Option<u64>, second_at: Option<u64>) -> (r: i8)
    ensures
        r == pressed_axis(first, second, first_at, second_at),
{
    if first && second {
        match (first_at, second_at) {
            (Some(l), Some(r)) => if r >= l {
                1
            } else {
                -1
            },
            _ => 1,
        }
    } else if first {
        -1
    } else if second {
        1
    } else {
        0
    }
}

/// Last-input-priority resolution for the centre tile. The timeline
/// resolves the winner while it is showing filtered output, and the window's
/// own press set with its timestamps resolves it otherwise: the later press
/// takes a contested pair.
pub fn resolve_dpad(
    pressed_keys: &[bool; 4],
    press_timestamps: &[Option<u64>; 4],
    timeline: Option<&TimelineReading>,
) -> (r: (i8, i8, bool))
    ensures
        (r.0 as int, r.1 as int, r.2) == dpad_offset(
            *pressed_keys,
            *press_timestamps,
            match timeline {
                Some(t) => Some(*t),
                None => None,
            },
        ),
{
    let (x, y) = match timeline {
        Some(t) if !t.physical => (
            winner_step(t.horizontal_winner, KeySlot::HorizontalFirst),
            winner_step(t.vertical_winner, KeySlot::VerticalFirst),
        ),
        _ => {
            let held_by_timeline = match timeline {
                Some(t) => t.held,
                None => [false; 4],
            };
            let is_up = pressed_keys[0] || held_by_timeline[0];
            let is_down = pressed_keys[1] || held_by_timeline[1];
            let is_left = pressed_keys[2] || held_by_timeline[2];
            let is_right = pressed_keys[3] || held_by_timeline[3];
            (
                pressed_step(is_left, is_right, press_timestamps[2], press_timestamps[3]),
                pressed_step(is_up, is_down, press_timestamps[0], press_timestamps[1]),
            )
        },
    };
    let step: i8 = if x != 0 && y != 0 {
        13
    } else {
        18
    };
    (x * step, y * step, x != 0 || y != 0)
}

/// A slot's position in the binding, key and press arrays: up, down, left,
/// right.
pub open spec fn slot_index(slot: KeySlot) -> usize {
    match slot {
        KeySlot::VerticalFirst => 0,
        KeySlot::VerticalSecond => 1,
        KeySlot::HorizontalFirst => 2,
        KeySlot::HorizontalSecond => 3,
    }
}

/// A slot's position in the binding, key and press arrays.
pub fn key_slot_index(slot: KeySlot) -> (r: usize)
    ensures
        r == slot_index(slot),
        r < 4,
{
    match slot {
        KeySlot::VerticalFirst => 0,
        KeySlot::VerticalSecond => 1,
        KeySlot::HorizontalFirst => 2,
        KeySlot::HorizontalSecond => 3,
    }
}

/// The footer's assignment status: its message, mark and inks, and whether
/// the message takes the heavier weight.
#[derive(Clone, Copy, Debug)]
pub struct AssignmentStatus {
    pub message: &'static str,
    pub ink: Color,
    pub mark: Icon,
    pub mark_ink: Color,
    pub emphasized: bool,
}

/// Whether any slot is flagged.
pub open spec fn any_flagged(flags: [bool; 4]) -> bool {
    exists|i: int| 0 <= i < 4 && #[trigger] flags[i]
}

/// The footer's status: the red duplicate warning with its warning mark
/// while any slot shares its key, the synchronized emerald check otherwise.
pub fn assignment_status(duplicates: &[bool; 4]) -> (r: AssignmentStatus)
    ensures
        any_flagged(*duplicates) ==> r.message@ == "Duplicate key bindings detected."@ && r.ink
            == theme::RED_600 && r.mark == Icon::Warning && r.mark_ink == theme::RED_600
            && r.emphasized,
        !any_flagged(*duplicates) ==> r.message@ == "All keys uniquely assigned."@ && r.ink
            == theme::EMERALD_600_80 && r.mark == Icon::Check && r.mark_ink == theme::EMERALD_500
            && !r.emphasized,
{
    let duplicate = duplicates[0] || duplicates[1] || duplicates[2] || duplicates[3];
    proof {
        if any_flagged(*duplicates) {
            let i = choose|i: int| 0 <= i < 4 && #[trigger] duplicates[i];
            assert(duplicates[i]);
        }
    }
    if duplicate {
        AssignmentStatus {
            message: "Duplicate key bindings detected.",
            ink: theme::RED_600,
            mark: Icon::Warning,
            mark_ink: theme::RED_600,
            emphasized: true,
        }
    } else {
        AssignmentStatus {
            message: "All keys uniquely assigned.",
            ink: theme::EMERALD_600_80,
            mark: Icon::Check,
            mark_ink: theme::EMERALD_500,
            emphasized: false,
        }
    }
}

/// Last-input priority, stated on the dot's offset. While the timeline does
/// not resolve the winner, a held pair goes to its later press: left of a
/// later left press, right of a later right press, and the same on the
/// vertical pair (up before down); a lone held key points its own way. While
/// the timeline shows filtered output, its winners decide.
pub proof fn the_dot_follows_the_later_press(
    pressed: [bool; 4],
    stamps: [Option<u64>; 4],
    timeline: Option<TimelineReading>,
    first_at: u64,
    second_at: u64,
)
    ensures
        ({
            let (x, y, active) = dpad_offset(pressed, stamps, timeline);
            let unresolved = timeline is None;
            &&& unresolved && pressed[2] && pressed[3] && stamps[2] == Some(first_at) && stamps[3] == Some(second_at)
                && first_at > second_at ==> x < 0
            &&& unresolved && pressed[2] && pressed[3] && stamps[2] == Some(first_at) && stamps[3] == Some(second_at)
                && second_at > first_at ==> x > 0
            &&& unresolved && pressed[0] && pressed[1] && stamps[0] == Some(first_at) && stamps[1] == Some(second_at)
                && first_at > second_at ==> y < 0
            &&& unresolved && pressed[0] && pressed[1] && stamps[0] == Some(first_at) && stamps[1] == Some(second_at)
                && second_at > first_at ==> y > 0
            &&& unresolved && pressed[2] && !pressed[3] ==> x < 0
            &&& unresolved && !pressed[2] && pressed[3] ==> x > 0
            &&& unresolved && !pressed[2] && !pressed[3] ==> x == 0
            &&& unresolved && pressed[0] && !pressed[1] ==> y < 0
            &&& unresolved && !pressed[0] && pressed[1] ==> y > 0
            &&& unresolved && !pressed[0] && !pressed[1] ==> y == 0
            &&& active <==> (x != 0 || y != 0)
        }),
        match timeline {
            Some(t) => !t.physical ==> ({
            let (x, y, _) = dpad_offset(pressed, stamps, timeline);
            &&& (t.horizontal_winner == Some(KeySlot::HorizontalFirst) ==> x < 0)
            &&& (t.horizontal_winner == Some(KeySlot::HorizontalSecond) ==> x > 0)
            &&& (t.horizontal_winner is None ==> x == 0)
            &&& (t.vertical_winner == Some(KeySlot::VerticalFirst) ==> y < 0)
            &&& (t.vertical_winner == Some(KeySlot::VerticalSecond) ==> y > 0)
            &&& (t.vertical_winner is None ==> y == 0)
            }),
            None => true,
        },
{
}

} // verus!
