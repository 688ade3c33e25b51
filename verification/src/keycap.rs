//! The D-pad keycap's data: the direction table, the accessible label, and
//! the one splitter every surface that draws a key name reads its lines from.
//!
//! Lengths are counted in characters, never bytes: a key name may carry
//! non-ASCII text, and every split below lands on a character.
use vstd::prelude::*;

use crate::protocol::KeySlot;
use crate::text::{
    is_white_space, lemma_join_nonempty, lemma_trim_ends, lemma_trim_nonempty, lemma_trim_solid,
    lemma_upper_keeps_space, lemma_solid_concat, lemma_solid_join, lemma_solid_keeps, lemma_solid_trim,
    lemma_solid_words, no_space, solid,
    lemma_words_nonempty, 
    ascii_upper, chars_of, has_prefix, holds, is_ascii_digit, join_space, join_words, same_chars,
    split_words, starts_with, string_views, strings_of, to_ascii_upper, trim, trimmed, views, words,
};
use crate::theme;
use crate::theme::{Color, KeycapMode};

verus! {

/// One direction's display identity: its capture slot, sub-legend, arrow,
/// fill accent, edge, and outer ring colour.
///
/// The window's one direction table. The fill mapping is fixed (UP =
/// Immediate, LEFT = Press Delay, RIGHT = Random Mix, DOWN = Release Delay).
pub struct Direction {
    pub slot: KeySlot,
    /// The direction's own name, the D-pad cap's sub-legend row.
    pub label: &'static str,
    pub arrow: Arrow,
    /// The direction's mode base (`-600`): the accent fill for the pressed
    /// and rebinding states, and the resting arrow's ink.
    pub accent: Color,
    /// The held fill's one-step-darker edge (`-700`).
    pub edge: Color,
    /// The held and rebinding states' outer glow and ring (`-300`).
    pub ring: Color,
}

/// Which way a direction's legend arrow points.
#[derive(Clone, Copy, Debug, PartialEq, Eq, Structural)]
pub enum Arrow {
    Up,
    Down,
    Left,
    Right,
}

/// The UP cap: Immediate's blue.
pub fn up() -> (r: Direction)
    ensures
        r.slot == KeySlot::VerticalFirst,
        r.label@ == "UP"@,
        r.arrow == Arrow::Up,
        r.accent == theme::BLUE_600,
        r.edge == theme::BLUE_700,
        r.ring == theme::BLUE_300,
{
    Direction {
        slot: KeySlot::VerticalFirst,
        label: "UP",
        arrow: Arrow::Up,
        accent: theme::BLUE_600,
        edge: theme::BLUE_700,
        ring: theme::BLUE_300,
    }
}

/// The DOWN cap: Release Delay's violet.
pub fn down() -> (r: Direction)
    ensures
        r.slot == KeySlot::VerticalSecond,
        r.label@ == "DOWN"@,
        r.arrow == Arrow::Down,
        r.accent == theme::VIOLET_600,
        r.edge == theme::VIOLET_700,
        r.ring == theme::VIOLET_300,
{
    Direction {
        slot: KeySlot::VerticalSecond,
        label: "DOWN",
        arrow: Arrow::Down,
        accent: theme::VIOLET_600,
        edge: theme::VIOLET_700,
        ring: theme::VIOLET_300,
    }
}

/// The LEFT cap: Press Delay's indigo. The preview's A key reads it too.
pub fn left() -> (r: Direction)
    ensures
        r.slot == KeySlot::HorizontalFirst,
        r.label@ == "LEFT"@,
        r.arrow == Arrow::Left,
        r.accent == theme::INDIGO_600,
        r.edge == theme::INDIGO_700,
        r.ring == theme::INDIGO_300,
{
    Direction {
        slot: KeySlot::HorizontalFirst,
        label: "LEFT",
        arrow: Arrow::Left,
        accent: theme::INDIGO_600,
        edge: theme::INDIGO_700,
        ring: theme::INDIGO_300,
    }
}

/// The RIGHT cap: Random Mix's purple. The preview's D key reads it too.
pub fn right() -> (r: Direction)
    ensures
        r.slot == KeySlot::HorizontalSecond,
        r.label@ == "RIGHT"@,
        r.arrow == Arrow::Right,
        r.accent == theme::PURPLE_600,
        r.edge == theme::PURPLE_700,
        r.ring == theme::PURPLE_300,
{
    Direction {
        slot: KeySlot::HorizontalSecond,
        label: "RIGHT",
        arrow: Arrow::Right,
        accent: theme::PURPLE_600,
        edge: theme::PURPLE_700,
        ring: theme::PURPLE_300,
    }
}

/// Everything one keycap needs to draw itself this frame.
#[derive(Clone, Copy, Debug)]
pub struct Keycap<'a> {
    /// The bound key's display name from the snapshot.
    pub name: &'a str,
    pub mode: KeycapMode,
    /// Whether another slot shares this key.
    pub duplicate: bool,
}

/// The accessible label of a keycap: the direction keeps the four labels
/// unique, and the rebinding state replaces the key name.
pub open spec fn keycap_label_of(label: Seq<char>, mode: KeycapMode, name: Seq<char>) -> Seq<char> {
    match mode {
        KeycapMode::Rebinding => label + " keycap: rebinding"@,
        KeycapMode::Pressed => label + " keycap: "@ + name + " (pressed)"@,
        KeycapMode::Normal => label + " keycap: "@ + name,
    }
}

/// The AccessKit label for a keycap, so a semantic test can observe the
/// capture transition through labels alone.
pub fn keycap_label(direction: &Direction, mode: KeycapMode, name: &str) -> (r: String)
    ensures
        r@ == keycap_label_of(direction.label@, mode, name@),
{
    let mut out = String::from_str(direction.label);
    match mode {
        KeycapMode::Rebinding => {
            out.append(" keycap: rebinding");
        },
        KeycapMode::Pressed => {
            out.append(" keycap: ");
            out.append(name);
            out.append(" (pressed)");
        },
        KeycapMode::Normal => {
            out.append(" keycap: ");
            out.append(name);
        },
    }
    out
}

pub open spec fn word_arrow() -> Seq<char> {
    seq!['A', 'R', 'R', 'O', 'W']
}

pub open spec fn word_numpad() -> Seq<char> {
    seq!['N', 'U', 'M', 'P', 'A', 'D']
}

pub open spec fn word_num() -> Seq<char> {
    seq!['N', 'U', 'M']
}

/// `NUM` followed by a space: the prefix the short numpad names carry.
pub open spec fn word_num_space() -> Seq<char> {
    seq!['N', 'U', 'M', ' ']
}

pub open spec fn word_page() -> Seq<char> {
    seq!['P', 'A', 'G', 'E']
}

pub open spec fn word_backspace() -> Seq<char> {
    seq!['B', 'A', 'C', 'K', 'S', 'P', 'A', 'C', 'E']
}

pub open spec fn word_capslock() -> Seq<char> {
    seq!['C', 'A', 'P', 'S', 'L', 'O', 'C', 'K']
}

pub open spec fn word_left() -> Seq<char> {
    seq!['L', 'E', 'F', 'T']
}

pub open spec fn word_right() -> Seq<char> {
    seq!['R', 'I', 'G', 'H', 'T']
}

/// `head` on the first line, the trimmed rest of `u` after it on the second.
pub open spec fn head_and_rest(u: Seq<char>, head: Seq<char>, cut: int) -> Seq<Seq<char>> {
    seq![head, trim(u.skip(cut))]
}

/// Whether `p` is the first ASCII digit of `u`.
pub open spec fn is_first_digit(u: Seq<char>, p: int) -> bool {
    &&& 0 <= p < u.len()
    &&& is_ascii_digit(u[p])
    &&& forall|j: int| 0 <= j < p ==> !is_ascii_digit(#[trigger] u[j])
}

/// The index of the first ASCII digit of `u`, where it holds one.
pub open spec fn first_digit(u: Seq<char>) -> int {
    choose|p: int| is_first_digit(u, p)
}

/// The two halves of `u` split at the halfway character, rounding up.
pub open spec fn halves(u: Seq<char>) -> Seq<Seq<char>> {
    let h = (u.len() + 1) as int / 2;
    seq![u.take(h), u.skip(h)]
}

/// The display lines of a key name: at most two, with compound names
/// (`Numpad 8`, `Arrow Up`, `Backspace`) split into a head and a tail.
pub open spec fn key_lines_of(key: Seq<char>) -> Seq<Seq<char>> {
    let u = ascii_upper(trim(key));
    let n = u.len();
    if n == 0 {
        seq![seq!['-']]
    } else if starts_with(u, word_arrow()) && n > 5 {
        head_and_rest(u, word_arrow(), 5)
    } else if starts_with(u, word_numpad()) && n > 6 {
        head_and_rest(u, word_numpad(), 6)
    } else if starts_with(u, word_num_space()) && n > 4 {
        head_and_rest(u, word_num(), 4)
    } else if starts_with(u, word_page()) && n > 4 {
        head_and_rest(u, word_page(), 4)
    } else if u == word_backspace() {
        seq![seq!['B', 'A', 'C', 'K'], seq!['S', 'P', 'A', 'C', 'E']]
    } else if u == word_capslock() {
        seq![seq!['C', 'A', 'P', 'S'], seq!['L', 'O', 'C', 'K']]
    } else if starts_with(u, word_left()) && n > 4 {
        head_and_rest(u, word_left(), 4)
    } else if starts_with(u, word_right()) && n > 5 {
        head_and_rest(u, word_right(), 5)
    } else if u.contains(' ') {
        let parts = words(u);
        if parts.len() == 2 {
            seq![parts[0], parts[1]]
        } else if parts.len() > 2 {
            seq![parts[0], join_space(parts.skip(1))]
        } else {
            seq![u]
        }
    } else if n >= 7 {
        if (exists|p: int| is_first_digit(u, p)) && first_digit(u) > 0 {
            let p = first_digit(u);
            seq![u.take(p), u.skip(p)]
        } else {
            halves(u)
        }
    } else {
        seq![u]
    }
}

/// The character index of the halfway boundary, rounding up, so
/// `text[..split]` and `text[split..]` are the two halves of `text`.
fn char_boundary_at_half(text: &Vec<char>) -> (r: usize)
    ensures
        r == (text@.len() + 1) / 2,
{
    text.len() / 2 + text.len() % 2
}

/// The first ASCII digit of `u`, where it holds one.
fn find_digit(u: &Vec<char>) -> (r: Option<usize>)
    ensures
        r matches Some(p) ==> is_first_digit(u@, p as int) && first_digit(u@) == p,
        r is None ==> !exists|p: int| is_first_digit(u@, p),
{
    let mut i: usize = 0;
    while i < u.len()
        invariant
            i <= u.len(),
            forall|j: int| 0 <= j < i ==> !is_ascii_digit(#[trigger] u@[j]),
        decreases u.len() - i,
    {
        if '0' <= u[i] && u[i] <= '9' {
            proof {
                assert(is_first_digit(u@, i as int));
                let c = first_digit(u@);
                assert(is_first_digit(u@, c));
                if c < i {
                    assert(!is_ascii_digit(u@[c]));
                }
                if c > i {
                    assert(!is_ascii_digit(u@[i as int]));
                }
            }
            return Some(i);
        }
        i += 1;
    }
    None
}

/// `u[from..]`.
fn tail_of(u: &Vec<char>, from: usize) -> (r: Vec<char>)
    requires
        from <= u.len(),
    ensures
        r@ == u@.skip(from as int),
{
    let mut out: Vec<char> = Vec::new();
    let mut k: usize = from;
    while k < u.len()
        invariant
            from <= k <= u.len(),
            out@ == u@.subrange(from as int, k as int),
        decreases u.len() - k,
    {
        out.push(u[k]);
        k += 1;
        assert(out@ =~= u@.subrange(from as int, k as int));
    }
    out
}

/// `u[..to]`.
fn head_of(u: &Vec<char>, to: usize) -> (r: Vec<char>)
    requires
        to <= u.len(),
    ensures
        r@ == u@.take(to as int),
{
    let mut out: Vec<char> = Vec::new();
    let mut k: usize = 0;
    while k < to
        invariant
            k <= to <= u.len(),
            out@ == u@.take(k as int),
        decreases to - k,
    {
        out.push(u[k]);
        k += 1;
        assert(out@ =~= u@.take(k as int));
    }
    out
}

/// The head word on the first line and the trimmed rest after `cut` on the
/// second.
fn split_after(u: &Vec<char>, head: Vec<char>, cut: usize) -> (r: Vec<Vec<char>>)
    requires
        cut <= u.len(),
    ensures
        views(r@) == head_and_rest(u@, head@, cut as int),
{
    let rest = trimmed(u, cut, u.len());
    assert(u@.subrange(cut as int, u@.len() as int) =~= u@.skip(cut as int));
    let ghost hv = head@;
    let ghost rv = rest@;
    let out = vec![head, rest];
    assert(views(out@) =~= seq![hv, rv]);
    out
}

/// One line.
fn single(line: Vec<char>) -> (r: Vec<Vec<char>>)
    ensures
        views(r@) == seq![line@],
{
    let ghost v = line@;
    let out = vec![line];
    assert(views(out@) =~= seq![v]);
    out
}

/// Two lines.
fn pair(first: Vec<char>, second: Vec<char>) -> (r: Vec<Vec<char>>)
    ensures
        views(r@) == seq![first@, second@],
{
    let ghost a = first@;
    let ghost b = second@;
    let out = vec![first, second];
    assert(views(out@) =~= seq![a, b]);
    out
}

/// [`key_lines`] over the name's characters.
fn key_line_chars(key: &Vec<char>) -> (r: Vec<Vec<char>>)
    ensures
        views(r@) == key_lines_of(key@),
{
    let trimmed_key = trimmed(key, 0, key.len());
    assert(key@.subrange(0, key@.len() as int) =~= key@);
    let u = to_ascii_upper(&trimmed_key);
    let n = u.len();
    if n == 0 {
        let dash = vec!['-'];
        assert(dash@ == seq!['-']);
        return single(dash);
    }
    let arrow = vec!['A', 'R', 'R', 'O', 'W'];
    let numpad = vec!['N', 'U', 'M', 'P', 'A', 'D'];
    let num_space = vec!['N', 'U', 'M', ' '];
    let page = vec!['P', 'A', 'G', 'E'];
    let left = vec!['L', 'E', 'F', 'T'];
    let right = vec!['R', 'I', 'G', 'H', 'T'];
    if has_prefix(&u, arrow.as_slice()) && n > 5 {
        split_after(&u, arrow, 5)
    } else if has_prefix(&u, numpad.as_slice()) && n > 6 {
        split_after(&u, numpad, 6)
    } else if has_prefix(&u, num_space.as_slice()) && n > 4 {
        split_after(&u, vec!['N', 'U', 'M'], 4)
    } else if has_prefix(&u, page.as_slice()) && n > 4 {
        split_after(&u, page, 4)
    } else if same_chars(&u, &['B', 'A', 'C', 'K', 'S', 'P', 'A', 'C', 'E']) {
        pair(vec!['B', 'A', 'C', 'K'], vec!['S', 'P', 'A', 'C', 'E'])
    } else if same_chars(&u, &['C', 'A', 'P', 'S', 'L', 'O', 'C', 'K']) {
        pair(vec!['C', 'A', 'P', 'S'], vec!['L', 'O', 'C', 'K'])
    } else if has_prefix(&u, left.as_slice()) && n > 4 {
        split_after(&u, left, 4)
    } else if has_prefix(&u, right.as_slice()) && n > 5 {
        split_after(&u, right, 5)
    } else if holds(&u, ' ') {
        let parts = split_words(&u);
        if parts.len() == 2 {
            pair(parts[0].clone(), parts[1].clone())
        } else if parts.len() > 2 {
            let rest = join_words(&parts, 1);
            assert(views(parts@).skip(1) =~= views(parts@).skip(1));
            pair(parts[0].clone(), rest)
        } else {
            single(u)
        }
    } else if n >= 7 {
        match find_digit(&u) {
            Some(pos) if pos > 0 => pair(head_of(&u, pos), tail_of(&u, pos)),
            _ => {
                let split = char_boundary_at_half(&u);
                pair(head_of(&u, split), tail_of(&u, split))
            },
        }
    } else {
        single(u)
    }
}

/// Splits a key name into at most two display lines. Compound names
/// (`Numpad 8`, `Arrow Up`, `Backspace`) are the case this exists for.
///
/// The window's one owner of the split: the D-pad cap, the preview's example
/// keys, and the timeline's gutter caps all read their lines from here, so one
/// key reads the same wherever it lands.
pub fn key_lines(key: &str) -> (r: Vec<String>)
    ensures
        string_views(r@) == key_lines_of(key@),
{
    let chars = chars_of(key);
    let lines = key_line_chars(&chars);
    strings_of(&lines)
}

/// A key name splits into one or two display lines, never more.
pub proof fn key_lines_are_one_or_two(key: Seq<char>)
    ensures
        1 <= key_lines_of(key).len() <= 2,
{
}

/// The longest line's length in characters.
pub open spec fn longest_line(lines: Seq<Seq<char>>) -> nat
    decreases lines.len(),
{
    if lines.len() == 0 {
        0
    } else {
        let rest = longest_line(lines.drop_last());
        if lines.last().len() > rest {
            lines.last().len()
        } else {
            rest
        }
    }
}

/// The D-pad cap's text size for a key name, in tenths of a point: a compound
/// name takes the size its longest line needs, a single line the size its
/// length needs, and a blank name the dash's size.
pub open spec fn key_size_tenths(key: Seq<char>) -> u32 {
    let lines = key_lines_of(key);
    if trim(key).len() == 0 {
        160
    } else if lines.len() > 1 {
        let longest = longest_line(lines);
        if longest <= 4 {
            120
        } else if longest <= 6 {
            110
        } else {
            95
        }
    } else {
        let chars = lines[0].len();
        if chars <= 2 {
            180
        } else if chars <= 4 {
            140
        } else {
            110
        }
    }
}

/// A key name's display lines and the size the D-pad cap draws them at.
pub struct KeyDisplay {
    pub lines: Vec<String>,
    /// The text size in tenths of a point (`95` is 9.5pt).
    pub size_tenths: u32,
}

/// The longest of the lines, in characters.
fn longest_of(lines: &Vec<Vec<char>>) -> (r: usize)
    ensures
        r == longest_line(views(lines@)),
{
    let mut best: usize = 0;
    let mut i: usize = 0;
    while i < lines.len()
        invariant
            i <= lines.len(),
            best == longest_line(views(lines@).take(i as int)),
        decreases lines.len() - i,
    {
        proof {
            assert(views(lines@).take(i + 1).drop_last() =~= views(lines@).take(i as int));
        }
        if lines[i].len() > best {
            best = lines[i].len();
        }
        i += 1;
    }
    assert(views(lines@).take(lines@.len() as int) =~= views(lines@));
    best
}

/// [`key_lines`] plus the D-pad cap's own size for them. The preview and
/// timeline caps read the same lines and carry their own size policy.
pub fn format_key_for_display(key: &str) -> (r: KeyDisplay)
    ensures
        string_views(r.lines@) == key_lines_of(key@),
        r.size_tenths == key_size_tenths(key@),
{
    let chars = chars_of(key);
    let lines = key_line_chars(&chars);
    proof {
        key_lines_are_one_or_two(chars@);
    }
    let blank = trimmed(&chars, 0, chars.len());
    assert(chars@.subrange(0, chars@.len() as int) =~= chars@);
    let size: u32 = if blank.len() == 0 {
        160
    } else if lines.len() > 1 {
        let longest = longest_of(&lines);
        if longest <= 4 {
            120
        } else if longest <= 6 {
            110
        } else {
            95
        }
    } else {
        let count = lines[0].len();
        if count <= 2 {
            180
        } else if count <= 4 {
            140
        } else {
            110
        }
    };
    KeyDisplay { lines: strings_of(&lines), size_tenths: size }
}

/// The drop shadow under a D-pad keycap's box.
#[derive(Clone, Copy, Debug, PartialEq, Eq, Structural)]
pub enum KeycapShadow {
    /// The resting lift (`shadow-xs`).
    Resting,
    /// The pressed glow in the direction's ring step, its tighter blur.
    PressedGlow,
    /// The rebinding glow in the direction's ring step, its wider blur.
    RebindGlow,
}

/// The hard ring outside a keycap's box: `ring-2` while pressed, `ring-4`
/// while rebinding, in the direction's ring step.
#[derive(Clone, Copy, Debug, PartialEq, Eq, Structural)]
pub enum KeycapRing {
    Pressed,
    Rebind,
}

/// Everything a D-pad keycap's chrome and content are coloured with.
#[derive(Clone, Copy, Debug, PartialEq, Eq, Structural)]
pub struct KeycapPaint {
    pub fill: Color,
    pub edge: Color,
    pub shadow: KeycapShadow,
    /// The hero key name's ink.
    pub ink: Color,
    /// The sub-legend row's ink.
    pub legend_ink: Color,
    /// The legend arrow's ink.
    pub arrow_ink: Color,
    /// Whether the pressed `shadow-inner` band is drawn.
    pub inner_shadow: bool,
    pub ring: Option<KeycapRing>,
    /// Whether the hover edit badge hangs off the corner.
    pub edit_badge: bool,
}

/// The legend row's ink while a state is active: white at 80%.
pub const WHITE_80: Color = 0xffffffcc;

/// The paint of a D-pad keycap for `direction` in `mode`, with another slot
/// sharing its key or not, the pointer over it or not, and the mouse held on
/// it or not.
///
/// A rebinding or pressed cap fills with the direction's accent and glows in
/// its ring step. At rest the mouse-down tint wins, then the duplicate
/// warning, then the hover; the duplicate's red edge wins over the held
/// accent. Rebinding or a live press is what turns the legend and arrow white.
pub open spec fn keycap_paint_of(accent: Color, mode: KeycapMode, duplicate: bool, hovered: bool, held: bool) -> KeycapPaint {
    let active = mode != KeycapMode::Normal;
    let (fill, edge, shadow, ink) = match mode {
        KeycapMode::Rebinding => (accent, theme::WHITE_40, KeycapShadow::RebindGlow, theme::WHITE),
        KeycapMode::Pressed => (accent, accent, KeycapShadow::PressedGlow, theme::WHITE),
        KeycapMode::Normal => (
            if held {
                accent
            } else if duplicate {
                theme::RED_50
            } else if hovered {
                theme::SLATE_50
            } else {
                theme::WHITE
            },
            if duplicate {
                theme::RED_400
            } else if held {
                accent
            } else if hovered {
                theme::INDIGO_400
            } else {
                theme::SLATE_200
            },
            KeycapShadow::Resting,
            if held {
                theme::WHITE
            } else if duplicate {
                theme::RED_600
            } else {
                theme::SLATE_900
            },
        ),
    };
    KeycapPaint {
        fill,
        edge,
        shadow,
        ink,
        legend_ink: if active {
            WHITE_80
        } else {
            theme::SLATE_400
        },
        arrow_ink: if active {
            theme::WHITE
        } else {
            accent
        },
        inner_shadow: mode == KeycapMode::Pressed,
        ring: match mode {
            KeycapMode::Normal => None,
            KeycapMode::Pressed => Some(KeycapRing::Pressed),
            KeycapMode::Rebinding => Some(KeycapRing::Rebind),
        },
        edit_badge: hovered,
    }
}

/// The D-pad keycap's colours and chrome for one frame.
pub fn keycap_paint(direction: &Direction, state: &Keycap, hovered: bool, held: bool) -> (r: KeycapPaint)
    ensures
        r == keycap_paint_of(direction.accent, state.mode, state.duplicate, hovered, held),
{
    let active = state.mode != KeycapMode::Normal;
    let (fill, edge, shadow, ink) = match state.mode {
        KeycapMode::Rebinding => (direction.accent, theme::WHITE_40, KeycapShadow::RebindGlow, theme::WHITE),
        KeycapMode::Pressed => (direction.accent, direction.accent, KeycapShadow::PressedGlow, theme::WHITE),
        KeycapMode::Normal => {
            let fill = if held {
                direction.accent
            } else if state.duplicate {
                theme::RED_50
            } else if hovered {
                theme::SLATE_50
            } else {
                theme::WHITE
            };
            let ink = if held {
                theme::WHITE
            } else if state.duplicate {
                theme::RED_600
            } else {
                theme::SLATE_900
            };
            let edge = if state.duplicate {
                theme::RED_400
            } else if held {
                direction.accent
            } else if hovered {
                theme::INDIGO_400
            } else {
                theme::SLATE_200
            };
            (fill, edge, KeycapShadow::Resting, ink)
        },
    };
    let ring = match state.mode {
        KeycapMode::Normal => None,
        KeycapMode::Pressed => Some(KeycapRing::Pressed),
        KeycapMode::Rebinding => Some(KeycapRing::Rebind),
    };
    KeycapPaint {
        fill,
        edge,
        shadow,
        ink,
        legend_ink: if active {
            WHITE_80
        } else {
            theme::SLATE_400
        },
        arrow_ink: if active {
            theme::WHITE
        } else {
            direction.accent
        },
        inner_shadow: state.mode == KeycapMode::Pressed,
        ring,
        edit_badge: hovered,
    }
}

/// What a click on a keycap asks for: a rebinding cap cancels the capture,
/// any other starts one for its slot.
#[derive(Clone, Copy, Debug, PartialEq, Eq, Structural)]
pub enum KeycapClick {
    CancelCapture,
    Capture(KeySlot),
}

/// The message a click on the cap of `slot` produces in `mode`: a rebinding
/// cap cancels the capture, any other cap starts capturing its own slot.
pub open spec fn keycap_click_of(slot: KeySlot, mode: KeycapMode) -> KeycapClick {
    if mode == KeycapMode::Rebinding {
        KeycapClick::CancelCapture
    } else {
        KeycapClick::Capture(slot)
    }
}

/// The message a keycap's click produces.
pub fn keycap_click(direction: &Direction, mode: KeycapMode) -> (r: KeycapClick)
    ensures
        r == keycap_click_of(direction.slot, mode),
{
    match mode {
        KeycapMode::Rebinding => KeycapClick::CancelCapture,
        _ => KeycapClick::Capture(direction.slot),
    }
}

/// The capture slot wins, then a live press, then rest.
pub open spec fn keycap_mode_of(capture_slot: Option<KeySlot>, slot: KeySlot, held: bool) -> KeycapMode {
    if capture_slot == Some(slot) {
        KeycapMode::Rebinding
    } else if held {
        KeycapMode::Pressed
    } else {
        KeycapMode::Normal
    }
}

/// A directional keycap's mode: the capture slot wins, then a live press --
/// from the window's own key events or the timeline's held state -- then
/// rest.
pub fn keycap_mode(capture_slot: Option<KeySlot>, slot: KeySlot, held: bool) -> (r: KeycapMode)
    ensures
        r == keycap_mode_of(capture_slot, slot, held),
{
    let capturing = match capture_slot {
        Some(s) => s == slot,
        None => false,
    };
    if capturing {
        KeycapMode::Rebinding
    } else if held {
        KeycapMode::Pressed
    } else {
        KeycapMode::Normal
    }
}

/// A rebinding cap always reads as the rebinding picture, whatever the
/// pointer or the keyboard does, and only a resting cap reacts to the
/// duplicate warning and the hover.
pub proof fn rebinding_ignores_hover_and_press(accent: Color, duplicate: bool, hovered: bool, held: bool)
    ensures
        ({
            let p = keycap_paint_of(accent, KeycapMode::Rebinding, duplicate, hovered, held);
            let q = keycap_paint_of(accent, KeycapMode::Rebinding, false, false, false);
            p.fill == q.fill && p.edge == q.edge && p.ink == q.ink && p.shadow == q.shadow
                && p.ring == q.ring
        }),
        keycap_paint_of(accent, KeycapMode::Normal, true, false, false).edge == theme::RED_400,
        keycap_paint_of(accent, KeycapMode::Normal, true, hovered, held).edge == theme::RED_400,
{
}

/// Every display line holds at least one character: a blank name draws a
/// dash, and no split leaves an empty half.
pub proof fn no_key_line_is_empty(key: Seq<char>)
    ensures
        forall|i: int| 0 <= i < key_lines_of(key).len() ==> #[trigger] key_lines_of(key)[i].len() > 0,
{
    let t = trim(key);
    let u = ascii_upper(t);
    let n = u.len();
    if n > 0 {
        lemma_trim_ends(key);
        lemma_upper_keeps_space(t.last());
        assert(u.last() == crate::text::upper_char(t.last()));
        assert(!is_white_space(u.last()));
        assert forall|cut: int| 0 <= cut < n implies #[trigger] trim(u.skip(cut)).len() > 0 by {
            assert(u.skip(cut).last() == u.last());
            lemma_trim_nonempty(u.skip(cut));
        }
        let parts = words(u);
        lemma_words_nonempty(u);
        if parts.len() > 2 {
            let rest = parts.skip(1);
            assert(rest.last() == parts[parts.len() - 1]);
            lemma_join_nonempty(rest);
        }
        if (exists|p: int| is_first_digit(u, p)) {
            assert(is_first_digit(u, first_digit(u)));
        }
    }
}


/// A one-word key name loses no character to the split: its display lines,
/// read one after the other, spell the name's upper-case form.
pub proof fn a_one_word_name_keeps_every_character(key: Seq<char>)
    requires
        trim(key).len() > 0,
        forall|i: int| 0 <= i < trim(key).len() ==> !is_white_space(#[trigger] trim(key)[i]),
    ensures
        key_lines_of(key).flatten() == ascii_upper(trim(key)),
{
    let t = trim(key);
    let u = ascii_upper(t);
    assert forall|i: int| 0 <= i < u.len() implies !is_white_space(#[trigger] u[i]) by {
        lemma_upper_keeps_space(t[i]);
    }
    assert(!u.contains(' ')) by {
        if u.contains(' ') {
            let i = choose|i: int| 0 <= i < u.len() && u[i] == ' ';
            assert(!is_white_space(u[i]));
        }
    }
    assert forall|cut: int| 0 <= cut <= u.len() implies #[trigger] trim(u.skip(cut)) == u.skip(cut) by {
        lemma_trim_solid(u.skip(cut));
    }
    let lines = key_lines_of(key);
    key_lines_are_one_or_two(key);
    let none = Seq::<Seq<char>>::empty();
    assert(none.flatten() == Seq::<char>::empty());
    if lines.len() == 1 {
        assert(lines.drop_first() =~= none);
        assert(lines.flatten() == lines[0] + none.flatten());
        assert(lines.flatten() =~= lines[0]);
    } else {
        let second = lines.drop_first();
        assert(second.drop_first() =~= none);
        assert(second.flatten() == second[0] + none.flatten());
        assert(second.flatten() =~= lines[1]);
        assert(lines.flatten() =~= lines[0] + lines[1]);
    }
    assert forall|cut: int| 0 <= cut <= u.len() implies #[trigger] (u.take(cut) + u.skip(cut)) == u by {
        assert(u.take(cut) + u.skip(cut) =~= u);
    }
    if starts_with(u, word_arrow()) {
        assert(u.take(5) == word_arrow());
    }
    if starts_with(u, word_numpad()) {
        assert(u.take(6) == word_numpad());
    }
    if starts_with(u, word_page()) {
        assert(u.take(4) == word_page());
    }
    if starts_with(u, word_left()) {
        assert(u.take(4) == word_left());
    }
    if starts_with(u, word_right()) {
        assert(u.take(5) == word_right());
    }
    if u == word_backspace() {
        assert(seq!['B', 'A', 'C', 'K'] + seq!['S', 'P', 'A', 'C', 'E'] =~= word_backspace());
    }
    if u == word_capslock() {
        assert(seq!['C', 'A', 'P', 'S'] + seq!['L', 'O', 'C', 'K'] =~= word_capslock());
    }
    if starts_with(u, word_num_space()) {
        assert(u[3] == word_num_space()[3]);
    }
}


/// No key name loses a character to the split but its white space: the
/// display lines, read one after the other with their white space dropped,
/// spell the trimmed, upper-cased name with its white space dropped. A blank
/// name is the one exception: it draws a dash.
pub proof fn a_name_keeps_every_character_but_its_spaces(key: Seq<char>)
    requires
        trim(key).len() > 0,
    ensures
        solid(key_lines_of(key).flatten()) == solid(ascii_upper(trim(key))),
{
    let t = trim(key);
    let u = ascii_upper(t);
    let n = u.len();
    let lines = key_lines_of(key);
    key_lines_are_one_or_two(key);
    let none = Seq::<Seq<char>>::empty();
    assert(none.flatten() == Seq::<char>::empty());
    if lines.len() == 1 {
        assert(lines.drop_first() =~= none);
        assert(lines.flatten() == lines[0] + none.flatten());
        assert(lines.flatten() =~= lines[0]);
    } else {
        let second = lines.drop_first();
        assert(second.drop_first() =~= none);
        assert(second.flatten() == second[0] + none.flatten());
        assert(second.flatten() =~= lines[1]);
        assert(lines.flatten() =~= lines[0] + lines[1]);
        lemma_solid_concat(lines[0], lines[1]);
    }
    assert forall|cut: int| 0 <= cut <= n implies #[trigger] solid(u.skip(cut)) == solid(trim(u.skip(cut)))
        && solid(u) == solid(u.take(cut)) + solid(u.skip(cut)) by {
        lemma_solid_trim(u.skip(cut));
        lemma_solid_concat(u.take(cut), u.skip(cut));
        assert(u.take(cut) + u.skip(cut) =~= u);
    }
    if starts_with(u, word_arrow()) && n > 5 {
        assert(u.take(5) == word_arrow());
        assert(solid(u.skip(5)) == solid(trim(u.skip(5))));
    } else if starts_with(u, word_numpad()) && n > 6 {
        assert(u.take(6) == word_numpad());
        assert(solid(u.skip(6)) == solid(trim(u.skip(6))));
    } else if starts_with(u, word_num_space()) && n > 4 {
        assert(u.take(4) == word_num_space());
        assert(solid(u.skip(4)) == solid(trim(u.skip(4))));
        assert(word_num_space().drop_last() =~= word_num());
        assert(word_num_space().last() == ' ');
        assert(solid(word_num_space()) == solid(word_num()));
    } else if starts_with(u, word_page()) && n > 4 {
        assert(u.take(4) == word_page());
        assert(solid(u.skip(4)) == solid(trim(u.skip(4))));
    } else if u == word_backspace() {
        assert(seq!['B', 'A', 'C', 'K'] + seq!['S', 'P', 'A', 'C', 'E'] =~= word_backspace());
    } else if u == word_capslock() {
        assert(seq!['C', 'A', 'P', 'S'] + seq!['L', 'O', 'C', 'K'] =~= word_capslock());
    } else if starts_with(u, word_left()) && n > 4 {
        assert(u.take(4) == word_left());
        assert(solid(u.skip(4)) == solid(trim(u.skip(4))));
    } else if starts_with(u, word_right()) && n > 5 {
        assert(u.take(5) == word_right());
        assert(solid(u.skip(5)) == solid(trim(u.skip(5))));
    } else if u.contains(' ') {
        let parts = words(u);
        lemma_solid_words(u);
        if parts.len() >= 2 {
            assert(no_space(parts[0]));
            lemma_solid_keeps(parts[0]);
            assert(parts.flatten() == parts[0] + parts.drop_first().flatten());
            assert(parts.drop_first() =~= parts.skip(1));
            if parts.len() == 2 {
                assert(no_space(parts[1]));
                lemma_solid_keeps(parts[1]);
                let rest = parts.skip(1);
                assert(rest.drop_first() =~= none);
                assert(rest.flatten() == rest[0] + none.flatten());
                assert(rest.flatten() =~= parts[1]);
            } else {
                let rest = parts.skip(1);
                assert forall|i: int| 0 <= i < rest.len() implies no_space(#[trigger] rest[i]) by {
                    assert(rest[i] == parts[i + 1]);
                }
                lemma_solid_join(rest);
            }
        }
    } else if n >= 7 {
        if (exists|p: int| is_first_digit(u, p)) && first_digit(u) > 0 {
            let p = first_digit(u);
            assert(is_first_digit(u, p));
        } else {
            assert(solid(u) == solid(halves(u)[0]) + solid(halves(u)[1]));
        }
    }
}

/// The capture slot wins whatever the keyboard does, and otherwise the cap is
/// pressed exactly while its key is held. So the first click on a cap starts
/// capturing its slot, and a second click on that cap, held key or not,
/// cancels the capture instead of starting it again.
pub proof fn the_capture_slot_wins_then_a_press(capture_slot: Option<KeySlot>, slot: KeySlot, held: bool)
    ensures
        capture_slot == Some(slot) ==> keycap_mode_of(capture_slot, slot, held) == KeycapMode::Rebinding,
        capture_slot != Some(slot) ==> keycap_mode_of(capture_slot, slot, held) != KeycapMode::Rebinding,
        capture_slot != Some(slot) ==> (keycap_mode_of(capture_slot, slot, held) == KeycapMode::Pressed <==> held),
        capture_slot != Some(slot) ==> keycap_click_of(slot, keycap_mode_of(capture_slot, slot, held))
            == KeycapClick::Capture(slot),
        keycap_click_of(slot, keycap_mode_of(Some(slot), slot, held)) == KeycapClick::CancelCapture,
{
}

/// What a cap shows in each mode: an active cap (pressed or rebinding) fills
/// with its accent and draws white, with a ring and no resting edge; a resting
/// cap held by the timeline fills with its accent too, a resting duplicate
/// warns in red, and only a pressed cap sinks under an inner shadow. The edit
/// badge follows the pointer alone.
pub proof fn an_active_cap_wears_its_accent(accent: Color, mode: KeycapMode, duplicate: bool, hovered: bool, held: bool)
    ensures
        ({
            let p = keycap_paint_of(accent, mode, duplicate, hovered, held);
            &&& mode != KeycapMode::Normal ==> p.fill == accent && p.ink == theme::WHITE
                && p.arrow_ink == theme::WHITE && p.legend_ink == WHITE_80 && p.ring is Some
            &&& mode == KeycapMode::Normal ==> p.ring is None && p.arrow_ink == accent
                && p.legend_ink == theme::SLATE_400 && p.shadow == KeycapShadow::Resting
            &&& mode == KeycapMode::Normal && held ==> p.fill == accent && p.ink == theme::WHITE
            &&& mode == KeycapMode::Normal && !held && duplicate ==> p.fill == theme::RED_50
                && p.ink == theme::RED_600
            &&& mode == KeycapMode::Normal && duplicate ==> p.edge == theme::RED_400
            &&& p.inner_shadow <==> mode == KeycapMode::Pressed
            &&& p.edit_badge == hovered
        }),
{
}

/// A cap's label opens with its direction's name, so the four labels stay
/// apart; a rebinding cap's label does not depend on the key it replaces; and
/// a pressed cap's label is its resting label marked as pressed.
pub proof fn a_label_names_its_direction_first(label: Seq<char>, mode: KeycapMode, name: Seq<char>, other: Seq<char>)
    ensures
        keycap_label_of(label, mode, name).take(label.len() as int) == label,
        keycap_label_of(label, KeycapMode::Rebinding, name) == keycap_label_of(label, KeycapMode::Rebinding, other),
        keycap_label_of(label, KeycapMode::Pressed, name) == keycap_label_of(label, KeycapMode::Normal, name)
            + " (pressed)"@,
        keycap_label_of(label, KeycapMode::Normal, name).skip(label.len() as int) == " keycap: "@ + name,
{
    let l = keycap_label_of(label, mode, name);
    assert(l.take(label.len() as int) =~= label);
    assert(keycap_label_of(label, KeycapMode::Pressed, name) =~= keycap_label_of(label, KeycapMode::Normal, name)
        + " (pressed)"@);
    assert(keycap_label_of(label, KeycapMode::Normal, name).skip(label.len() as int) =~= " keycap: "@ + name);
}

} // verus!
