//! The window's palette and the colour rules built on it.
//!
//! Every colour the window paints is a named step held as straight
//! (unmultiplied) sRGB bytes packed `0xRRGGBBAA`, so a token reads off as the
//! hex a design token names and an opaque step ends in `ff`. The view layer
//! turns a token into its renderer's colour type at the paint call.
//!
//! Tokens that are composites over a known surface are already flattened to
//! the opaque bytes a browser shows; the few translucent tokens keep their
//! alpha byte.
use vstd::prelude::*;

use crate::settings::SocdMode;

verus! {

/// A colour packed as `0xRRGGBBAA`, straight alpha.
pub type Color = u32;

/// The packed colour of four channels.
pub open spec fn rgba(r: u8, g: u8, b: u8, a: u8) -> Color {
    (r as int * 0x1000000 + g as int * 0x10000 + b as int * 0x100 + a as int) as u32
}

pub open spec fn red(c: Color) -> u8 {
    (c / 0x1000000) as u8
}

pub open spec fn green(c: Color) -> u8 {
    ((c / 0x10000) % 0x100) as u8
}

pub open spec fn blue(c: Color) -> u8 {
    ((c / 0x100) % 0x100) as u8
}

pub open spec fn alpha(c: Color) -> u8 {
    (c % 0x100) as u8
}

/// The colour's red, green, blue and alpha bytes.
pub fn channels(c: Color) -> (r: (u8, u8, u8, u8))
    ensures
        r == (red(c), green(c), blue(c), alpha(c)),
        rgba(r.0, r.1, r.2, r.3) == c,
{
    ((c / 0x1000000) as u8, ((c / 0x10000) % 0x100) as u8, ((c / 0x100) % 0x100) as u8, (c
        % 0x100) as u8)
}

/// Straight-alpha restatement of a colour at another alpha: the same three
/// channels, `alpha` as the fourth byte.
pub fn with_alpha(color: Color, alpha_byte: u8) -> (r: Color)
    ensures
        r == rgba(red(color), green(color), blue(color), alpha_byte),
{
    (color / 0x100) * 0x100 + alpha_byte as u32
}

// ===========================================================================
// Palette
// ===========================================================================

/// `bg-slate-50`: the keycap hover fill.
pub const SLATE_50: Color = 0xf8fafcff;
/// `bg-slate-100`: slider rails, the step-badge well, and the D-pad tile.
pub const SLATE_100: Color = 0xf1f5f9ff;
/// `border-slate-200`: every neutral hairline, control outline, and dropdown
/// edge.
pub const SLATE_200: Color = 0xe2e8f0ff;
/// `border-slate-300`: keycap chips, the slot confirm overlay, the disabled
/// outline, and the slider's disabled ink.
pub const SLATE_300: Color = 0xcad5e2ff;
/// `text-slate-400`: idle chevrons, the pencil, and disabled figures.
pub const SLATE_400: Color = 0x90a1b9ff;
/// `text-slate-500`: secondary copy and card subtitles.
pub const SLATE_500: Color = 0x62748eff;
/// `text-slate-600`: the unselected mode segment, the icon ink, and the restore
/// affordance's label.
pub const SLATE_600: Color = 0x45556cff;
/// `text-slate-700`: the keycap chip label. Chips stay neutral white so the
/// card's mode tint is the only colour signal.
pub const SLATE_700: Color = 0x314158ff;
/// `text-slate-800`: the "How it works" header, one step lighter than
/// [`SLATE_900`].
pub const SLATE_800: Color = 0x1d293dff;
/// `text-slate-900`: every label and paragraph on a light surface.
pub const SLATE_900: Color = 0x0f172bff;
/// `ring-amber-100`: the measuring status dot's ring.
pub const AMBER_100: Color = 0xfef3c6ff;
/// `border-amber-200`: the dirty badge's edge step. Defined but unread -- the
/// badge's edge and its ink both take [`AMBER_200_90`], which is the same step
/// at 90% and the only one a painter ever sees.
pub const AMBER_200: Color = 0xfee685ff;
/// `bg-amber-500`: the physical-overlap legend dot and the overlap figure.
pub const AMBER_500: Color = 0xfe9a00ff;
/// `bg-amber-600`: the amber control's fill.
pub const AMBER_600: Color = 0xe17100ff;
/// `bg-amber-700` / `border-amber-700`: the amber control's edge and hover
/// fill, and the dirty badge's ink.
pub const AMBER_700: Color = 0xbb4d00ff;
/// `bg-red-50`: the invalid value-box fill.
pub const RED_50: Color = 0xfef2f2ff;
/// `border-red-400`: the invalid value-box edge.
pub const RED_400: Color = 0xff6467ff;
/// `bg-red-500`: the near-simultaneous legend dot.
pub const RED_500: Color = 0xfb2c36ff;
/// `text-red-600`: error and validation copy, the warning and duplicate-key
/// glyphs beside it, and the indistinguishable-overlap figure.
pub const RED_600: Color = 0xe7000bff;
/// `ring-emerald-100`: the synchronized status dot's ring.
pub const EMERALD_100: Color = 0xd0fae5ff;
/// `bg-emerald-500`: the step every emerald **mark** takes -- the connected
/// status dot, and each check glyph (beside a notice, on the Synchronized
/// badge, and on the assignment footer).
pub const EMERALD_500: Color = 0x00bc7dff;
/// `text-emerald-600`: notice feedback copy.
pub const EMERALD_600: Color = 0x009966ff;
/// `bg-indigo-50`: the Press Delay slot card's base, and the panel close
/// button's hover wash.
pub const INDIGO_50: Color = 0xeef2ffff;
/// `bg-indigo-100`: the Press Delay slot card's active wash, taken at 70%.
pub const INDIGO_100: Color = 0xe0e7ffff;
/// `border-indigo-200`: the Press Delay card's idle edge, taken at 70%.
pub const INDIGO_200: Color = 0xc6d2ffff;
/// `ring-indigo-300` on a held keycap, and `hover:border-indigo-300` on every
/// outlined control.
pub const INDIGO_300: Color = 0xa3b3ffff;
/// `border-indigo-400`: the keycap hover edge and the timeline badge's fill.
pub const INDIGO_400: Color = 0x7c86ffff;
/// `bg-indigo-500`: the timeline overlap wash and the rebinding keycap step.
pub const INDIGO_500: Color = 0x615fffff;
/// `bg-indigo-600` / `text-indigo-600` / `border-indigo-600`: the Press Delay
/// mode base, and the generic interactive accent every other control takes.
pub const INDIGO_600: Color = 0x4f39f6ff;
/// `bg-indigo-700` / `border-indigo-700`: the primary control's hover fill and
/// edge, and the hover badge's pencil.
pub const INDIGO_700: Color = 0x432dd7ff;
/// `bg-indigo-800` / `hover:bg-indigo-800`: the Escape chip's hover fill.
pub const INDIGO_800: Color = 0x372aacff;
/// `bg-indigo-950`: the timeline's overlap badge well, the darkest step any
/// surface uses.
pub const INDIGO_950: Color = 0x1e1a4dff;
/// `bg-blue-200`: the UP lane's held ring in the timeline canvas, carried as a
/// straight alpha over the step rather than a composite.
pub const BLUE_200: Color = 0xbedbffff;
/// `ring-blue-300`: the UP keycap's held and rebinding glow.
pub const BLUE_300: Color = 0x8ec5ffff;
/// `bg-blue-600`: the Immediate mode base, and the UP keycap's held fill.
pub const BLUE_600: Color = 0x155dfcff;
/// `border-blue-700`: the Immediate badge's edge, the counterpart of the two
/// delay examples' `border-<ramp>-700/50`.
pub const BLUE_700: Color = 0x1447e6ff;
/// `bg-violet-50`: the Release Delay slot card's base.
pub const VIOLET_50: Color = 0xf5f3ffff;
/// `bg-violet-100`: the Release Delay slot card's active wash, taken at 70%.
pub const VIOLET_100: Color = 0xede9feff;
/// `border-violet-200`: the Release Delay card's idle edge, taken at 70%.
pub const VIOLET_200: Color = 0xddd6ffff;
/// `border-violet-300`: the Release Delay card's hover edge.
pub const VIOLET_300: Color = 0xc4b4ffff;
/// `border-violet-400`: the Release Delay card's active edge.
pub const VIOLET_400: Color = 0xa684ffff;
pub const VIOLET_500: Color = 0x8e51ffff;
/// `text-violet-600`: the Release Delay mode base, and the DOWN keycap's fill.
pub const VIOLET_600: Color = 0x7f22feff;
/// `text-violet-700`: the release-delay mode label's ink, one step darker than
/// the mode base ([`VIOLET_600`]). The release card's tint keeps
/// [`VIOLET_500`]; only the label uses this darker step.
pub const VIOLET_700: Color = 0x7008e7ff;
/// `bg-purple-200`: the Random Mix lane's held ring in the timeline canvas.
pub const PURPLE_200: Color = 0xe9d4ffff;
/// `ring-purple-300`: the held D keycap's outer ring, the purple counterpart of
/// [`INDIGO_300`].
pub const PURPLE_300: Color = 0xdab2ffff;
/// `bg-purple-600`: the Random Mix mode base, the D keycap's held fill, and the
/// mixer control's ink.
pub const PURPLE_600: Color = 0x9810faff;
/// `border-purple-700`: the held D keycap's edge, the purple counterpart of the
/// held A keycap's [`INDIGO_700`].
pub const PURPLE_700: Color = 0x8200dbff;
/// `bg-white`: the page background behind the cards, and every card, control
/// shell, and slot tile. The page and the surfaces on it are the same white, so
/// one token names both rather than two role names for one value.
pub const WHITE: Color = 0xffffffff;
/// The group frame inside a card; the deep well (`bg-slate-50/80`).
pub const SLATE_50_80: Color = 0xf9fbfdff;
/// The main card's 2px edge (`border-indigo-200/80`).
pub const INDIGO_200_80: Color = 0xd2dbffff;
pub const INDIGO_50_60: Color = 0xf5f7ffff;
/// The selected language row's fill (`bg-indigo-50/80`); its edge is
/// [`INDIGO_200`].
pub const INDIGO_50_80: Color = 0xf1f5ffff;
/// The selected language row, hovered (`hover:bg-indigo-100/80`).
pub const INDIGO_100_80: Color = 0xe6ebffff;
/// The ink of the label beside an emerald mark: the "Synchronized" badge and
/// the assignment footer (`text-emerald-600/80`).
pub const EMERALD_600_80: Color = 0x33ad85ff;
/// The dirty badge's wash and edge (`bg-amber-50/70`, `border-amber-200/90`).
pub const AMBER_50_70: Color = 0xfffcf1b3;
pub const AMBER_200_90: Color = 0xfee891e6;
/// The rebinding keycap's white inner ring (`white/40`).
pub const WHITE_40: Color = 0xffffff66;
/// Text selection over an accent (`indigo-600/25`).
pub const INDIGO_600_25: Color = 0x4f39f640;
/// The confirm overlay's wash (`white/95`).
pub const WHITE_95: Color = 0xfffffff2;
/// The pressed keycap's `shadow-inner` band (`black/5`). epaint has no inset
/// shadow primitive, so two translucent inside strokes approximate the CSS
/// `inset 0 2px 4px rgb(0 0 0 / 0.05)` darkening along the box's inner edge.
pub const BLACK_5: Color = 0x0000000d;
/// The timeline's settled overlap wash, and a still-open one: a live overlap
/// reads stronger than a settled one (`indigo-500/20` and `indigo-500/25`).
pub const INDIGO_500_20: Color = 0x615fff33;
pub const INDIGO_500_25: Color = 0x615fff40;
/// The resting centre guide dot, `slate-300/60` flattened to opaque sRGB over
/// the tile.
pub const SLATE_300_60: Color = 0xdfe6eeff;
/// The halo behind the active dot: `blue-600/25` flattened over white.
pub const BLUE_600_25: Color = 0xc5d7feff;
/// The shadow under the active dot, one pixel below it: `blue-600/30` flattened
/// over white.
pub const BLUE_600_30: Color = 0xb9cefeff;
/// The shadow under the resting dot (`black/10`), a straight alpha because the
/// dot's own fill sits under it.
pub const BLACK_10: Color = 0x0000001a;
/// The resting dot itself: `slate-400/80` flattened over white.
pub const SLATE_400_80: Color = 0xa6b4c7ff;

// ===========================================================================
// Slot cards
// ===========================================================================

/// One channel under `opacity-75`, blended toward white and rounded half up
/// to the byte a screen shows: `c * 0.75 + 255 * 0.25`.
pub open spec fn dim_channel(c: u8) -> u8 {
    ((3 * c as int + 255 + 2) / 4) as u8
}

/// `opacity-75` on an idle card: the whole card, ink included, blended toward
/// the white panel behind it. The result is opaque.
pub open spec fn dimmed(c: Color) -> Color {
    rgba(dim_channel(red(c)), dim_channel(green(c)), dim_channel(blue(c)), 0xff)
}

/// [`dimmed`]. Three quarters of a byte plus a quarter of white, rounded half
/// up, is `(3c + 257) / 4` in whole numbers.
pub fn dim(color: Color) -> (r: Color)
    ensures
        r == dimmed(color),
{
    let (r, g, b, _) = channels(color);
    let r2 = (3 * r as u32 + 257) / 4;
    let g2 = (3 * g as u32 + 257) / 4;
    let b2 = (3 * b as u32 + 257) / 4;
    r2 * 0x1000000 + g2 * 0x10000 + b2 * 0x100 + 0xff
}

/// Interaction state of a profile slot card. The loaded slot always takes the
/// active look, a card under the pointer takes its hover look, and every other
/// card is dimmed. The active look has no hover variant, so the active card
/// does not change under the pointer.
#[derive(Clone, Copy, Debug, PartialEq, Eq, Structural)]
pub enum SlotState {
    Active,
    Hovered,
    Idle,
}

/// The ink a card's own contents draw with.
#[derive(Clone, Copy, Debug, PartialEq, Eq, Structural)]
pub struct SlotInk {
    /// Slot name, inside the name box.
    pub name: Color,
    /// The rename pencil beside the name: one slate step below the name, dims with
    /// the rest of an idle card, and reaches indigo-600 whenever the box is
    /// hovered.
    pub pencil: Color,
    /// Keycap label.
    pub chip_label: Color,
    /// Keycap outline.
    pub chip_edge: Color,
    /// Name box edge, and the hairline between the two key pairs.
    pub hairline: Color,
}

/// The inks of a card in `state`, with the name box hovered or not.
pub open spec fn slot_ink_of(state: SlotState, hovering: bool) -> SlotInk {
    let rest = SlotInk {
        name: SLATE_900,
        pencil: SLATE_400,
        chip_label: SLATE_700,
        chip_edge: SLATE_300,
        hairline: SLATE_200,
    };
    let ink = if state == SlotState::Idle {
        SlotInk {
            name: dimmed(rest.name),
            pencil: dimmed(rest.pencil),
            chip_label: dimmed(rest.chip_label),
            chip_edge: dimmed(rest.chip_edge),
            hairline: dimmed(rest.hairline),
        }
    } else {
        rest
    };
    if hovering {
        SlotInk { name: INDIGO_600, pencil: INDIGO_600, ..ink }
    } else {
        ink
    }
}

/// The ink a card's contents draw with. Idle is `opacity-75` applied to the
/// same inks, so the name, the keycaps and the hairline all lighten together.
pub fn slot_ink(state: SlotState) -> (r: SlotInk)
    ensures
        r == slot_ink_of(state, false),
{
    slot_ink_hovering(state, false)
}

/// [`slot_ink`] with the name box's hover folded in. The hover replaces the
/// idle dim rather than stacking on it: an idle card under the pointer draws
/// the same indigo as an active one.
pub fn slot_ink_hovering(state: SlotState, hovering: bool) -> (r: SlotInk)
    ensures
        r == slot_ink_of(state, hovering),
{
    let ink = SlotInk {
        name: SLATE_900,
        pencil: SLATE_400,
        chip_label: SLATE_700,
        chip_edge: SLATE_300,
        hairline: SLATE_200,
    };
    let ink = match state {
        SlotState::Idle => SlotInk {
            name: dim(ink.name),
            pencil: dim(ink.pencil),
            chip_label: dim(ink.chip_label),
            chip_edge: dim(ink.chip_edge),
            hairline: dim(ink.hairline),
        },
        _ => ink,
    };
    if hovering {
        SlotInk { name: INDIGO_600, pencil: INDIGO_600, ..ink }
    } else {
        ink
    }
}

/// The mode label's base ink: the card tint for Immediate and Random Mix, one
/// step darker for the two delay modes.
pub open spec fn mode_ink_base(mode: SocdMode) -> Color {
    match mode {
        SocdMode::Immediate => BLUE_600,
        SocdMode::PressDelay => INDIGO_700,
        SocdMode::RandomMix => PURPLE_600,
        SocdMode::ReleaseDelay => VIOLET_700,
    }
}

/// The mode label's ink on a slot card in `state`.
pub open spec fn slot_mode_ink_of(mode: SocdMode, state: SlotState) -> Color {
    if state == SlotState::Idle {
        dimmed(mode_ink_base(mode))
    } else {
        mode_ink_base(mode)
    }
}

/// The mode label's ink on a slot card, dimmed on an idle card.
pub fn slot_mode_ink(mode: SocdMode, state: SlotState) -> (r: Color)
    ensures
        r == slot_mode_ink_of(mode, state),
{
    let base = match mode {
        SocdMode::Immediate => BLUE_600,
        SocdMode::PressDelay => INDIGO_700,
        SocdMode::RandomMix => PURPLE_600,
        SocdMode::ReleaseDelay => VIOLET_700,
    };
    match state {
        SlotState::Idle => dim(base),
        _ => base,
    }
}

/// Each SOCD mode's base, its `-600` step: the accent the preview, the
/// timeline and the keycap fills read.
pub open spec fn mode_base(mode: SocdMode) -> Color {
    match mode {
        SocdMode::Immediate => BLUE_600,
        SocdMode::PressDelay => INDIGO_600,
        SocdMode::RandomMix => PURPLE_600,
        SocdMode::ReleaseDelay => VIOLET_600,
    }
}

/// A mode's accent colour.
pub fn mode_color(mode: SocdMode) -> (r: Color)
    ensures
        r == mode_base(mode),
{
    match mode {
        SocdMode::Immediate => BLUE_600,
        SocdMode::PressDelay => INDIGO_600,
        SocdMode::RandomMix => PURPLE_600,
        SocdMode::ReleaseDelay => VIOLET_600,
    }
}

/// Keycap interaction mode, from the keycap's own state machine.
#[derive(Clone, Copy, Debug, PartialEq, Eq, Structural)]
pub enum KeycapMode {
    Normal,
    Pressed,
    Rebinding,
}

// ===========================================================================
// Shared paint-only controls
// ===========================================================================

/// The window's one glyph table. Every icon the window paints is a variant
/// here, so a glyph is traced once and a surface supplies only its box and its
/// ink.
#[derive(Clone, Copy, Debug, PartialEq, Eq, Structural)]
pub enum Icon {
    Keyboard,
    Restore,
    Edit,
    Check,
    Warning,
    Target,
    Timer,
    Revert,
    Chart,
    Measurement,
    Star,
    Play,
    Stop,
    ArrowForward,
    Layers,
    Languages,
    Power,
    Close,
}

/// The glyph ink beside an outlined action's label: the Restore glyph keeps the
/// secondary slate in every state, every other glyph follows the label.
pub fn action_icon_ink(kind: Icon, label_ink: Color) -> (r: Color)
    ensures
        r == (if kind == Icon::Restore {
            SLATE_600
        } else {
            label_ink
        }),
{
    if kind == Icon::Restore {
        SLATE_600
    } else {
        label_ink
    }
}

/// The outlined secondary action's (fill, edge, ink) at rest.
pub open spec fn secondary_rest() -> (Color, Color, Color) {
    (WHITE, SLATE_200, SLATE_600)
}

/// The outlined secondary action's (fill, edge, ink) under the pointer.
pub open spec fn secondary_hovered() -> (Color, Color, Color) {
    (INDIGO_50_60, INDIGO_300, INDIGO_600)
}

/// The outlined secondary action's (fill, edge, ink) while disabled.
pub open spec fn secondary_disabled() -> (Color, Color, Color) {
    (WHITE, SLATE_200, SLATE_300)
}

/// The outlined secondary action's (fill, edge, ink) in one state: the disabled
/// pair wins, then the hover.
pub fn secondary_inks(enabled: bool, hovered: bool) -> (r: (Color, Color, Color))
    ensures
        r == (if !enabled {
            secondary_disabled()
        } else if hovered {
            secondary_hovered()
        } else {
            secondary_rest()
        }),
{
    if !enabled {
        (WHITE, SLATE_200, SLATE_300)
    } else if hovered {
        (INDIGO_50_60, INDIGO_300, INDIGO_600)
    } else {
        (WHITE, SLATE_200, SLATE_600)
    }
}

// ===========================================================================
// Fonts
// ===========================================================================

/// Registered name of the native UI face: the Windows shell face, Segoe UI.
pub const NATIVE_UI_FACE: &'static str = "segoe-ui";
/// The Han fallback's registered name.
pub const NATIVE_HAN_FACE: &'static str = "native-han";
/// The Hangul fallback's registered name.
pub const NATIVE_HANGUL_FACE: &'static str = "native-hangul";

/// The native faces that lead the UI family, in order: the Latin face, then the
/// Han fallback, then the Hangul fallback, each only where its file read. A CJK
/// face ahead of the Latin one would take the Latin glyphs too, and the two CJK
/// faces are kept apart because neither covers the other's script.
pub open spec fn lead_faces(native: bool, han: bool, hangul: bool) -> Seq<Seq<char>> {
    let a: Seq<Seq<char>> = if native {
        seq![NATIVE_UI_FACE@]
    } else {
        Seq::empty()
    };
    let b: Seq<Seq<char>> = if han {
        seq![NATIVE_HAN_FACE@]
    } else {
        Seq::empty()
    };
    let c: Seq<Seq<char>> = if hangul {
        seq![NATIVE_HANGUL_FACE@]
    } else {
        Seq::empty()
    };
    a + b + c
}

/// The names of the native faces to put ahead of the bundled ones, in order,
/// given which of the three faces read.
pub fn font_lead(native: bool, han: bool, hangul: bool) -> (r: Vec<&'static str>)
    ensures
        Seq::new(r@.len(), |i: int| r@[i]@) == lead_faces(native, han, hangul),
{
    let mut lead: Vec<&'static str> = Vec::new();
    if native {
        lead.push(NATIVE_UI_FACE);
    }
    if han {
        lead.push(NATIVE_HAN_FACE);
    }
    if hangul {
        lead.push(NATIVE_HANGUL_FACE);
    }
    assert(Seq::new(lead@.len(), |i: int| lead@[i]@) =~= lead_faces(native, han, hangul));
    lead
}

/// The Latin face leads, then the Han fallback, then the Hangul fallback,
/// each present exactly when its file read: the list is the three faces
/// filtered by the flags, in that order.
pub proof fn the_latin_face_leads_then_han_then_hangul(native: bool, han: bool, hangul: bool)
    ensures
        ({
            let lead = lead_faces(native, han, hangul);
            let before_han: int = if native { 1 } else { 0 };
            &&& lead.len() == before_han + (if han { 1int } else { 0 }) + (if hangul { 1int } else { 0 })
            &&& native ==> lead[0] == NATIVE_UI_FACE@
            &&& han ==> lead[before_han] == NATIVE_HAN_FACE@
            &&& hangul ==> lead[lead.len() - 1] == NATIVE_HANGUL_FACE@
        }),
{
}

/// An idle card is the active card at `opacity-75`: every ink, the mode
/// label's included, is the active ink dimmed; an active and a hovered card
/// draw alike; and hovering the name box turns the name and the pencil
/// indigo-600 whatever the card's state, leaving the rest as it was.
pub proof fn an_idle_card_is_the_active_card_dimmed(state: SlotState, mode: SocdMode, hovering: bool)
    ensures
        ({
            let active = slot_ink_of(SlotState::Active, false);
            let idle = slot_ink_of(SlotState::Idle, false);
            &&& idle.name == dimmed(active.name)
            &&& idle.pencil == dimmed(active.pencil)
            &&& idle.chip_label == dimmed(active.chip_label)
            &&& idle.chip_edge == dimmed(active.chip_edge)
            &&& idle.hairline == dimmed(active.hairline)
        }),
        slot_ink_of(SlotState::Hovered, hovering) == slot_ink_of(SlotState::Active, hovering),
        ({
            let plain = slot_ink_of(state, false);
            let hovered = slot_ink_of(state, true);
            &&& hovered.name == INDIGO_600 && hovered.pencil == INDIGO_600
            &&& hovered.chip_label == plain.chip_label && hovered.chip_edge == plain.chip_edge
            &&& hovered.hairline == plain.hairline
        }),
        slot_mode_ink_of(mode, SlotState::Idle) == dimmed(slot_mode_ink_of(mode, SlotState::Active)),
        slot_mode_ink_of(mode, SlotState::Hovered) == slot_mode_ink_of(mode, SlotState::Active),
        mode == SocdMode::Immediate || mode == SocdMode::RandomMix ==> slot_mode_ink_of(mode, SlotState::Active)
            == mode_base(mode),
{
}

} // verus!
