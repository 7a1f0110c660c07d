//! The resolution and application laws of the theme layer.
//!
//! Each law is stated over the mathematical views that the executable
//! contracts use: [`ThemeState`] for a theme, [`ConfigState`] for the full
//! dynamic backend, and a plain [`Borders`] value for a compact backend.
//! The hypotheses of the form `state == theme.applied()` are exactly what
//! [`crate::theme::Theme::apply_colored`] ensures of the backend it was
//! given, whatever that backend held before the call.

use vstd::prelude::*;

use crate::border::Border;
use crate::border::Borders;
use crate::border::Color;
use crate::border::HorizontalLine;
use crate::config::ConfigState;
use crate::theme::ThemeState;

verus! {

/// Idempotence of application: a backend holds `theme.applied()` after an
/// application whatever it held before, so applying the same theme twice to
/// a fresh backend leaves exactly the state one application leaves.
pub proof fn lemma_apply_idempotent(theme: ThemeState, once: ConfigState, twice: ConfigState)
    requires
        once == theme.applied(),
        twice == theme.applied(),
    ensures
        twice == once,
{
}

/// Clear-before-set: applying theme `b` after theme `a` leaves the same
/// state as applying `b` alone to a fresh backend — no residue of `a`
/// survives, since every application clears first and rebuilds from the
/// theme alone.
pub proof fn lemma_apply_no_residue(
    a: ThemeState,
    b: ThemeState,
    after_a_then_b: ConfigState,
    after_b_alone: ConfigState,
)
    requires
        after_a_then_b == b.applied(),
        after_b_alone == b.applied(),
    ensures
        after_a_then_b == after_b_alone,
{
}

/// Color overwrite rule: after application the backend's base colors are
/// exactly the theme's color border set.  With at least one color slot set,
/// the whole color set is overwritten and the remaining slots become unset;
/// with no color slot set, the backend ends with no colors either, because
/// application clears the colors before the all-empty set is skipped.
pub proof fn lemma_color_overwrite(theme: ThemeState, after: ConfigState)
    requires
        after == theme.applied(),
    ensures
        after.colors == theme.colors,
        theme.colors.spec_is_empty() ==> after.colors == Borders::<Color>::spec_empty(),
{
}

/// Override precedence: an entry of the general horizontal map wins over
/// the line-1 shortcut, because the general map is installed after the
/// shortcut; at an index the general map does not cover, and in particular
/// at index 1 when the map has no entry there, the shortcut is in force.
pub proof fn lemma_override_precedence(theme: ThemeState, m: Map<usize, HorizontalLine<char>>)
    requires
        theme.horizontals == Some(m),
    ensures
        forall|row: usize| #[trigger]
            m.dom().contains(row) ==> theme.horizontal_at(row) == Some(m[row]),
        !m.dom().contains(1usize) ==> theme.horizontal_at(1) == theme.horizontal1,
{
}

/// Round trip: a theme read back out of a backend configuration and applied
/// to a fresh backend reproduces the source configuration's border
/// characters, colors, and both line override sets.  The line color
/// overrides are the one gap:
/// the read-back path does not read them, and application clears them.
pub proof fn lemma_round_trip(source: ConfigState, theme: ThemeState, rebuilt: ConfigState)
    requires
        theme == (ThemeState {
            chars: source.borders,
            colors: source.colors,
            horizontal1: None::<HorizontalLine<char>>,
            horizontals: Some(source.horizontals),
            verticals: Some(source.verticals),
        }),
        rebuilt == theme.applied(),
    ensures
        rebuilt.borders == source.borders,
        rebuilt.colors == source.colors,
        rebuilt.horizontals == source.horizontals,
        rebuilt.verticals == source.verticals,
{
    assert(theme.effective_horizontals() =~= source.horizontals);
}

/// Frame/slot equivalence: installing an outer frame overwrites exactly the
/// eight frame slots — reading the frame back returns it unchanged — and
/// leaves the seven interior slots as they were.
pub proof fn lemma_frame_slot_equivalence(before: Borders<char>, frame: Border<char>)
    ensures
        before.spec_with_frame(frame).spec_frame() == frame,
        before.spec_with_frame(frame).top_intersection == before.top_intersection,
        before.spec_with_frame(frame).bottom_intersection == before.bottom_intersection,
        before.spec_with_frame(frame).left_intersection == before.left_intersection,
        before.spec_with_frame(frame).right_intersection == before.right_intersection,
        before.spec_with_frame(frame).intersection == before.intersection,
        before.spec_with_frame(frame).horizontal == before.horizontal,
        before.spec_with_frame(frame).vertical == before.vertical,
{
}

/// Compact backends ignore overrides: two themes with the same character
/// border set produce identical compact-backend configurations, whatever
/// their color sets or override collections hold, since a compact
/// application installs the base characters and nothing else.
pub proof fn lemma_compact_ignores_overrides(
    a: ThemeState,
    b: ThemeState,
    after_a: Borders<char>,
    after_b: Borders<char>,
)
    requires
        a.chars == b.chars,
        after_a == a.chars,
        after_b == b.chars,
    ensures
        after_a == after_b,
{
}

} // verus!
