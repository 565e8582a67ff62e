use vstd::prelude::*;

use crate::color::{darken, darken_spec, Rgb8};
use crate::palette::{Palette, PaletteView};

verus! {

/// Which persisted theme entry is meant: the dark one or the light one.
#[derive(Clone, Copy, Debug, PartialEq, Eq, Structural)]
pub enum ThemeKind {
    Dark,
    Light,
}

/// The four theme color fields derived from a palette: accent,
/// background, text tint and neutral tint.
#[derive(Clone, Copy, Debug, PartialEq, Eq, Structural)]
pub struct ThemeFields {
    pub accent: Rgb8,
    pub background: Rgb8,
    pub text_tint: Rgb8,
    pub neutral_tint: Rgb8,
}

/// The full plan for one theme application: which base entry to read,
/// and the four field values to patch into it.
#[derive(Clone, Copy, Debug, PartialEq, Eq, Structural)]
pub struct ThemePlan {
    /// The base default theme and builder entry selected from the
    /// caller's dark-or-light request.
    pub base_entry: ThemeKind,
    pub fields: ThemeFields,
}

/// The palette's designated background/neutral slot: the extractor
/// fills it with the built scheme's secondary container color, the
/// color the neutral tint is taken from.
pub const NEUTRAL_SLOT: usize = 12;

/// The four independent field transforms: accent is slot five as it is;
/// background is slot one darkened by the fixed factor of three tenths;
/// text tint is slot six as it is; neutral tint is the designated
/// background/neutral slot as it is.
pub open spec fn theme_fields_spec(p: PaletteView) -> ThemeFields {
    ThemeFields {
        accent: p.slots[5],
        background: darken_spec(p.slots[1]),
        text_tint: p.slots[6],
        neutral_tint: p.slots[NEUTRAL_SLOT as int],
    }
}

/// The entry kind a dark-or-light flag selects.
pub open spec fn entry_kind_spec(is_dark: bool) -> ThemeKind {
    if is_dark {
        ThemeKind::Dark
    } else {
        ThemeKind::Light
    }
}

/// The whole mapping a palette and a dark-or-light flag determine.
pub open spec fn theme_plan_spec(p: PaletteView, is_dark: bool) -> ThemePlan {
    ThemePlan { base_entry: entry_kind_spec(is_dark), fields: theme_fields_spec(p) }
}

/// Map a palette into the four theme color fields.
pub fn map_theme_fields(p: &Palette) -> (r: ThemeFields)
    requires
        p.wf(),
    ensures
        r == theme_fields_spec(p@),
{
    ThemeFields {
        accent: p.slot(5),
        background: darken(p.slot(1)),
        text_tint: p.slot(6),
        neutral_tint: p.slot(NEUTRAL_SLOT),
    }
}

/// Select the base default theme and builder entry for the caller's
/// dark-or-light request.
pub fn base_entry_kind(is_dark: bool) -> (r: ThemeKind)
    ensures
        r == entry_kind_spec(is_dark),
{
    if is_dark {
        ThemeKind::Dark
    } else {
        ThemeKind::Light
    }
}

/// Select the persisted entry the built theme is written back to. The
/// built theme's own darkness decides, which may disagree with the flag
/// that selected the base entry.
pub fn write_back_kind(built_is_dark: bool) -> (r: ThemeKind)
    ensures
        r == entry_kind_spec(built_is_dark),
{
    base_entry_kind(built_is_dark)
}

/// Plan one theme application from a palette and a dark-or-light flag.
pub fn plan_theme(p: &Palette, is_dark: bool) -> (r: ThemePlan)
    requires
        p.wf(),
    ensures
        r == theme_plan_spec(p@, is_dark),
{
    ThemePlan { base_entry: base_entry_kind(is_dark), fields: map_theme_fields(p) }
}

/// Theme mapping determinism: equal palettes and equal dark-or-light
/// flags always give bit-identical theme plans.
pub proof fn lemma_theme_mapping_deterministic(
    p1: PaletteView,
    dark1: bool,
    p2: PaletteView,
    dark2: bool,
)
    requires
        p1 == p2,
        dark1 == dark2,
    ensures
        theme_plan_spec(p1, dark1) == theme_plan_spec(p2, dark2),
{
}

} // verus!
