//! How an item's icon is drawn: from a bitmap in its own colors, or as a mask in the color of the
//! item's type, which high contrast replaces. What a set has for an item, and whether a bitmap could
//! be drawn, comes from outside.

use crate::palette::{FileIcons, IconColor, Palette};
use vstd::prelude::*;

verus! {

/// What an icon set has for an item.
#[derive(Clone, Copy, Debug, PartialEq, Eq, Structural)]
pub enum IconShape {
    /// A bitmap in its own colors.
    Image,
    /// A mask, drawn in one role's color.
    Mask(IconColor),
}

/// What is drawn next for an icon.
#[derive(Clone, Copy, Debug, PartialEq, Eq, Structural)]
pub enum IconStep {
    /// The set's bitmap.
    Image,
    /// The shape's mask, in this color.
    Mask(u32),
    /// What the minimal set has for the item.
    Minimal,
    Done,
}

/// A mask's color. A type icon keeps its role's on a selected or hovered row; in high contrast
/// every icon has the row's muted color.
pub open spec fn mask_color(role: IconColor, muted: u32, palette: Palette, icons: FileIcons) -> u32 {
    if palette.high_contrast {
        muted
    } else {
        icons.role(role)
    }
}

pub fn icon_color(role: IconColor, muted: u32, palette: &Palette, icons: &FileIcons) -> (color: u32)
    ensures
        color == mask_color(role, muted, *palette, *icons),
{
    if palette.high_contrast {
        muted
    } else {
        icons.color(role)
    }
}

/// What is drawn first for an icon.
pub open spec fn icon_step(
    shape: IconShape,
    muted: u32,
    palette: Palette,
    icons: FileIcons,
) -> IconStep {
    match shape {
        IconShape::Image => IconStep::Image,
        IconShape::Mask(role) => IconStep::Mask(mask_color(role, muted, palette, icons)),
    }
}

/// How the icon that a set has for an item is drawn: its bitmap is tried, its mask is drawn.
pub fn draw_item_icon(
    shape: IconShape,
    muted: u32,
    palette: &Palette,
    icons: &FileIcons,
) -> (step: IconStep)
    ensures
        step == icon_step(shape, muted, *palette, *icons),
{
    match shape {
        IconShape::Image => IconStep::Image,
        IconShape::Mask(role) => IconStep::Mask(icon_color(role, muted, palette, icons)),
    }
}

/// What is drawn after a bitmap was tried.
pub open spec fn step_after_image(drawn: bool) -> IconStep {
    if drawn {
        IconStep::Done
    } else {
        IconStep::Minimal
    }
}

/// What follows a bitmap: one that could not be drawn gives way to the minimal icon.
pub fn image_tried(drawn: bool) -> (step: IconStep)
    ensures
        step == step_after_image(drawn),
{
    if drawn {
        IconStep::Done
    } else {
        IconStep::Minimal
    }
}

/// What is drawn for a minimal icon.
pub open spec fn minimal_step(
    shape: IconShape,
    muted: u32,
    palette: Palette,
    icons: FileIcons,
) -> IconStep {
    match shape {
        IconShape::Image => IconStep::Done,
        IconShape::Mask(role) => IconStep::Mask(mask_color(role, muted, palette, icons)),
    }
}

/// How the minimal icon is drawn. It is a mask: no bitmap is tried again.
pub fn draw_minimal_icon(
    shape: IconShape,
    muted: u32,
    palette: &Palette,
    icons: &FileIcons,
) -> (step: IconStep)
    ensures
        step == minimal_step(shape, muted, *palette, *icons),
{
    match draw_item_icon(shape, muted, palette, icons) {
        IconStep::Image => IconStep::Done,
        step => step,
    }
}

/// In high contrast every mask is drawn in the row's muted color, whatever its role and the icons'
/// colors.
pub proof fn high_contrast_masks_are_muted(
    role: IconColor,
    muted: u32,
    palette: Palette,
    icons: FileIcons,
)
    requires
        palette.high_contrast,
    ensures
        mask_color(role, muted, palette, icons) == muted,
{
}

} // verus!
