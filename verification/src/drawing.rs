//! What a view draws, as a list of steps in the order they are painted. The views decide what is
//! drawn where and in which color; the program carries the steps out.

use crate::geometry::Rect;
use vstd::prelude::*;

verus! {

/// The sidebar's fonts.
#[derive(Clone, Copy, Debug, PartialEq, Eq, Structural)]
pub enum Font {
    Text,
    TextBold,
    /// Small bold capitals.
    Bold,
    Italic,
    /// The symbol font.
    Glyph,
}

/// How a text lies in its rectangle.
#[derive(Clone, Copy, Debug, PartialEq, Eq, Structural)]
pub enum Align {
    /// One line from the left, centered vertically, cut with an ellipsis.
    Line,
    /// One line, centered both ways.
    Centered,
    /// Wrapped at words, from the top left.
    Wrapped,
    /// One line, centered both ways, underlined.
    Underlined,
    /// One line from the left with its tabs expanded, centered vertically.
    Tabbed,
    /// As `Tabbed`, cut with an ellipsis.
    TabbedLine,
}

/// What an icon stands for: a folder, or a note of the type its extension gives.
#[derive(Debug, PartialEq, Eq)]
pub enum Item<T> {
    Folder { expanded: bool },
    Note(Option<T>),
}

/// An icon's item with its extension as text.
pub type TreeItem = Item<String>;

/// An icon's item with its extension as characters.
pub type ItemModel = Item<Seq<char>>;

pub open spec fn item_model(item: TreeItem) -> ItemModel {
    match item {
        Item::Folder { expanded } => Item::Folder { expanded },
        Item::Note(extension) => Item::Note(crate::text::maybe(extension)),
    }
}

/// An optional icon's item, its extension as characters.
pub open spec fn maybe_item(item: Option<TreeItem>) -> Option<ItemModel> {
    match item {
        Some(item) => Some(item_model(item)),
        None => None,
    }
}

/// One step of painting, over texts of type `T`.
#[derive(Debug, PartialEq, Eq)]
pub enum Step<T> {
    Fill { rect: Rect, color: u32 },
    Text { text: T, rect: Rect, font: Font, color: u32, align: Align },
    /// The item's icon, `px` square, centered in `rect` and clipped to it. `muted` is every icon's
    /// color in high contrast.
    Icon { item: Item<T>, rect: Rect, px: i32, muted: u32 },
    /// Later steps draw inside `rect` only, until `Unclip`.
    Clip { rect: Rect },
    Unclip,
}

pub type DrawStep = Step<String>;

pub type StepModel = Step<Seq<char>>;

pub open spec fn step_model(step: DrawStep) -> StepModel {
    match step {
        Step::Fill { rect, color } => Step::Fill { rect, color },
        Step::Text { text, rect, font, color, align } => Step::Text {
            text: text@,
            rect,
            font,
            color,
            align,
        },
        Step::Icon { item, rect, px, muted } => Step::Icon {
            item: item_model(item),
            rect,
            px,
            muted,
        },
        Step::Clip { rect } => Step::Clip { rect },
        Step::Unclip => Step::Unclip,
    }
}

/// The steps, their texts as characters.
pub open spec fn steps(drawn: Seq<DrawStep>) -> Seq<StepModel> {
    drawn.map_values(|step: DrawStep| step_model(step))
}

pub fn put(drawn: &mut Vec<DrawStep>, step: DrawStep)
    ensures
        steps(final(drawn)@) == steps(old(drawn)@).push(step_model(step)),
{
    let ghost before = drawn@;
    drawn.push(step);
    assert(steps(drawn@) == steps(before).push(step_model(step)));
}

pub fn fill(drawn: &mut Vec<DrawStep>, rect: Rect, color: u32)
    ensures
        steps(final(drawn)@) == steps(old(drawn)@).push(Step::Fill { rect, color }),
{
    put(drawn, Step::Fill { rect, color });
}

pub fn draw_text(
    drawn: &mut Vec<DrawStep>,
    text: &str,
    rect: Rect,
    font: Font,
    color: u32,
    align: Align,
)
    ensures
        steps(final(drawn)@) == steps(old(drawn)@).push(
            Step::Text { text: text@, rect, font, color, align },
        ),
{
    put(drawn, Step::Text { text: text.to_owned(), rect, font, color, align });
}

pub fn draw_icon(drawn: &mut Vec<DrawStep>, item: TreeItem, rect: Rect, px: i32, muted: u32)
    ensures
        steps(final(drawn)@) == steps(old(drawn)@).push(
            Step::Icon { item: item_model(item), rect, px, muted },
        ),
{
    put(drawn, Step::Icon { item, rect, px, muted });
}

} // verus!
