//! A list as steps of painting: clipped to its area, each row in view over its background, then
//! the scroll thumb.

use crate::drawing::{fill, put, DrawStep, Step};
use crate::geometry::Rect;
use crate::palette::Palette;
use crate::row_list::{self, RowListState, RowSlot};
use vstd::prelude::*;

verus! {

/// What fills a row before it is drawn.
pub open spec fn background_steps(slot: RowSlot) -> Seq<crate::drawing::StepModel> {
    match slot.background {
        Some(color) => seq![Step::Fill { rect: slot.rect, color }],
        None => Seq::empty(),
    }
}

/// The first `count` rows, each drawn by `row` over its background.
pub open spec fn rows_steps(
    slots: Seq<RowSlot>,
    row: spec_fn(RowSlot) -> Seq<crate::drawing::StepModel>,
    count: nat,
) -> Seq<crate::drawing::StepModel>
    decreases count,
{
    if count == 0 {
        Seq::empty()
    } else {
        let slot = slots[count - 1];
        rows_steps(slots, row, (count - 1) as nat) + background_steps(slot) + row(slot)
    }
}

pub open spec fn thumb_steps(thumb: Option<Rect>, palette: Palette) -> Seq<
    crate::drawing::StepModel,
> {
    match thumb {
        Some(rect) => seq![Step::Fill { rect, color: palette.line_number_foreground }],
        None => Seq::empty(),
    }
}

/// A whole list; nothing in an empty area.
pub open spec fn list_steps(
    area: Rect,
    state: crate::row_list::RowListState,
    palette: Palette,
    focused: bool,
    row: spec_fn(RowSlot) -> Seq<crate::drawing::StepModel>,
) -> Seq<crate::drawing::StepModel> {
    if area.bottom <= area.top || area.right <= area.left {
        Seq::empty()
    } else {
        let slots = crate::row_list::painted(area, state, palette, focused);
        seq![Step::Clip { rect: area }] + rows_steps(slots, row, slots.len()) + thumb_steps(
            crate::row_list::painted_thumb(area, state),
            palette,
        ) + seq![Step::Unclip]
    }
}

/// What draws the rows of a list.
pub trait RowPainter {
    /// A row that can be drawn in this slot.
    spec fn draws(&self, slot: RowSlot) -> bool;

    /// What each row is drawn as, over its background.
    spec fn row(&self) -> spec_fn(RowSlot) -> Seq<crate::drawing::StepModel>;

    fn draw(&self, drawn: &mut Vec<DrawStep>, slot: &RowSlot)
        requires
            self.draws(*slot),
        ensures
            crate::drawing::steps(final(drawn)@) == crate::drawing::steps(old(drawn)@) + self.row()(
                *slot,
            ),
    ;
}

fn draw_background(drawn: &mut Vec<DrawStep>, slot: &RowSlot)
    ensures
        crate::drawing::steps(final(drawn)@) == crate::drawing::steps(old(drawn)@)
            + background_steps(*slot),
{
    let ghost start = crate::drawing::steps(drawn@);
    if let Some(color) = slot.background {
        fill(drawn, slot.rect, color);
    }
    assert(crate::drawing::steps(drawn@) =~= start + background_steps(*slot));
}

/// The thumb, and the end of the clipping.
fn end_list(drawn: &mut Vec<DrawStep>, thumb: Option<Rect>, palette: &Palette)
    ensures
        crate::drawing::steps(final(drawn)@) == crate::drawing::steps(old(drawn)@) + thumb_steps(
            thumb,
            *palette,
        ) + seq![Step::Unclip],
{
    let ghost start = crate::drawing::steps(drawn@);
    if let Some(rect) = thumb {
        fill(drawn, rect, palette.line_number_foreground);
    }
    put(drawn, Step::Unclip);
    assert(crate::drawing::steps(drawn@) =~= start + thumb_steps(thumb, *palette) + seq![
        Step::Unclip,
    ]);
}

/// Draws the list that `state` keeps in `area`.
pub fn draw_list<P: RowPainter>(
    drawn: &mut Vec<DrawStep>,
    area: Rect,
    state: &RowListState,
    palette: &Palette,
    focused: bool,
    painter: &P,
)
    requires
        state.wf(),
        area.in_range(),
        forall|i: int|
            0 <= i < row_list::painted(area, *state, *palette, focused).len() ==> painter.draws(
                #[trigger] row_list::painted(area, *state, *palette, focused)[i],
            ),
    ensures
        crate::drawing::steps(final(drawn)@) == crate::drawing::steps(old(drawn)@) + list_steps(
            area,
            *state,
            *palette,
            focused,
            painter.row(),
        ),
{
    let ghost start = crate::drawing::steps(drawn@);
    let ghost row = painter.row();
    let ghost slots = row_list::painted(area, *state, *palette, focused);
    if area.bottom <= area.top || area.right <= area.left {
        assert(start =~= start + list_steps(area, *state, *palette, focused, row));
        return;
    }
    let plan = row_list::paint(area, state, palette, focused);
    put(drawn, Step::Clip { rect: area });
    let mut at: usize = 0;
    let ghost clipped = start + seq![Step::Clip { rect: area }];
    assert(crate::drawing::steps(drawn@) =~= clipped + rows_steps(slots, row, 0));
    while at < plan.rows.len()
        invariant
            plan.rows@ == slots,
            row == painter.row(),
            forall|i: int| 0 <= i < slots.len() ==> painter.draws(#[trigger] slots[i]),
            at <= plan.rows.len(),
            crate::drawing::steps(drawn@) == clipped + rows_steps(slots, row, at as nat),
        decreases plan.rows.len() - at,
    {
        let slot = plan.rows[at];
        assert(slot == slots[at as int]);
        draw_background(drawn, &slot);
        painter.draw(drawn, &slot);
        at = at + 1;
        assert(crate::drawing::steps(drawn@) =~= clipped + rows_steps(slots, row, at as nat));
    }
    end_list(drawn, plan.thumb, palette);
    assert(crate::drawing::steps(drawn@) =~= start + list_steps(
        area,
        *state,
        *palette,
        focused,
        row,
    ));
}

} // verus!
