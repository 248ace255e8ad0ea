//! How the Search view is painted: its field and lines, its results, and a result's snippet with
//! the match in bold.

use crate::drawing::{draw_text, fill, Align, DrawStep, Font, Step};
use crate::geometry::Rect;
use crate::list_paint::{draw_list, RowPainter};
use crate::option_toggles::{self, glyph, toggle_rects, ToggleLook};
use crate::palette::Palette;
use crate::panel::{inset, scale};
use crate::row_list::{self, row_foreground, row_muted, ListPlan, RowListState, RowLook, RowSlot};
use crate::search_lines::{Snippet, TextHit};
use crate::search_view::{
    SearchView, PADDING_AT_96_DPI, ROW_INSET_AT_96_DPI, ROW_LINE_AT_96_DPI,
};
use crate::text::{chars_of, text_of};
use vstd::prelude::*;

verus! {

pub const GLYPH_AT_96_DPI: i32 = 20;

pub const GAP_AT_96_DPI: i32 = 6;

/// The symbol of a document.
pub const DOCUMENT_GLYPH: &'static str = "\u{E8A5}";

/// A snippet in three: the text before its match, the match, and the text after.
#[derive(Debug, PartialEq, Eq)]
pub struct SnippetParts {
    pub before: String,
    pub matched: String,
    pub after: String,
}

/// The bytes a character takes in UTF-8.
pub open spec fn byte_width(ch: char) -> nat {
    if (ch as u32) < 0x80 {
        1
    } else if (ch as u32) < 0x800 {
        2
    } else if (ch as u32) < 0x1_0000 {
        3
    } else {
        4
    }
}

fn char_bytes(ch: char) -> (bytes: usize)
    ensures
        bytes == byte_width(ch),
{
    if (ch as u32) < 0x80 {
        1
    } else if (ch as u32) < 0x800 {
        2
    } else if (ch as u32) < 0x1_0000 {
        3
    } else {
        4
    }
}

/// The bytes a text takes in UTF-8.
pub open spec fn bytes_in(text: Seq<char>) -> nat
    decreases text.len(),
{
    if text.len() == 0 {
        0
    } else {
        bytes_in(text.drop_last()) + byte_width(text.last())
    }
}

/// How many characters of a text come before its byte `at`; `None` inside a character or past the
/// end.
pub open spec fn boundary(text: Seq<char>, at: nat) -> Option<int> {
    if exists|count: int| is_boundary(text, at, count) {
        Some(choose|count: int| is_boundary(text, at, count))
    } else {
        None
    }
}

/// The first `count` characters of `text` take `at` bytes.
pub open spec fn is_boundary(text: Seq<char>, at: nat, count: int) -> bool {
    0 <= count <= text.len() && bytes_in(text.take(count)) == at
}

proof fn more_characters_take_more_bytes(text: Seq<char>, few: int, many: int)
    requires
        0 <= few < many <= text.len(),
    ensures
        bytes_in(text.take(few)) < bytes_in(text.take(many)),
    decreases many,
{
    let now = text.take(many);
    assert(now.drop_last() == text.take(many - 1));
    if few < many - 1 {
        more_characters_take_more_bytes(text, few, many - 1);
    }
}

proof fn boundaries_are_unique(text: Seq<char>, at: nat, count: int)
    requires
        is_boundary(text, at, count),
    ensures
        boundary(text, at) == Some(count),
{
    let other = boundary(text, at)->0;
    assert(is_boundary(text, at, other));
    if other < count {
        more_characters_take_more_bytes(text, other, count);
    } else if count < other {
        more_characters_take_more_bytes(text, count, other);
    }
}

/// How many characters come before byte `at`.
fn chars_before(chars: &Vec<char>, at: usize) -> (count: Option<usize>)
    ensures
        match count {
            Some(count) => boundary(chars@, at as nat) == Some(count as int) && count <= chars.len(),
            None => boundary(chars@, at as nat) is None,
        },
{
    let mut left: usize = at;
    let mut count: usize = 0;
    assert(chars@.take(0) == Seq::<char>::empty());
    while count < chars.len()
        invariant
            count <= chars.len(),
            bytes_in(chars@.take(count as int)) + left == at,
            forall|i: int| 0 <= i < count ==> bytes_in(#[trigger] chars@.take(i)) < at,
        decreases chars.len() - count,
    {
        if left == 0 {
            proof {
                boundaries_are_unique(chars@, at as nat, count as int);
            }
            return Some(count);
        }
        let ghost now = chars@.take(count + 1);
        assert(now.drop_last() == chars@.take(count as int));
        let bytes: usize = char_bytes(chars[count]);
        if bytes > left {
            proof {
                no_boundary_between(chars@, at as nat, count as int);
            }
            return None;
        }
        left = left - bytes;
        count = count + 1;
    }
    if left == 0 {
        proof {
            boundaries_are_unique(chars@, at as nat, count as int);
        }
        Some(count)
    } else {
        assert forall|i: int| !is_boundary(chars@, at as nat, i) by {}
        None
    }
}

proof fn no_boundary_between(text: Seq<char>, at: nat, count: int)
    requires
        0 <= count < text.len(),
        bytes_in(text.take(count)) < at < bytes_in(text.take(count + 1)),
    ensures
        boundary(text, at) is None,
{
    assert forall|i: int| !is_boundary(text, at, i) by {
        if is_boundary(text, at, i) {
            if i < count {
                more_characters_take_more_bytes(text, i, count);
            } else if i > count + 1 {
                more_characters_take_more_bytes(text, count + 1, i);
            }
        }
    }
}

/// A snippet's parts; `None` where its match is no range of whole characters.
pub open spec fn parts_of(snippet: Snippet) -> Option<(Seq<char>, Seq<char>, Seq<char>)> {
    let text = snippet.text@;
    match (boundary(text, snippet.start as nat), boundary(text, snippet.end as nat)) {
        (Some(start), Some(end)) if start <= end => Some(
            (
                text.subrange(0, start),
                text.subrange(start, end),
                text.subrange(end, text.len() as int),
            ),
        ),
        _ => None,
    }
}

/// Splits a snippet around its match.
pub fn split_snippet(snippet: &Snippet) -> (parts: Option<SnippetParts>)
    ensures
        parts_of(*snippet) == (match parts {
            Some(parts) => Some((parts.before@, parts.matched@, parts.after@)),
            None => None,
        }),
{
    let chars = chars_of(snippet.text.as_str());
    match (chars_before(&chars, snippet.start), chars_before(&chars, snippet.end)) {
        (Some(start), Some(end)) => if start <= end {
            Some(
                SnippetParts {
                    before: text_of(&chars, 0, start),
                    matched: text_of(&chars, start, end),
                    after: text_of(&chars, end, chars.len()),
                },
            )
        } else {
            None
        },
        _ => None,
    }
}

/// The three parts of a snippet make up its text again.
pub proof fn parts_make_the_text(snippet: Snippet)
    requires
        parts_of(snippet) is Some,
    ensures
        ({
            let (before, matched, after) = parts_of(snippet)->0;
            before + matched + after == snippet.text@ && bytes_in(before) == snippet.start
        }),
{
    let text = snippet.text@;
    let start = boundary(text, snippet.start as nat)->0;
    let end = boundary(text, snippet.end as nat)->0;
    assert(is_boundary(text, snippet.start as nat, start));
    assert(is_boundary(text, snippet.end as nat, end));
    assert(text.subrange(0, start) == text.take(start));
    assert(text.subrange(0, start) + text.subrange(start, end) + text.subrange(
        end,
        text.len() as int,
    ) =~= text);
}

/// The room in `rect` for the text before a match this wide.
pub open spec fn left_before(rect: Rect, matched_width: int) -> int {
    let available = vstd::math::max(rect.right - rect.left, 0);
    vstd::math::max(available - matched_width, available / 3)
}

/// The room for the text before a match: what the match leaves, and at least a third.
pub fn room_before(rect: Rect, matched_width: i32) -> (room: i32)
    requires
        rect.drawable(),
        matched_width >= 0,
    ensures
        room == left_before(rect, matched_width as int),
{
    let available: i32 = (rect.right - rect.left).max(0);
    (available - matched_width).max(available / 3)
}

/// The part of a measured width that `rect` has room for.
pub open spec fn width_in(measured: int, rect: Rect) -> int {
    vstd::math::max(vstd::math::min(measured, rect.right - rect.left), 0)
}

/// The width a text takes in `rect` that measures `measured`: at most the rectangle's.
pub fn drawn_width(measured: i32, rect: Rect) -> (width: i32)
    requires
        rect.drawable(),
    ensures
        width == width_in(measured as int, rect),
{
    measured.min(rect.right - rect.left).max(0)
}

/// `rect` from `left` on.
pub open spec fn from_left(rect: Rect, left: int) -> Rect {
    Rect { left: left as i32, ..rect }
}

/// A snippet's line: the text before its match, the match in bold, and the text after, each where
/// the one before ended, while there is room.
pub open spec fn snippet_steps(
    before: Seq<char>,
    matched: Seq<char>,
    after: Seq<char>,
    before_width: int,
    matched_width: int,
    rect: Rect,
    color: u32,
) -> Seq<crate::drawing::StepModel> {
    let first = rect.left + before_width;
    let second = first + matched_width;
    let lead = seq![
        Step::Text { text: before, rect, font: Font::Text, color, align: Align::Tabbed },
    ];
    let hit = if first < rect.right {
        lead.push(
            Step::Text {
                text: matched,
                rect: from_left(rect, first),
                font: Font::TextBold,
                color,
                align: Align::TabbedLine,
            },
        )
    } else {
        lead
    };
    let left = if first < rect.right {
        second
    } else {
        first
    };
    if left < rect.right {
        hit.push(
            Step::Text {
                text: after,
                rect: from_left(rect, left),
                font: Font::Text,
                color,
                align: Align::TabbedLine,
            },
        )
    } else {
        hit
    }
}

/// Draws a result's snippet, its match in bold. `before` is the text before the match as it fits
/// (`fit_before`); the widths are what drawing `before` and the match took.
pub fn draw_snippet(
    drawn: &mut Vec<DrawStep>,
    before: &str,
    matched: &str,
    after: &str,
    before_width: i32,
    matched_width: i32,
    rect: Rect,
    color: u32,
)
    requires
        rect.drawable(),
        0 <= before_width <= crate::geometry::MAX_COORDINATE,
        0 <= matched_width <= crate::geometry::MAX_COORDINATE,
    ensures
        crate::drawing::steps(final(drawn)@) == crate::drawing::steps(old(drawn)@) + snippet_steps(
            before@,
            matched@,
            after@,
            before_width as int,
            matched_width as int,
            rect,
            color,
        ),
{
    let mut left: i32 = rect.left;
    draw_text(drawn, before, rect, Font::Text, color, Align::Tabbed);
    left = left + before_width;
    if left < rect.right {
        draw_text(
            drawn,
            matched,
            Rect { left, top: rect.top, right: rect.right, bottom: rect.bottom },
            Font::TextBold,
            color,
            Align::TabbedLine,
        );
        left = left + matched_width;
    }
    if left < rect.right {
        draw_text(
            drawn,
            after,
            Rect { left, top: rect.top, right: rect.right, bottom: rect.bottom },
            Font::Text,
            color,
            Align::TabbedLine,
        );
    }
    assert(crate::drawing::steps(drawn@) =~= crate::drawing::steps(old(drawn)@) + snippet_steps(
        before@,
        matched@,
        after@,
        before_width as int,
        matched_width as int,
        rect,
        color,
    ));
}

/// Draws a snippet whose match is no range of its text, plain.
pub fn draw_plain_snippet(drawn: &mut Vec<DrawStep>, text: &str, rect: Rect, color: u32)
    ensures
        crate::drawing::steps(final(drawn)@) == crate::drawing::steps(old(drawn)@).push(
            Step::Text { text: text@, rect, font: Font::Text, color, align: Align::TabbedLine },
        ),
{
    draw_text(drawn, text, rect, Font::Text, color, Align::TabbedLine);
}

/// Where a result's parts are in its row: the icon, its name's line and its snippet's.
pub struct RowBoxes {
    pub glyph: Rect,
    pub text: Rect,
    pub second: Rect,
}

/// A result's icon, left of its name and snippet.
pub open spec fn glyph_box(rect: Rect, dpi: int) -> Rect {
    let pad = crate::panel::scaled(PADDING_AT_96_DPI as int, dpi);
    let top = rect.top + crate::panel::scaled(ROW_INSET_AT_96_DPI as int, dpi);
    Rect {
        left: (rect.left + pad) as i32,
        top: top as i32,
        right: (rect.left + pad + crate::panel::scaled(GLYPH_AT_96_DPI as int, dpi)) as i32,
        bottom: (top + crate::panel::scaled(ROW_LINE_AT_96_DPI as int, dpi)) as i32,
    }
}

/// A result's name and folder.
pub open spec fn name_box(rect: Rect, dpi: int) -> Rect {
    let glyph = glyph_box(rect, dpi);
    Rect {
        left: (glyph.right + crate::panel::scaled(GAP_AT_96_DPI as int, dpi)) as i32,
        right: (rect.right - crate::panel::scaled(PADDING_AT_96_DPI as int, dpi)) as i32,
        ..glyph
    }
}

/// A result's snippet, under its name.
pub open spec fn snippet_box(rect: Rect, dpi: int) -> Rect {
    let name = name_box(rect, dpi);
    Rect {
        top: name.bottom,
        bottom: (name.bottom + crate::panel::scaled(ROW_LINE_AT_96_DPI as int, dpi)) as i32,
        ..name
    }
}

pub fn row_boxes(rect: Rect, dpi: u32) -> (boxes: RowBoxes)
    requires
        rect.drawable(),
        dpi <= crate::panel::MAX_DPI,
    ensures
        boxes.glyph == glyph_box(rect, dpi as int),
        boxes.text == name_box(rect, dpi as int),
        boxes.second == snippet_box(rect, dpi as int),
{
    proof {
        crate::panel::scaled_is_bounded(PADDING_AT_96_DPI as int, dpi as int);
        crate::panel::scaled_is_bounded(ROW_INSET_AT_96_DPI as int, dpi as int);
        crate::panel::scaled_is_bounded(ROW_LINE_AT_96_DPI as int, dpi as int);
        crate::panel::scaled_is_bounded(GLYPH_AT_96_DPI as int, dpi as int);
        crate::panel::scaled_is_bounded(GAP_AT_96_DPI as int, dpi as int);
    }
    let pad: i32 = scale(PADDING_AT_96_DPI, dpi);
    let slot: i32 = scale(ROW_LINE_AT_96_DPI, dpi);
    let top: i32 = rect.top + scale(ROW_INSET_AT_96_DPI, dpi);
    let glyph = Rect {
        left: rect.left + pad,
        top,
        right: rect.left + pad + scale(GLYPH_AT_96_DPI, dpi),
        bottom: top + slot,
    };
    let text = Rect {
        left: glyph.right + scale(GAP_AT_96_DPI, dpi),
        top,
        right: rect.right - pad,
        bottom: glyph.bottom,
    };
    let second = Rect {
        left: text.left,
        top: text.bottom,
        right: text.right,
        bottom: text.bottom + slot,
    };
    RowBoxes { glyph, text, second }
}

/// A result's first line: the file icon, the name, and its folder in dim text after it.
pub open spec fn row_steps(
    hit: TextHit,
    rect: Rect,
    look: RowLook,
    palette: Palette,
    dpi: int,
    name_width: int,
) -> Seq<crate::drawing::StepModel> {
    let name = name_box(rect, dpi);
    let muted = crate::row_list::muted_of(look, palette);
    let named = seq![
        Step::Text {
            text: DOCUMENT_GLYPH@,
            rect: glyph_box(rect, dpi),
            font: Font::Glyph,
            color: muted,
            align: Align::Centered,
        },
        Step::Text {
            text: hit.name@,
            rect: name,
            font: Font::Text,
            color: crate::row_list::foreground_of(look, palette),
            align: Align::Line,
        },
    ];
    if hit.folder@.len() == 0 {
        named
    } else {
        named.push(
            Step::Text {
                text: hit.folder@,
                rect: from_left(
                    name,
                    name.left + name_width + crate::panel::scaled(GAP_AT_96_DPI as int, dpi),
                ),
                font: Font::Text,
                color: muted,
                align: Align::Line,
            },
        )
    }
}

/// What measuring a result's texts gave: how wide its name is drawn, the text before its match as
/// it fits (`fit_before`), and how wide that and the match are drawn.
#[derive(Debug, PartialEq, Eq)]
pub struct RowText {
    pub name_width: i32,
    pub before: String,
    pub before_width: i32,
    pub matched_width: i32,
}

impl RowText {
    pub open spec fn wf(self) -> bool {
        &&& 0 <= self.name_width <= crate::geometry::MAX_COORDINATE
        &&& 0 <= self.before_width <= crate::geometry::MAX_COORDINATE
        &&& 0 <= self.matched_width <= crate::geometry::MAX_COORDINATE
    }
}

/// A result's second line: its snippet with the match in bold, or plain where no match is marked.
pub open spec fn second_steps(hit: TextHit, text: RowText, rect: Rect, color: u32) -> Seq<
    crate::drawing::StepModel,
> {
    match parts_of(hit.snippet) {
        Some((_, matched, after)) => snippet_steps(
            text.before@,
            matched,
            after,
            text.before_width as int,
            text.matched_width as int,
            rect,
            color,
        ),
        None => seq![
            Step::Text {
                text: hit.snippet.text@,
                rect,
                font: Font::Text,
                color,
                align: Align::TabbedLine,
            },
        ],
    }
}

fn draw_second(drawn: &mut Vec<DrawStep>, hit: &TextHit, text: &RowText, rect: Rect, color: u32)
    requires
        rect.drawable(),
        text.wf(),
    ensures
        crate::drawing::steps(final(drawn)@) == crate::drawing::steps(old(drawn)@) + second_steps(
            *hit,
            *text,
            rect,
            color,
        ),
{
    match split_snippet(&hit.snippet) {
        Some(parts) => draw_snippet(
            drawn,
            text.before.as_str(),
            parts.matched.as_str(),
            parts.after.as_str(),
            text.before_width,
            text.matched_width,
            rect,
            color,
        ),
        None => {
            draw_plain_snippet(drawn, hit.snippet.text.as_str(), rect, color);
            assert(crate::drawing::steps(drawn@) =~= crate::drawing::steps(old(drawn)@)
                + second_steps(*hit, *text, rect, color));
        },
    }
}

proof fn results_are_drawable(
    area: Rect,
    list: RowListState,
    palette: Palette,
    focused: bool,
    offset: int,
    dpi: int,
)
    requires
        list.wf(),
        area.in_range(),
        0 <= offset < crate::row_list::painted(area, list, palette, focused).len(),
        0 <= dpi <= crate::panel::MAX_DPI,
    ensures
        ({
            let rect = crate::row_list::painted(area, list, palette, focused)[offset].rect;
            rect.drawable() && snippet_box(rect, dpi).drawable()
        }),
{
    let row = list.row_height as int;
    let height = area.bottom - area.top;
    let fits = (height + row - 1) / row;
    assert(offset * row < height && 0 <= offset * row) by (nonlinear_arith)
        requires
            0 <= offset < fits,
            fits == (height + row - 1) / row,
            0 < row,
            0 < height,
    ;
    crate::panel::scaled_is_bounded(PADDING_AT_96_DPI as int, dpi);
    crate::panel::scaled_is_bounded(ROW_INSET_AT_96_DPI as int, dpi);
    crate::panel::scaled_is_bounded(ROW_LINE_AT_96_DPI as int, dpi);
    crate::panel::scaled_is_bounded(GLYPH_AT_96_DPI as int, dpi);
    crate::panel::scaled_is_bounded(GAP_AT_96_DPI as int, dpi);
}

/// The rows of the results, measured in `texts` from the first in view on.
struct ResultRows<'a> {
    view: &'a SearchView,
    texts: &'a Vec<RowText>,
    palette: &'a Palette,
    dpi: u32,
}

impl<'a> RowPainter for ResultRows<'a> {
    closed spec fn draws(&self, slot: RowSlot) -> bool {
        let place = slot.index - self.view.list.top;
        &&& slot.index < self.view.results.len()
        &&& 0 <= place < self.texts.len() && self.texts@[place].wf()
        &&& slot.rect.drawable() && snippet_box(slot.rect, self.dpi as int).drawable()
        &&& self.dpi <= crate::panel::MAX_DPI
    }

    closed spec fn row(&self) -> spec_fn(RowSlot) -> Seq<crate::drawing::StepModel> {
        self.view.result_row(*self.palette, self.dpi as int, self.texts@)
    }

    fn draw(&self, drawn: &mut Vec<DrawStep>, slot: &RowSlot) {
        let ghost start = crate::drawing::steps(drawn@);
        let text = &self.texts[slot.index - self.view.list.top];
        self.view.draw_row(
            drawn,
            slot.index,
            slot.rect,
            slot.look,
            self.palette,
            self.dpi,
            text.name_width,
        );
        let rect = row_boxes(slot.rect, self.dpi).second;
        let color: u32 = row_foreground(slot.look, self.palette);
        draw_second(drawn, &self.view.results[slot.index], text, rect, color);
        assert(crate::drawing::steps(drawn@) =~= start + self.row()(*slot));
    }
}

impl SearchView {
    /// One result: its name and folder, then its snippet. `texts` measures the results in view.
    pub open spec fn result_row(self, palette: Palette, dpi: int, texts: Seq<RowText>) -> spec_fn(
        RowSlot,
    ) -> Seq<crate::drawing::StepModel> {
        |slot: RowSlot|
            row_steps(
                self.results@[slot.index as int],
                slot.rect,
                slot.look,
                palette,
                dpi,
                texts[slot.index - self.list.top].name_width as int,
            ) + second_steps(
                self.results@[slot.index as int],
                texts[slot.index - self.list.top],
                snippet_box(slot.rect, dpi),
                crate::row_list::foreground_of(slot.look, palette),
            )
    }

    /// Paints the results, the list's rows that `paint` gave measured in `texts`.
    pub fn paint_results(
        &self,
        drawn: &mut Vec<DrawStep>,
        client: Rect,
        dpi: u32,
        palette: &Palette,
        focused: bool,
        texts: &Vec<RowText>,
    )
        requires
            self.wf(),
            crate::geometry::roomy(client),
            dpi <= crate::panel::MAX_DPI,
            texts.len() == crate::row_list::painted(
                self.area(client, dpi),
                self.list,
                *palette,
                focused,
            ).len(),
            forall|i: int| 0 <= i < texts.len() ==> (#[trigger] texts@[i]).wf(),
        ensures
            crate::drawing::steps(final(drawn)@) == crate::drawing::steps(old(drawn)@)
                + crate::list_paint::list_steps(
                self.area(client, dpi),
                self.list,
                *palette,
                focused,
                self.result_row(*palette, dpi as int, texts@),
            ),
    {
        let area = self.list_area(client, dpi);
        let rows = ResultRows { view: self, texts, palette, dpi };
        assert forall|i: int|
            0 <= i < crate::row_list::painted(area, self.list, *palette, focused).len() implies rows.draws(
            #[trigger] crate::row_list::painted(area, self.list, *palette, focused)[i],
        ) by {
            crate::row_list::painted_rows_are_in_view(area, self.list, *palette, focused, i);
            results_are_drawable(area, self.list, *palette, focused, i, dpi as int);
            assert(texts@[i].wf());
        }
        draw_list(drawn, area, &self.list, palette, focused, &rows);
    }

    /// One result's first line: the file icon, the name and its folder in dim text. `name_width`
    /// is what drawing the name took.
    pub fn draw_row(
        &self,
        drawn: &mut Vec<DrawStep>,
        index: usize,
        rect: Rect,
        look: RowLook,
        palette: &Palette,
        dpi: u32,
        name_width: i32,
    )
        requires
            rect.drawable(),
            dpi <= crate::panel::MAX_DPI,
            0 <= name_width <= crate::geometry::MAX_COORDINATE,
        ensures
            crate::drawing::steps(final(drawn)@) == crate::drawing::steps(old(drawn)@) + (if index
                < self.results.len() {
                row_steps(
                    self.results@[index as int],
                    rect,
                    look,
                    *palette,
                    dpi as int,
                    name_width as int,
                )
            } else {
                Seq::empty()
            }),
    {
        if index >= self.results.len() {
            return;
        }
        proof {
            crate::panel::scaled_is_bounded(PADDING_AT_96_DPI as int, dpi as int);
            crate::panel::scaled_is_bounded(GLYPH_AT_96_DPI as int, dpi as int);
            crate::panel::scaled_is_bounded(GAP_AT_96_DPI as int, dpi as int);
        }
        let hit = &self.results[index];
        let boxes = row_boxes(rect, dpi);
        let foreground: u32 = row_foreground(look, palette);
        let muted: u32 = row_muted(look, palette);
        draw_text(drawn, DOCUMENT_GLYPH, boxes.glyph, Font::Glyph, muted, Align::Centered);
        draw_text(drawn, hit.name.as_str(), boxes.text, Font::Text, foreground, Align::Line);
        if !hit.folder.as_str().is_empty() {
            let left: i32 = boxes.text.left + name_width + scale(GAP_AT_96_DPI, dpi);
            draw_text(
                drawn,
                hit.folder.as_str(),
                Rect {
                    left,
                    top: boxes.text.top,
                    right: boxes.text.right,
                    bottom: boxes.text.bottom,
                },
                Font::Text,
                muted,
                Align::Line,
            );
        }
        assert(crate::drawing::steps(drawn@) =~= crate::drawing::steps(old(drawn)@) + row_steps(
            self.results@[index as int],
            rect,
            look,
            *palette,
            dpi as int,
            name_width as int,
        ));
    }

    /// The background, and the field with its toggles once the box exists.
    pub open spec fn field_steps(self, client: Rect, dpi: int, palette: Palette, background: u32) -> Seq<
        crate::drawing::StepModel,
    > {
        let field = crate::search_view::field_box(client, dpi);
        let first = seq![Step::Fill { rect: client, color: background }];
        if self.box_made {
            first.push(Step::Fill { rect: field, color: palette.selection_background }).push(
                Step::Fill { rect: inner(field), color: palette.editor_background },
            ) + toggle_steps(self.toggle_look(0, field, dpi, palette)) + toggle_steps(
                self.toggle_look(1, field, dpi, palette),
            ) + toggle_steps(self.toggle_look(2, field, dpi, palette))
        } else {
            first
        }
    }

    /// The notice, or the summary and status lines that show.
    pub open spec fn line_steps(self, client: Rect, dpi: int, palette: Palette) -> Seq<
        crate::drawing::StepModel,
    > {
        match self.notice_shown() {
            Some(notice) => seq![
                line_step(
                    notice,
                    crate::search_view::summary_box(client, dpi),
                    palette.muted_foreground,
                ),
            ],
            None => {
                let summary = match self.shown().lines().0 {
                    Some((text, error)) => seq![
                        line_step(
                            text,
                            crate::search_view::summary_box(client, dpi),
                            if error {
                                palette.error_foreground
                            } else {
                                palette.muted_foreground
                            },
                        ),
                    ],
                    None => Seq::empty(),
                };
                match self.shown().lines().1 {
                    Some(text) => summary.push(
                        line_step(
                            text,
                            crate::search_view::status_box(client, dpi),
                            palette.muted_foreground,
                        ),
                    ),
                    None => summary,
                }
            },
        }
    }

    /// How toggle `index` looks.
    pub open spec fn toggle_look(self, index: int, field: Rect, dpi: int, palette: Palette) -> ToggleLook {
        crate::option_toggles::look_of(
            crate::option_toggles::option_at(index),
            crate::option_toggles::toggle_rect(field, dpi, index),
            self.options,
            self.toggle_hover,
            palette,
        )
    }

    /// What the view paints: the field and its toggles once the box exists, then the notice, or
    /// the summary and status lines and the results. The rows are listed here, to be measured, and
    /// painted by `paint_results`.
    pub fn paint(
        &self,
        client: Rect,
        dpi: u32,
        palette: &Palette,
        background: u32,
        focused: bool,
    ) -> (painted: (Vec<DrawStep>, Option<ListPlan>))
        requires
            self.wf(),
            crate::geometry::roomy(client),
            dpi <= crate::panel::MAX_DPI,
        ensures
            crate::drawing::steps(painted.0@) == self.field_steps(
                client,
                dpi as int,
                *palette,
                background,
            ) + self.line_steps(client, dpi as int, *palette),
            match painted.1 {
                Some(plan) => {
                    &&& self.notice_shown() is None
                    &&& plan.rows@ == crate::row_list::painted(
                        self.area(client, dpi),
                        self.list,
                        *palette,
                        focused,
                    )
                    &&& plan.thumb == crate::row_list::painted_thumb(
                        self.area(client, dpi),
                        self.list,
                    )
                },
                None => self.notice_shown() is Some,
            },
    {
        let mut drawn = self.draw_field(client, dpi, palette, background);
        self.draw_lines(&mut drawn, client, dpi, palette);
        if self.notice().is_some() {
            return (drawn, None);
        }
        let area = self.list_area(client, dpi);
        (drawn, Some(row_list::paint(area, &self.list, palette, focused)))
    }

    fn draw_field(&self, client: Rect, dpi: u32, palette: &Palette, background: u32) -> (drawn: Vec<
        DrawStep,
    >)
        requires
            crate::geometry::roomy(client),
            dpi <= crate::panel::MAX_DPI,
        ensures
            crate::drawing::steps(drawn@) == self.field_steps(
                client,
                dpi as int,
                *palette,
                background,
            ),
    {
        let mut drawn: Vec<DrawStep> = Vec::new();
        assert(crate::drawing::steps(drawn@) == Seq::<crate::drawing::StepModel>::empty());
        fill(&mut drawn, client, background);
        assert(crate::drawing::steps(drawn@) == seq![
            Step::<Seq<char>>::Fill { rect: client, color: background },
        ]);
        if self.box_made {
            let field = SearchView::field_rect(client, dpi);
            fill(&mut drawn, field, palette.selection_background);
            fill(&mut drawn, inset(field, 1), palette.editor_background);
            let rects = toggle_rects(field, dpi);
            let looks = option_toggles::paint(&rects, self.options, self.toggle_hover, palette);
            draw_toggle(&mut drawn, &looks[0]);
            draw_toggle(&mut drawn, &looks[1]);
            draw_toggle(&mut drawn, &looks[2]);
        }
        drawn
    }

    fn draw_lines(&self, drawn: &mut Vec<DrawStep>, client: Rect, dpi: u32, palette: &Palette)
        requires
            self.wf(),
            crate::geometry::roomy(client),
            dpi <= crate::panel::MAX_DPI,
        ensures
            crate::drawing::steps(final(drawn)@) == crate::drawing::steps(old(drawn)@)
                + self.line_steps(client, dpi as int, *palette),
    {
        let ghost start = crate::drawing::steps(drawn@);
        let summary = SearchView::summary_rect(client, dpi);
        if let Some(notice) = self.notice() {
            draw_text(drawn, notice, summary, Font::Text, palette.muted_foreground, Align::Line);
            assert(crate::drawing::steps(drawn@) =~= start + self.line_steps(
                client,
                dpi as int,
                *palette,
            ));
            return;
        }
        if let Some((text, error)) = self.summary() {
            let color: u32 = if error {
                palette.error_foreground
            } else {
                palette.muted_foreground
            };
            draw_text(drawn, text.as_str(), summary, Font::Text, color, Align::Line);
        }
        if let Some(status) = self.status_line() {
            draw_text(
                drawn,
                status.as_str(),
                SearchView::status_rect(client, dpi),
                Font::Text,
                palette.muted_foreground,
                Align::Line,
            );
        }
        assert(crate::drawing::steps(drawn@) =~= start + self.line_steps(
            client,
            dpi as int,
            *palette,
        ));
    }
}

/// A line of text.
pub open spec fn line_step(text: Seq<char>, rect: Rect, color: u32) -> crate::drawing::StepModel {
    Step::Text { text, rect, font: Font::Text, color, align: Align::Line }
}

/// A rectangle without its 1 px border.
pub open spec fn inner(rect: Rect) -> Rect {
    Rect {
        left: (rect.left + 1) as i32,
        top: (rect.top + 1) as i32,
        right: (rect.right - 1) as i32,
        bottom: (rect.bottom - 1) as i32,
    }
}

/// A toggle's fill, where it has one, and its glyph.
pub open spec fn toggle_steps(look: ToggleLook) -> Seq<crate::drawing::StepModel> {
    let text = Step::Text {
        text: crate::option_toggles::glyph_of(look.option),
        rect: look.rect,
        font: Font::Text,
        color: look.color,
        align: if look.underlined {
            Align::Underlined
        } else {
            Align::Centered
        },
    };
    match look.background {
        Some(color) => seq![Step::Fill { rect: look.rect, color }, text],
        None => seq![text],
    }
}

fn draw_toggle(drawn: &mut Vec<DrawStep>, look: &ToggleLook)
    ensures
        crate::drawing::steps(final(drawn)@) == crate::drawing::steps(old(drawn)@) + toggle_steps(
            *look,
        ),
{
    if let Some(color) = look.background {
        fill(drawn, look.rect, color);
    }
    let align = if look.underlined {
        Align::Underlined
    } else {
        Align::Centered
    };
    draw_text(drawn, glyph(look.option), look.rect, Font::Text, look.color, align);
    assert(crate::drawing::steps(drawn@) =~= crate::drawing::steps(old(drawn)@) + toggle_steps(
        *look,
    ));
}

} // verus!
