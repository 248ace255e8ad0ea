//! The match case, whole word and regular expression toggles: three square buttons painted inside
//! the right end of a search field. The Search view and the find bar share their geometry,
//! painting, hit-testing, Alt keys and wording.

use crate::messages::{WM_SYSCHAR, WM_SYSKEYDOWN};
use crate::geometry::{contains, Point, Rect};
use crate::palette::Palette;
use crate::panel::scale;
use vstd::prelude::*;

verus! {

pub const SIZE_AT_96_DPI: i32 = 22;

pub const GAP_AT_96_DPI: i32 = 2;

pub const RIGHT_PADDING_AT_96_DPI: i32 = 3;

/// Bit 29 of a key message's `lParam`: Alt is down.
pub const ALT_DOWN: isize = 0x2000_0000;

#[derive(Clone, Copy, Debug, PartialEq, Eq, Structural)]
pub enum SearchOption {
    Case,
    WholeWord,
    Regex,
}

#[derive(Clone, Copy, Debug, PartialEq, Eq, Structural)]
pub struct MatchOptions {
    pub case: bool,
    pub whole_word: bool,
    pub regex: bool,
}

impl Default for MatchOptions {
    fn default() -> (options: Self)
        ensures
            options == (MatchOptions { case: false, whole_word: false, regex: false }),
    {
        MatchOptions { case: false, whole_word: false, regex: false }
    }
}

impl MatchOptions {
    pub open spec fn on(self, option: SearchOption) -> bool {
        match option {
            SearchOption::Case => self.case,
            SearchOption::WholeWord => self.whole_word,
            SearchOption::Regex => self.regex,
        }
    }

    pub fn get(self, option: SearchOption) -> (on: bool)
        ensures
            on == self.on(option),
    {
        match option {
            SearchOption::Case => self.case,
            SearchOption::WholeWord => self.whole_word,
            SearchOption::Regex => self.regex,
        }
    }

    /// The options with one flipped.
    pub open spec fn flipped(self, option: SearchOption) -> MatchOptions {
        match option {
            SearchOption::Case => MatchOptions { case: !self.case, ..self },
            SearchOption::WholeWord => MatchOptions { whole_word: !self.whole_word, ..self },
            SearchOption::Regex => MatchOptions { regex: !self.regex, ..self },
        }
    }

    pub fn toggled(self, option: SearchOption) -> (options: Self)
        ensures
            options == self.flipped(option),
    {
        match option {
            SearchOption::Case => MatchOptions { case: !self.case, ..self },
            SearchOption::WholeWord => MatchOptions { whole_word: !self.whole_word, ..self },
            SearchOption::Regex => MatchOptions { regex: !self.regex, ..self },
        }
    }
}

/// The option at each toggle, from the left.
pub open spec fn option_at(index: int) -> SearchOption {
    if index == 0 {
        SearchOption::Case
    } else if index == 1 {
        SearchOption::WholeWord
    } else {
        SearchOption::Regex
    }
}

/// Toggle `index` of three inside the right end of `field`: squares with gaps between them and
/// padding on the right, centered vertically.
pub open spec fn toggle_rect(field: Rect, dpi: int, index: int) -> Rect {
    let size = crate::panel::scaled(SIZE_AT_96_DPI as int, dpi);
    let gap = crate::panel::scaled(GAP_AT_96_DPI as int, dpi);
    let top = field.top + half(field.bottom - field.top - size);
    let last = field.right - crate::panel::scaled(RIGHT_PADDING_AT_96_DPI as int, dpi);
    let right = if index == 0 {
        last - 2 * (size + gap)
    } else if index == 1 {
        last - (size + gap)
    } else {
        last
    };
    Rect {
        left: (right - size) as i32,
        top: top as i32,
        right: right as i32,
        bottom: (top + size) as i32,
    }
}

pub fn toggle_rects(field: Rect, dpi: u32) -> (rects: [Rect; 3])
    requires
        field.in_range(),
        dpi <= crate::panel::MAX_DPI,
    ensures
        forall|index: int|
            0 <= index < 3 ==> #[trigger] rects@[index] == toggle_rect(field, dpi as int, index),
{
    proof {
        crate::panel::scaled_is_bounded(SIZE_AT_96_DPI as int, dpi as int);
        crate::panel::scaled_is_bounded(GAP_AT_96_DPI as int, dpi as int);
        crate::panel::scaled_is_bounded(RIGHT_PADDING_AT_96_DPI as int, dpi as int);
    }
    let size: i32 = scale(SIZE_AT_96_DPI, dpi);
    let gap: i32 = scale(GAP_AT_96_DPI, dpi);
    let top: i32 = field.top + (field.bottom - field.top - size) / 2;
    let third: i32 = field.right - scale(RIGHT_PADDING_AT_96_DPI, dpi);
    let second: i32 = third - (size + gap);
    let first: i32 = second - (size + gap);
    [
        Rect { left: first - size, top, right: first, bottom: top + size },
        Rect { left: second - size, top, right: second, bottom: top + size },
        Rect { left: third - size, top, right: third, bottom: top + size },
    ]
}

/// How much narrower than the field the edit inside it must be: the toggles, their padding, and
/// one more gap between the text and the first toggle.
pub open spec fn reserved(dpi: int) -> int {
    3 * crate::panel::scaled(SIZE_AT_96_DPI as int, dpi) + 3 * crate::panel::scaled(
        GAP_AT_96_DPI as int,
        dpi,
    ) + crate::panel::scaled(RIGHT_PADDING_AT_96_DPI as int, dpi)
}

pub fn reserved_width(dpi: u32) -> (width: i32)
    requires
        dpi <= crate::panel::MAX_DPI,
    ensures
        width == reserved(dpi as int),
{
    proof {
        crate::panel::scaled_is_bounded(SIZE_AT_96_DPI as int, dpi as int);
        crate::panel::scaled_is_bounded(GAP_AT_96_DPI as int, dpi as int);
        crate::panel::scaled_is_bounded(RIGHT_PADDING_AT_96_DPI as int, dpi as int);
    }
    3 * scale(SIZE_AT_96_DPI, dpi) + 3 * scale(GAP_AT_96_DPI, dpi) + scale(
        RIGHT_PADDING_AT_96_DPI,
        dpi,
    )
}

/// The edit ends left of the first toggle, with a gap between them, and the toggles follow each
/// other with gaps between them.
pub proof fn toggles_never_overlap(field: Rect, dpi: int)
    requires
        field.in_range(),
        0 <= dpi <= crate::panel::MAX_DPI,
    ensures
        field.right - reserved(dpi) + crate::panel::scaled(GAP_AT_96_DPI as int, dpi)
            == toggle_rect(field, dpi, 0).left,
        toggle_rect(field, dpi, 0).right + crate::panel::scaled(GAP_AT_96_DPI as int, dpi)
            == toggle_rect(field, dpi, 1).left,
        toggle_rect(field, dpi, 1).right + crate::panel::scaled(GAP_AT_96_DPI as int, dpi)
            == toggle_rect(field, dpi, 2).left,
        toggle_rect(field, dpi, 2).right + crate::panel::scaled(RIGHT_PADDING_AT_96_DPI as int, dpi)
            == field.right,
{
    crate::panel::scaled_is_bounded(SIZE_AT_96_DPI as int, dpi);
    crate::panel::scaled_is_bounded(GAP_AT_96_DPI as int, dpi);
    crate::panel::scaled_is_bounded(RIGHT_PADDING_AT_96_DPI as int, dpi);
}

/// What a toggle reads.
pub open spec fn glyph_of(option: SearchOption) -> Seq<char> {
    match option {
        SearchOption::Case => "Aa"@,
        SearchOption::WholeWord => "ab"@,
        SearchOption::Regex => ".*"@,
    }
}

pub fn glyph(option: SearchOption) -> (glyph: &'static str)
    ensures
        glyph@ == glyph_of(option),
{
    match option {
        SearchOption::Case => "Aa",
        SearchOption::WholeWord => "ab",
        SearchOption::Regex => ".*",
    }
}

/// How one toggle is painted: an optional fill, then its glyph. The whole-word glyph is
/// underlined.
#[derive(Clone, Copy, Debug, PartialEq, Eq, Structural)]
pub struct ToggleLook {
    pub option: SearchOption,
    pub rect: Rect,
    pub background: Option<u32>,
    pub color: u32,
    pub underlined: bool,
}

/// How the toggle of `option` looks: on is filled with the color that outlines focused fields, a
/// hovered one that is off is shaded, and one that is off is left clear.
pub open spec fn look_of(
    option: SearchOption,
    rect: Rect,
    options: MatchOptions,
    hover: Option<SearchOption>,
    palette: Palette,
) -> ToggleLook {
    let (background, color) = if options.on(option) {
        (
            Some(palette.selection_background),
            match palette.selection_foreground {
                Some(color) => color,
                None => palette.editor_foreground,
            },
        )
    } else if hover == Some(option) {
        (Some(palette.hover_background), palette.hover_foreground)
    } else {
        (None, palette.muted_foreground)
    };
    ToggleLook {
        option,
        rect,
        background,
        color,
        underlined: option == SearchOption::WholeWord,
    }
}

fn toggle_look(
    option: SearchOption,
    rect: Rect,
    options: MatchOptions,
    hover: Option<SearchOption>,
    palette: &Palette,
) -> (look: ToggleLook)
    ensures
        look == look_of(option, rect, options, hover, *palette),
{
    let (background, color): (Option<u32>, u32) = if options.get(option) {
        (
            Some(palette.selection_background),
            match palette.selection_foreground {
                Some(color) => color,
                None => palette.editor_foreground,
            },
        )
    } else if hover == Some(option) {
        (Some(palette.hover_background), palette.hover_foreground)
    } else {
        (None, palette.muted_foreground)
    };
    ToggleLook {
        option,
        rect,
        background,
        color,
        underlined: option == SearchOption::WholeWord,
    }
}

/// The toggles to paint into `rects`, from the left.
pub fn paint(
    rects: &[Rect; 3],
    options: MatchOptions,
    hover: Option<SearchOption>,
    palette: &Palette,
) -> (looks: [ToggleLook; 3])
    ensures
        forall|index: int|
            0 <= index < 3 ==> #[trigger] looks@[index] == look_of(
                option_at(index),
                rects@[index],
                options,
                hover,
                *palette,
            ),
{
    [
        toggle_look(SearchOption::Case, rects[0], options, hover, palette),
        toggle_look(SearchOption::WholeWord, rects[1], options, hover, palette),
        toggle_look(SearchOption::Regex, rects[2], options, hover, palette),
    ]
}

/// A font's measures: the height of a line and how far its letters rise above the base line.
#[derive(Clone, Copy, Debug, PartialEq, Eq, Structural)]
pub struct FontMetrics {
    pub height: i32,
    pub ascent: i32,
}

/// Half of `room`, rounded towards zero.
pub open spec fn half(room: int) -> int {
    if room >= 0 {
        room / 2
    } else {
        -((-room) / 2)
    }
}

/// Where the line under centered text is.
pub open spec fn line_under(rect: Rect, width: int, metrics: Option<FontMetrics>) -> Option<Rect> {
    match metrics {
        Some(font) if width > 0 => {
            let y = rect.top + half(rect.bottom - rect.top - font.height) + font.ascent + 1;
            let left = rect.left + half(rect.right - rect.left - width);
            Some(
                Rect {
                    left: left as i32,
                    top: y as i32,
                    right: (left + width) as i32,
                    bottom: (y + 1) as i32,
                },
            )
        },
        _ => None,
    }
}

/// A 1 px line under text `width` wide that is centered in `rect`. Unmeasured or empty text has
/// none.
pub fn underline(rect: Rect, width: i32, metrics: Option<FontMetrics>) -> (line: Option<Rect>)
    requires
        rect.in_range(),
        metrics matches Some(font) ==> 0 <= font.height <= crate::geometry::MAX_COORDINATE && 0
            <= font.ascent <= crate::geometry::MAX_COORDINATE,
        width <= crate::geometry::MAX_COORDINATE,
    ensures
        line == line_under(rect, width as int, metrics),
{
    match metrics {
        Some(font) => {
            if width <= 0 {
                return None;
            }
            let top: i32 = rect.top + (rect.bottom - rect.top - font.height) / 2;
            let y: i32 = top + font.ascent + 1;
            let left: i32 = rect.left + (rect.right - rect.left - width) / 2;
            Some(Rect { left, top: y, right: left + width, bottom: y + 1 })
        },
        None => None,
    }
}

/// The toggle of `field` that holds the pixel at (`x`, `y`).
pub open spec fn toggle_under(field: Rect, dpi: int, x: int, y: int) -> Option<SearchOption> {
    if toggle_rect(field, dpi, 0).has(x, y) {
        Some(SearchOption::Case)
    } else if toggle_rect(field, dpi, 1).has(x, y) {
        Some(SearchOption::WholeWord)
    } else if toggle_rect(field, dpi, 2).has(x, y) {
        Some(SearchOption::Regex)
    } else {
        None
    }
}

/// The toggle of `rects`, from the left, that holds the pixel at (`x`, `y`).
pub open spec fn option_under(rects: Seq<Rect>, x: int, y: int) -> Option<SearchOption> {
    if rects[0].has(x, y) {
        Some(SearchOption::Case)
    } else if rects[1].has(x, y) {
        Some(SearchOption::WholeWord)
    } else if rects[2].has(x, y) {
        Some(SearchOption::Regex)
    } else {
        None
    }
}

/// The toggle under `point`, if any.
pub fn hit(rects: &[Rect; 3], point: Point) -> (option: Option<SearchOption>)
    ensures
        option == option_under(rects@, point.x as int, point.y as int),
{
    if contains(rects[0], point.x, point.y) {
        Some(SearchOption::Case)
    } else if contains(rects[1], point.x, point.y) {
        Some(SearchOption::WholeWord)
    } else if contains(rects[2], point.x, point.y) {
        Some(SearchOption::Regex)
    } else {
        None
    }
}

/// The option of an Alt letter key.
pub open spec fn option_of_key(vk: u32) -> Option<SearchOption> {
    if vk == 'C' as u32 {
        Some(SearchOption::Case)
    } else if vk == 'W' as u32 {
        Some(SearchOption::WholeWord)
    } else if vk == 'R' as u32 {
        Some(SearchOption::Regex)
    } else {
        None
    }
}

/// The toggle an Alt+`vk` flips: Alt+C, Alt+W and Alt+R.
pub fn alt_key(vk: u32) -> (option: Option<SearchOption>)
    ensures
        option == option_of_key(vk),
{
    if vk == 'C' as u32 {
        Some(SearchOption::Case)
    } else if vk == 'W' as u32 {
        Some(SearchOption::WholeWord)
    } else if vk == 'R' as u32 {
        Some(SearchOption::Regex)
    } else {
        None
    }
}

/// The toggle that a message's Alt letter flips.
pub open spec fn alt_toggle(message: u32, wparam: usize, lparam: isize) -> Option<SearchOption> {
    if message == WM_SYSKEYDOWN && lparam & ALT_DOWN != 0 && wparam <= u32::MAX {
        option_of_key(wparam as u32)
    } else {
        None
    }
}

/// The toggle a key message flips: only a `WM_SYSKEYDOWN` for C, W or R with Alt held. F10 also
/// arrives as `WM_SYSKEYDOWN`, without Alt.
pub fn alt_option(message: u32, wparam: usize, lparam: isize) -> (option: Option<SearchOption>)
    ensures
        option == alt_toggle(message, wparam, lparam),
{
    if message != WM_SYSKEYDOWN || lparam & ALT_DOWN == 0 {
        return None;
    }
    if wparam as u64 > u32::MAX as u64 {
        return None;
    }
    alt_key(wparam as u32)
}

/// The letter of an Alt shortcut, in either case.
pub open spec fn is_toggle_letter(code: int) -> bool {
    code == 'c' as u32 || code == 'C' as u32 || code == 'w' as u32 || code == 'W' as u32 || code
        == 'r' as u32 || code == 'R' as u32
}

/// A message is the character that follows a toggle's Alt letter.
pub open spec fn swallowed(message: u32, wparam: usize, lparam: isize) -> bool {
    message == WM_SYSCHAR && lparam & ALT_DOWN != 0 && is_toggle_letter(wparam as int)
}

/// Whether a message is the `WM_SYSCHAR` that follows a toggle's Alt letter, which must be
/// swallowed: the menu band would beep, or open a menu with that mnemonic.
pub fn is_toggle_char(message: u32, wparam: usize, lparam: isize) -> (swallow: bool)
    ensures
        swallow == swallowed(message, wparam, lparam),
{
    if message != WM_SYSCHAR || lparam & ALT_DOWN == 0 || wparam > 'z' as usize {
        return false;
    }
    let code: u32 = wparam as u32;
    let upper: u32 = if code >= 'a' as u32 {
        code - 32
    } else {
        code
    };
    alt_key(upper).is_some()
}

/// The toggle's name, as screen readers read it.
pub open spec fn label_of(option: SearchOption) -> Seq<char> {
    match option {
        SearchOption::Case => "Match case"@,
        SearchOption::WholeWord => "Match whole word"@,
        SearchOption::Regex => "Use regular expression"@,
    }
}

pub fn label(option: SearchOption) -> (label: &'static str)
    ensures
        label@ == label_of(option),
{
    match option {
        SearchOption::Case => "Match case",
        SearchOption::WholeWord => "Match whole word",
        SearchOption::Regex => "Use regular expression",
    }
}

/// The toggle's tooltip: its name and its shortcut.
pub open spec fn tip_of(option: SearchOption) -> Seq<char> {
    match option {
        SearchOption::Case => "Match case (Alt+C)"@,
        SearchOption::WholeWord => "Match whole word (Alt+W)"@,
        SearchOption::Regex => "Use regular expression (Alt+R)"@,
    }
}

pub fn tooltip(option: SearchOption) -> (tip: &'static str)
    ensures
        tip@ == tip_of(option),
{
    match option {
        SearchOption::Case => "Match case (Alt+C)",
        SearchOption::WholeWord => "Match whole word (Alt+W)",
        SearchOption::Regex => "Use regular expression (Alt+R)",
    }
}

/// Flipping an option twice gives the options back, and flipping one leaves the others alone.
pub proof fn toggling_twice_changes_nothing(
    options: MatchOptions,
    option: SearchOption,
    other: SearchOption,
)
    ensures
        options.flipped(option).flipped(option) == options,
        options.flipped(option).on(option) == !options.on(option),
        other != option ==> options.flipped(option).on(other) == options.on(other),
{
}

} // verus!
