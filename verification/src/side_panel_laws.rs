//! What the sidebar keeps as it opens, closes and is resized, who gets the panel's messages, and
//! what the status line, the icons and the blended colors come to.

use crate::geometry::{Point, Rect};
use crate::item_icon::{IconShape, IconStep};
use crate::messages::{
    VK_ESCAPE, WM_CAPTURECHANGED, WM_CHAR, WM_KEYDOWN, WM_LBUTTONDBLCLK, WM_LBUTTONDOWN,
    WM_LBUTTONUP, WM_MOUSEMOVE, WM_MOUSEWHEEL, WM_PAINT, WM_SYSCHAR, WM_SYSKEYDOWN,
};
use crate::notification::Notification;
use crate::palette::{FileIcons, IconColor, Palette};
use crate::side_panel::{
    PanelStep, PanelView, Presence, Sidebar, SidebarView, WM_COMMAND, WM_SETCURSOR,
};
use crate::sidebar_accessibility::WM_FASTPAD_SIDEBAR_ACTION;
use vstd::prelude::*;

verus! {

/// A width is kept where it is in the panel's range and moved to the nearer end where it is not.
pub proof fn widths_stay_in_range(width: int)
    ensures
        ({
            let kept = crate::side_panel::in_width_range(width);
            &&& 180 <= kept <= 480
            &&& 180 <= width <= 480 ==> kept == width
            &&& width < 180 ==> kept == 180
            &&& width > 480 ==> kept == 480
        }),
{
}

/// Where there is room for it beside the editor's minimum, an open panel is as wide as is stored;
/// a wider one is never narrower than a narrower one; and the bar has its width before either.
pub proof fn the_panel_is_as_wide_as_stored(client: int, dpi: int, width: int, wider: int)
    requires
        0 <= client,
        96 <= dpi <= crate::panel::MAX_DPI,
        180 <= width <= wider <= 480,
    ensures
        ({
            let bar = crate::side_panel::activity_width(client, dpi);
            let panel = crate::side_panel::panel_width(client, dpi, width);
            let wanted = crate::panel::scaled(width, dpi);
            &&& crate::panel::scaled(44, dpi) + wanted + crate::panel::scaled(320, dpi) <= client
                ==> panel == wanted && bar == crate::panel::scaled(44, dpi)
            &&& panel <= wanted
            &&& panel <= crate::side_panel::panel_width(client, dpi, wider)
            &&& crate::panel::scaled(44, dpi) <= client ==> bar == crate::panel::scaled(44, dpi)
            &&& crate::panel::scaled(44, dpi) > client ==> bar == client && panel == 0
        }),
{
    crate::panel::scaled_is_bounded(44, dpi);
    crate::panel::scaled_is_bounded(320, dpi);
    crate::panel::scaled_is_bounded(width, dpi);
    crate::panel::scaling_is_monotone(width, wider, dpi, dpi);
}

/// The editor starts right of the bar while the panel is closed, and right of the panel while it is
/// open; while its edge is dragged, right of where the edge is.
pub proof fn the_editor_starts_where_the_sidebar_ends(sidebar: Sidebar, client: int, dpi: int)
    ensures
        ({
            let bar = crate::side_panel::activity_width(client, dpi);
            &&& sidebar.view == SidebarView::Hidden ==> sidebar.edge(client, dpi) == bar
            &&& sidebar.view != SidebarView::Hidden && sidebar.drag_width is None ==> sidebar.edge(
                client,
                dpi,
            ) == bar + crate::side_panel::panel_width(client, dpi, sidebar.width as int)
            &&& sidebar.drag_width matches Some(width) ==> (sidebar.view != SidebarView::Hidden
                ==> sidebar.edge(client, dpi) == bar + crate::side_panel::panel_width(
                client,
                dpi,
                width as int,
            ))
        }),
{
}

/// A drag to the right never narrows the panel, and every drag leaves it in its range.
pub proof fn a_drag_to_the_right_widens(a: int, b: int, dpi: int)
    requires
        a <= b,
        0 <= dpi,
    ensures
        180 <= crate::side_panel::dragged_width(a, dpi) <= crate::side_panel::dragged_width(b, dpi)
            <= 480,
{
    let dots = vstd::math::max(dpi, 1);
    vstd::arithmetic::div_mod::lemma_div_is_ordered(
        vstd::math::max(a, 0) * 96 + dots / 2,
        vstd::math::max(b, 0) * 96 + dots / 2,
        dots,
    );
}

/// Showing a view shows it and remembers it as the one to reopen; closing the panel remembers what
/// it was. The setting is saved exactly where it changed.
pub proof fn a_shown_view_is_the_one_to_reopen(
    sidebar: Sidebar,
    view: SidebarView,
    focus: bool,
    inside: bool,
    stale: bool,
)
    ensures
        ({
            let (plan, after) = sidebar.showing(view, focus, inside, stale);
            &&& after.view == view
            &&& view != SidebarView::Hidden ==> after.last_view == view
            &&& view == SidebarView::Hidden ==> after.last_view == sidebar.last_view
            &&& plan.save <==> sidebar.view != view
            &&& !after.showing(view, focus, inside, stale).0.save
            &&& after.width == sidebar.width && after.drag_width == sidebar.drag_width
                && after.bar_focus == sidebar.bar_focus
        }),
{
}

/// The keyboard goes into a panel that shows where that was asked for, and back to the editor from
/// one that closes under it; never both.
pub proof fn the_keyboard_follows_the_panel(
    sidebar: Sidebar,
    view: SidebarView,
    focus: bool,
    inside: bool,
    stale: bool,
)
    ensures
        ({
            let plan = sidebar.showing(view, focus, inside, stale).0;
            &&& plan.focus_panel <==> focus && view != SidebarView::Hidden
            &&& plan.focus_editor <==> inside && view == SidebarView::Hidden
            &&& !(plan.focus_panel && plan.focus_editor)
            &&& plan.rebuild <==> stale && view == SidebarView::Notebook
            &&& plan.search <==> view == SidebarView::Search
        }),
{
}

/// Toggling a panel that shows closes it, and toggling one that is closed shows what was shown
/// last, whatever was shown before that.
pub proof fn toggling_closes_and_reopens(
    sidebar: Sidebar,
    view: SidebarView,
    inside: bool,
    stale: bool,
)
    requires
        view != SidebarView::Hidden,
    ensures
        ({
            let shown = sidebar.showing(view, false, inside, stale).1;
            let closed = shown.showing(shown.toggled(), false, inside, stale).1;
            let again = closed.showing(closed.toggled(), false, inside, stale).1;
            &&& closed.view == SidebarView::Hidden
            &&& again.view == view
            &&& again == shown
        }),
{
}

/// The view of the settings is the one to reopen, once it was read.
pub proof fn a_read_view_is_the_one_to_reopen(sidebar: Sidebar)
    ensures
        sidebar.remembered().view == sidebar.view,
        sidebar.view != SidebarView::Hidden ==> sidebar.remembered().last_view == sidebar.view,
        sidebar.view == SidebarView::Hidden ==> sidebar.remembered() == sidebar,
        sidebar.remembered().width == sidebar.width,
{
}

/// A press on the edge changes no width; the drag lays the panel out at the pointer; the release
/// stores that width, once, and saves it exactly where it differs from what was stored.
pub proof fn a_drag_stores_its_last_width(sidebar: Sidebar, x: int, dpi: int)
    requires
        sidebar.drag_width is None,
        0 <= dpi,
    ensures
        ({
            let held = sidebar.grabbed();
            let (told, moved) = held.dragged_to(x, dpi);
            let (saved, after) = moved.resized();
            let width = crate::side_panel::dragged_width(x, dpi);
            &&& held.live_width() == sidebar.live_width()
            &&& held.resized().0 matches Some(still) && !still.save
            &&& told.0
            &&& told.1 <==> width != sidebar.width
            &&& moved.live_width() == width
            &&& moved.width == sidebar.width
            &&& saved matches Some(stored) && stored.width == width && (stored.save <==> width
                != sidebar.width)
            &&& after == (Sidebar { width: width as u16, ..sidebar })
            &&& after.resized() == (None::<crate::side_panel::WidthSaved>, after)
            &&& sidebar.dragged_to(x, dpi) == ((false, false), sidebar)
        }),
{
    a_drag_to_the_right_widens(x, x, dpi);
}

/// A width that is set is stored, and saved exactly where it differs.
pub proof fn a_set_width_is_stored(sidebar: Sidebar, width: u16)
    ensures
        ({
            let (saved, after) = sidebar.with_width(width);
            &&& saved.width == width
            &&& saved.save <==> sidebar.width != width
            &&& after == (Sidebar { width, ..sidebar })
            &&& !after.with_width(width).0.save
        }),
{
}

/// Each view has its own button, and the panel shows a view exactly where it has one; a change of
/// view tells of the two buttons it changes, and of none where it changes nothing.
pub proof fn buttons_stand_for_views(a: SidebarView, b: SidebarView, button: usize)
    ensures
        crate::side_panel::button_of(a) is None <==> a == SidebarView::Hidden,
        crate::side_panel::button_of(a) is Some <==> PanelView::for_setting(a) is Some,
        a != b && a != SidebarView::Hidden ==> crate::side_panel::button_of(a)
            != crate::side_panel::button_of(b),
        a != b && b != SidebarView::Hidden ==> PanelView::for_setting(a) != PanelView::for_setting(
            b,
        ),
        crate::side_panel::repressed(a, a).len() == 0,
        a != b ==> (crate::side_panel::repressed(a, b).contains(button) <==> Some(button)
            == crate::side_panel::button_of(a) || Some(button) == crate::side_panel::button_of(b)),
        crate::side_panel::button_of(a) matches Some(place) ==> place < 3,
{
    let told = crate::side_panel::repressed(a, b);
    if a != b {
        if Some(button) == crate::side_panel::button_of(a) {
            assert(told[0] == button);
        }
        if Some(button) == crate::side_panel::button_of(b) {
            assert(told[told.len() - 1] == button);
        }
    }
}

/// The strip that resizes the panel is its last columns, as wide as its scaled width; it is never
/// caption. The rest of the header is, where no control of the view is, and nothing below it.
pub proof fn the_edge_and_the_header_are_apart(
    client: Rect,
    dpi: int,
    point: Point,
    on_control: Option<bool>,
)
    requires
        client.in_range(),
        96 <= dpi <= crate::panel::MAX_DPI,
    ensures
        ({
            let caption = crate::side_panel::is_caption(client, dpi, point, on_control);
            let edge = crate::side_panel::on_grip(client, dpi, point.x as int);
            &&& edge <==> 0 < client.right - point.x <= crate::panel::scaled(4, dpi)
            &&& !(caption && edge)
            &&& on_control != Some(false) ==> !caption
            &&& point.y < 0 || point.y >= crate::panel::scaled(38, dpi) ==> !caption
            &&& on_control == Some(false) && 0 <= point.y < crate::panel::scaled(38, dpi) && !edge
                ==> caption
        }),
{
    crate::panel::scaled_is_bounded(4, dpi);
    crate::panel::scaled_is_bounded(38, dpi);
}

/// A point is on a header's controls exactly where one of them holds it.
pub proof fn a_control_holds_its_points(rects: Seq<Rect>, index: int, x: int, y: int)
    requires
        0 <= index < rects.len(),
    ensures
        rects[index].has(x, y) ==> crate::side_panel::any_holds(rects, x, y),
        !crate::side_panel::any_holds(rects, x, y) ==> !rects[index].has(x, y),
{
}

/// The line beside the editor is the panel's last column, where it has one.
pub proof fn the_hairline_is_the_last_column(client: Rect)
    requires
        client.in_range(),
        client.left < client.right,
    ensures
        ({
            let line = crate::side_panel::hairline_of(client);
            &&& line.right == client.right && line.right - line.left == 1
            &&& line.top == client.top && line.bottom == client.bottom
        }),
{
}

/// The sidebar is made where notes mode wants one and there is none, and taken away where it wants
/// none and there is one; then it matches, and nothing more is done.
pub proof fn the_sidebar_matches_notes_mode(enabled: bool, present: bool)
    ensures
        ({
            let presence = crate::side_panel::presence_for(enabled, present);
            &&& presence == Presence::Create <==> enabled && !present
            &&& presence == Presence::Destroy <==> !enabled && present
            &&& crate::side_panel::presence_for(enabled, enabled) == Presence::Keep
        }),
{
}

/// Escape ends a drag of rows, and without one returns to the editor; it never reaches a view.
pub proof fn escape_returns_to_the_editor(
    sidebar: Sidebar,
    lparam: isize,
    wparam: usize,
    client: Rect,
    dpi: int,
    on_grip: bool,
)
    requires
        crate::messages::low_word(wparam) == VK_ESCAPE,
    ensures
        crate::side_panel::panel_answer(
            sidebar,
            WM_KEYDOWN,
            wparam,
            lparam,
            client,
            dpi,
            on_grip,
            true,
        ) == PanelStep::CancelDrag,
        crate::side_panel::panel_answer(
            sidebar,
            WM_KEYDOWN,
            wparam,
            lparam,
            client,
            dpi,
            on_grip,
            false,
        ) == PanelStep::FocusEditor,
{
}

/// While the edge is dragged the pointer's moves and its release are the drag's; else they are the
/// view's. A press is the edge's on the edge alone, and a double click there resets the width.
pub proof fn a_resize_takes_the_pointer(
    sidebar: Sidebar,
    wparam: usize,
    lparam: isize,
    client: Rect,
    dpi: int,
    on_grip: bool,
    dragging: bool,
)
    ensures
        ({
            let step = |message: u32|
                crate::side_panel::panel_answer(
                    sidebar,
                    message,
                    wparam,
                    lparam,
                    client,
                    dpi,
                    on_grip,
                    dragging,
                );
            let resizing = sidebar.drag_width is Some;
            let on_edge = crate::side_panel::on_grip(
                client,
                dpi,
                crate::messages::point_in(lparam).x as int,
            );
            &&& resizing ==> step(WM_MOUSEMOVE) == PanelStep::DragResize && step(WM_LBUTTONUP)
                == (PanelStep::FinishResize { release: true }) && step(WM_CAPTURECHANGED) == (
            PanelStep::FinishResize { release: false })
            &&& !resizing ==> step(WM_MOUSEMOVE) == PanelStep::Route && step(WM_LBUTTONUP)
                == PanelStep::Route && step(WM_CAPTURECHANGED) == PanelStep::Route
            &&& on_edge ==> step(WM_LBUTTONDOWN) == PanelStep::BeginResize && step(WM_LBUTTONDBLCLK)
                == PanelStep::ResetWidth
            &&& !on_edge ==> step(WM_LBUTTONDOWN) == PanelStep::Route && step(WM_LBUTTONDBLCLK)
                == PanelStep::Route
            &&& step(WM_SETCURSOR) == PanelStep::SizeCursor <==> resizing || on_grip
        }),
{
}

/// Alt letters go to the Search view alone; keys, characters, the wheel and the pointer's other
/// messages go to whichever view shows.
pub proof fn input_goes_to_the_view(
    sidebar: Sidebar,
    wparam: usize,
    lparam: isize,
    client: Rect,
    dpi: int,
    on_grip: bool,
    dragging: bool,
)
    ensures
        ({
            let step = |message: u32|
                crate::side_panel::panel_answer(
                    sidebar,
                    message,
                    wparam,
                    lparam,
                    client,
                    dpi,
                    on_grip,
                    dragging,
                );
            &&& step(WM_SYSKEYDOWN) == PanelStep::Route <==> sidebar.view == SidebarView::Search
            &&& step(WM_SYSCHAR) == PanelStep::Route <==> sidebar.view == SidebarView::Search
            &&& step(WM_CHAR) == PanelStep::Route
            &&& step(WM_MOUSEWHEEL) == PanelStep::Route
            &&& step(WM_KEYDOWN) == PanelStep::Route <==> crate::messages::low_word(wparam)
                != VK_ESCAPE
            &&& step(WM_PAINT) == PanelStep::Paint
            &&& step(WM_FASTPAD_SIDEBAR_ACTION) == PanelStep::RunAction
        }),
{
}

/// Win events are raised once around what the user does: presses, keys, characters, the wheel,
/// commands and accessible actions; moving the pointer or painting raises none.
pub proof fn what_the_user_does_is_announced(message: u32)
    ensures
        crate::side_panel::announces(WM_KEYDOWN),
        crate::side_panel::announces(WM_CHAR),
        crate::side_panel::announces(WM_LBUTTONDOWN),
        crate::side_panel::announces(WM_LBUTTONUP),
        crate::side_panel::announces(WM_LBUTTONDBLCLK),
        crate::side_panel::announces(WM_MOUSEWHEEL),
        crate::side_panel::announces(WM_COMMAND),
        crate::side_panel::announces(WM_FASTPAD_SIDEBAR_ACTION),
        !crate::side_panel::announces(WM_MOUSEMOVE),
        !crate::side_panel::announces(WM_PAINT),
        crate::side_panel::announces(message) ==> crate::side_panel::is_view_input(message)
            || message == WM_COMMAND || message == WM_FASTPAD_SIDEBAR_ACTION,
{
}

/// The status line is as tall as its scaled height, and never less than at 96 DPI.
pub proof fn the_status_line_grows_with_the_dpi(low: int, high: int)
    requires
        0 <= low <= high,
    ensures
        22 <= crate::status::line_height(low) <= crate::status::line_height(high),
        low >= 96 ==> crate::status::line_height(low) == crate::panel::scaled(22, low),
{
    let (a, b) = (vstd::math::max(low, 96), vstd::math::max(high, 96));
    crate::panel::scaling_is_monotone(22, 22, 96, a);
    crate::panel::scaling_is_monotone(22, 22, a, b);
}

/// The status line reads the oldest message, whatever came after it, and tells how many more there
/// are.
pub proof fn the_status_line_reads_the_oldest_message(
    pending: Seq<Notification>,
    more: Notification,
)
    requires
        pending.len() > 0,
    ensures
        ({
            let line = crate::status::status_line(pending)->0;
            let longer = crate::status::status_line(pending.push(more))->0;
            &&& pending[0].message@.is_prefix_of(line)
            &&& pending[0].message@.is_prefix_of(longer)
            &&& "click to dismiss)"@.is_suffix_of(line)
            &&& longer == pending[0].message@ + " (+"@ + crate::text::decimal(pending.len())
                + " more, click to dismiss)"@
            &&& pending.len() == 1 ==> line == pending[0].message@ + " (click to dismiss)"@
        }),
{
    reveal_strlit(" (click to dismiss)");
    reveal_strlit(" more, click to dismiss)");
    reveal_strlit("click to dismiss)");
}

/// An icon is drawn to its end: a bitmap that cannot be drawn gives way to the minimal icon, which
/// is a mask and tries no bitmap again. A mask keeps its role's color but in high contrast.
pub proof fn an_icon_is_drawn_to_its_end(
    shape: IconShape,
    muted: u32,
    palette: Palette,
    icons: FileIcons,
    drawn: bool,
    role: IconColor,
)
    ensures
        ({
            let first = crate::item_icon::icon_step(shape, muted, palette, icons);
            let minimal = crate::item_icon::minimal_step(shape, muted, palette, icons);
            &&& first == IconStep::Image <==> shape == IconShape::Image
            &&& shape == IconShape::Mask(role) && !palette.high_contrast ==> first
                == IconStep::Mask(icons.role(role)) && minimal == first
            &&& shape == IconShape::Mask(role) && palette.high_contrast ==> first
                == IconStep::Mask(muted) && minimal == first
            &&& crate::item_icon::step_after_image(drawn) == IconStep::Done <==> drawn
            &&& crate::item_icon::step_after_image(drawn) == IconStep::Minimal <==> !drawn
            &&& minimal == IconStep::Done || minimal is Mask
        }),
{
}

/// A color gives its channels back, and a blend lies between its two colors in every channel: all of
/// one at full opacity, all of the other at none.
pub proof fn a_blend_lies_between(top: int, bottom: int, alpha: int)
    requires
        0 <= top <= 255,
        0 <= bottom <= 255,
        0 <= alpha <= 255,
    ensures
        ({
            let mixed = crate::theme::mixed(top, bottom, alpha);
            &&& vstd::math::min(top, bottom) <= mixed <= vstd::math::max(top, bottom)
            &&& alpha == 255 ==> mixed == top
            &&& alpha == 0 ==> mixed == bottom
        }),
{
    let sum = top * alpha + bottom * (255 - alpha);
    let (low, high) = (vstd::math::min(top, bottom), vstd::math::max(top, bottom));
    assert(255 * low <= sum <= 255 * high) by (nonlinear_arith)
        requires
            sum == top * alpha + bottom * (255 - alpha),
            low <= top <= high,
            low <= bottom <= high,
            0 <= alpha <= 255,
    ;
    assert((alpha == 255 ==> sum == 255 * top) && (alpha == 0 ==> sum == 255 * bottom))
        by (nonlinear_arith)
        requires
            sum == top * alpha + bottom * (255 - alpha),
    ;
}

/// A color is made of its three channels.
pub proof fn a_color_is_its_channels(red: u8, green: u8, blue: u8)
    ensures
        ({
            let color = crate::theme::rgb_color(red, green, blue);
            &&& crate::theme::channel(color, 0) == red
            &&& crate::theme::channel(color, 1) == green
            &&& crate::theme::channel(color, 2) == blue
        }),
{
}

/// The keyboard is on the button it is put on, and past the last of the four on the last.
pub proof fn the_bar_has_four_buttons(sidebar: Sidebar, index: usize)
    ensures
        sidebar.focusing_bar(index as int).bar_focus <= 3,
        index < 4 ==> sidebar.focusing_bar(index as int).bar_focus == index,
        index >= 4 ==> sidebar.focusing_bar(index as int) == sidebar.focusing_bar(3),
        sidebar.focusing_bar(index as int).width == sidebar.width,
{
}

} // verus!
