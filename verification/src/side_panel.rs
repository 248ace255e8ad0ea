//! The sidebar: the activity bar and one side panel along the window's left edge. What is open, how
//! wide it is, who gets the panel's messages, and what its edge, its header and its accessible
//! container are.

use crate::drawing::{fill, DrawStep, Step};
use crate::geometry::{contains, Point, Rect};
use crate::messages::{
    key_of, point_of, VK_ESCAPE, WM_CAPTURECHANGED, WM_CHAR, WM_CONTEXTMENU, WM_KEYDOWN,
    WM_LBUTTONDBLCLK, WM_LBUTTONDOWN, WM_LBUTTONUP, WM_MBUTTONDOWN, WM_MBUTTONUP, WM_MOUSELEAVE,
    WM_MOUSEMOVE, WM_MOUSEWHEEL, WM_PAINT, WM_RBUTTONDOWN, WM_RBUTTONUP, WM_SYSCHAR, WM_SYSKEYDOWN,
    WM_TIMER,
};
use crate::palette::Palette;
use crate::panel::scale;
use crate::sidebar_accessibility::{
    AccessibleItem, ROLE_SYSTEM_LIST, ROLE_SYSTEM_OUTLINE, ROLE_SYSTEM_PANE, STATE_OFFSCREEN,
    WM_FASTPAD_SIDEBAR_ACCESSIBLE,
    WM_FASTPAD_SIDEBAR_ACTION,
};
use vstd::prelude::*;

verus! {

pub const ACTIVITY_WIDTH_96: i32 = 44;

pub const EDITOR_MIN_WIDTH_96: i32 = 320;

pub const HEADER_HEIGHT_96: i32 = 38;

/// The strip along the panel's right edge that resizes it.
pub const GRIP_WIDTH_96: i32 = 4;

pub const MIN_SIDEBAR_WIDTH: u16 = 180;

pub const MAX_SIDEBAR_WIDTH: u16 = 480;

pub const DEFAULT_SIDEBAR_WIDTH: u16 = 260;

pub const WM_SETFOCUS: u32 = 0x0007;

pub const WM_KILLFOCUS: u32 = 0x0008;

pub const WM_ERASEBKGND: u32 = 0x0014;

pub const WM_SETCURSOR: u32 = 0x0020;

pub const WM_GETOBJECT: u32 = 0x003D;

pub const WM_NCHITTEST: u32 = 0x0084;

pub const WM_COMMAND: u32 = 0x0111;

pub const WM_CTLCOLOREDIT: u32 = 0x0133;

pub const EN_CHANGE: u32 = 0x0300;

/// The object id of a window's client area, as the low half of a message parameter.
pub const OBJID_CLIENT: u32 = 0xFFFF_FFFC;

/// What the panel is set to show.
#[derive(Clone, Copy, Debug, PartialEq, Eq, Structural)]
pub enum SidebarView {
    Hidden,
    Notebook,
    Search,
    Favorites,
}

/// The view the panel is showing.
#[derive(Clone, Copy, Debug, PartialEq, Eq, Structural)]
pub enum PanelView {
    Notebook,
    Search,
    Favorites,
}

impl PanelView {
    /// The panel's view of a setting; none while it is hidden.
    pub open spec fn for_setting(view: SidebarView) -> Option<PanelView> {
        match view {
            SidebarView::Notebook => Some(PanelView::Notebook),
            SidebarView::Search => Some(PanelView::Search),
            SidebarView::Favorites => Some(PanelView::Favorites),
            SidebarView::Hidden => None,
        }
    }

    pub fn of(view: SidebarView) -> (panel: Option<Self>)
        ensures
            panel == Self::for_setting(view),
    {
        match view {
            SidebarView::Notebook => Some(PanelView::Notebook),
            SidebarView::Search => Some(PanelView::Search),
            SidebarView::Favorites => Some(PanelView::Favorites),
            SidebarView::Hidden => None,
        }
    }
}

/// A stored width inside the range the panel may have.
pub open spec fn in_width_range(width_96: int) -> int {
    vstd::math::max(
        MIN_SIDEBAR_WIDTH as int,
        vstd::math::min(width_96, MAX_SIDEBAR_WIDTH as int),
    )
}

/// The activity bar's width in a window `client_width` wide.
pub open spec fn activity_width(client_width: int, dpi: int) -> int {
    vstd::math::min(
        crate::panel::scaled(ACTIVITY_WIDTH_96 as int, dpi),
        vstd::math::max(client_width, 0),
    )
}

/// The open panel's width: what is stored, less what the editor's minimum needs, never below 0.
pub open spec fn panel_width(client_width: int, dpi: int, width_96: int) -> int {
    let wanted = crate::panel::scaled(in_width_range(width_96), dpi);
    let room = vstd::math::max(client_width, 0) - activity_width(client_width, dpi)
        - crate::panel::scaled(EDITOR_MIN_WIDTH_96 as int, dpi);
    vstd::math::max(vstd::math::min(wanted, room), 0)
}

/// The activity bar's and the panel's widths in device pixels, for a `client_width` wide window.
/// The panel (saved at `width_96` 96-DPI pixels, clamped to its range) gives way first, so the
/// editor keeps its minimum. It never goes below 0.
pub fn sidebar_widths(client_width: i32, dpi: u32, view_open: bool, width_96: u16) -> (widths: (
    i32,
    i32,
))
    requires
        dpi <= crate::panel::MAX_DPI,
    ensures
        widths.0 == activity_width(client_width as int, dpi as int),
        widths.1 == (if view_open {
            panel_width(client_width as int, dpi as int, width_96 as int)
        } else {
            0
        }),
{
    proof {
        crate::panel::scaled_is_bounded(ACTIVITY_WIDTH_96 as int, dpi as int);
        crate::panel::scaled_is_bounded(EDITOR_MIN_WIDTH_96 as int, dpi as int);
        crate::panel::scaled_is_bounded(in_width_range(width_96 as int), dpi as int);
    }
    let client_width: i32 = client_width.max(0);
    let activity: i32 = scale(ACTIVITY_WIDTH_96, dpi).min(client_width);
    if !view_open {
        return (activity, 0);
    }
    let stored: u16 = width_96.min(MAX_SIDEBAR_WIDTH).max(MIN_SIDEBAR_WIDTH);
    let wanted: i32 = scale(stored as i32, dpi);
    let room: i32 = client_width - activity - scale(EDITOR_MIN_WIDTH_96, dpi);
    (activity, wanted.min(room).max(0))
}

/// The editor keeps its minimum width beside an open panel of any stored width, wherever the
/// window has room for it beside the activity bar; and nothing is ever wider than the window.
pub proof fn the_editor_keeps_its_minimum(client_width: int, dpi: int, width_96: int)
    requires
        0 <= dpi <= crate::panel::MAX_DPI,
        0 <= width_96 <= 0xffff,
        0 <= client_width,
    ensures
        ({
            let used = activity_width(client_width, dpi) + panel_width(client_width, dpi, width_96);
            let minimum = crate::panel::scaled(EDITOR_MIN_WIDTH_96 as int, dpi);
            &&& activity_width(client_width, dpi) + minimum <= client_width ==> used + minimum
                <= client_width
            &&& used <= client_width
            &&& panel_width(client_width, dpi, width_96) >= 0
        }),
{
    crate::panel::scaled_is_bounded(ACTIVITY_WIDTH_96 as int, dpi);
    crate::panel::scaled_is_bounded(EDITOR_MIN_WIDTH_96 as int, dpi);
}

/// The 96-DPI width a drag to `panel_px` device pixels asks for.
pub open spec fn dragged_width(panel_px: int, dpi: int) -> int {
    let dots = vstd::math::max(dpi, 1);
    in_width_range((vstd::math::max(panel_px, 0) * 96 + dots / 2) / dots)
}

/// The 96-DPI width a drag to `panel_px` device pixels asks for, inside the allowed range.
pub fn drag_width_96(panel_px: i32, dpi: u32) -> (width: u16)
    ensures
        width == dragged_width(panel_px as int, dpi as int),
        MIN_SIDEBAR_WIDTH <= width <= MAX_SIDEBAR_WIDTH,
{
    let dots: i64 = (dpi as i64).max(1);
    let unscaled: i64 = (panel_px.max(0) as i64 * 96 + dots / 2) / dots;
    unscaled.min(MAX_SIDEBAR_WIDTH as i64).max(MIN_SIDEBAR_WIDTH as i64) as u16
}

/// Dragging the edge to where a stored width puts it stores that width again, at every DPI of 96
/// or more.
pub proof fn a_drag_to_the_edge_keeps_the_width(width_96: int, dpi: int)
    requires
        MIN_SIDEBAR_WIDTH <= width_96 <= MAX_SIDEBAR_WIDTH,
        96 <= dpi <= crate::panel::MAX_DPI,
    ensures
        dragged_width(crate::panel::scaled(width_96, dpi), dpi) == width_96,
{
    crate::panel::scaled_is_bounded(width_96, dpi);
    let px = crate::panel::scaled(width_96, dpi);
    assert(px == (width_96 * dpi + 48) / 96);
    assert(96 * px <= width_96 * dpi + 48 < 96 * px + 96);
    let dots = px * 96 + dpi / 2;
    assert(width_96 * dpi <= dots < (width_96 + 1) * dpi) by (nonlinear_arith)
        requires
            96 * px <= width_96 * dpi + 48 < 96 * px + 96,
            dots == px * 96 + dpi / 2,
            dpi >= 96,
    ;
    assert((width_96 + 1) * dpi == width_96 * dpi + dpi) by (nonlinear_arith);
    vstd::arithmetic::div_mod::lemma_fundamental_div_mod_converse(
        dots,
        dpi,
        width_96,
        dots - width_96 * dpi,
    );
}

/// What the sidebar remembers: the settings' view and width, and what they do not hold.
#[derive(Clone, Copy, Debug, PartialEq, Eq, Structural)]
pub struct Sidebar {
    pub view: SidebarView,
    pub width: u16,
    /// The view that reopens while the panel is closed.
    pub last_view: SidebarView,
    /// The live width (96-DPI pixels) while the panel edge is dragged. The setting changes once,
    /// when the drag ends.
    pub drag_width: Option<u16>,
    /// The activity-bar button the keyboard is on.
    pub bar_focus: usize,
}

/// What showing a view comes to.
#[derive(Clone, Copy, Debug, PartialEq, Eq, Structural)]
pub struct ShowPlan {
    /// The focus leaves the panel for the editor.
    pub focus_editor: bool,
    /// The setting changed and is saved.
    pub save: bool,
    /// The Notebook view's rows are rebuilt.
    pub rebuild: bool,
    /// The panel takes the focus, where it shows.
    pub focus_panel: bool,
    /// The Search view shows; else it is told that it is hidden.
    pub search: bool,
}

/// What the end of a resize comes to.
#[derive(Clone, Copy, Debug, PartialEq, Eq, Structural)]
pub struct WidthSaved {
    /// The setting changed and is saved.
    pub save: bool,
    pub width: u16,
}

/// The activity-bar button of a view.
pub open spec fn button_of(view: SidebarView) -> Option<usize> {
    match view {
        SidebarView::Notebook => Some(0),
        SidebarView::Search => Some(1),
        SidebarView::Favorites => Some(2),
        SidebarView::Hidden => None,
    }
}

pub fn view_button(view: SidebarView) -> (button: Option<usize>)
    ensures
        button == button_of(view),
{
    match view {
        SidebarView::Notebook => Some(0),
        SidebarView::Search => Some(1),
        SidebarView::Favorites => Some(2),
        SidebarView::Hidden => None,
    }
}

/// The activity-bar buttons whose pressed state a change of view changes.
pub open spec fn repressed(before: SidebarView, after: SidebarView) -> Seq<usize> {
    let one = |view: SidebarView|
        match button_of(view) {
            Some(button) => seq![button],
            None => Seq::empty(),
        };
    if before == after {
        Seq::empty()
    } else {
        one(before) + one(after)
    }
}

/// Tells which activity-bar buttons' pressed state changed.
pub fn bar_views_changed(before: SidebarView, after: SidebarView) -> (buttons: Vec<usize>)
    ensures
        buttons@ == repressed(before, after),
{
    let mut buttons: Vec<usize> = Vec::new();
    if before != after {
        if let Some(button) = view_button(before) {
            buttons.push(button);
        }
        if let Some(button) = view_button(after) {
            buttons.push(button);
        }
    }
    assert(buttons@ =~= repressed(before, after));
    buttons
}

/// A view's number, which tells the views' orders apart.
pub open spec fn view_number(view: SidebarView) -> u64 {
    match view {
        SidebarView::Hidden => 0,
        SidebarView::Notebook => 1,
        SidebarView::Search => 2,
        SidebarView::Favorites => 3,
    }
}

/// The shown view's order generation, told apart per view: switching views reorders too.
pub fn accessible_generation(view: SidebarView, generation: u64) -> (told: u64)
    ensures
        told == (generation * 4 + view_number(view)) % 0x1_0000_0000_0000_0000,
{
    let number: u64 = match view {
        SidebarView::Hidden => 0,
        SidebarView::Notebook => 1,
        SidebarView::Search => 2,
        SidebarView::Favorites => 3,
    };
    generation.wrapping_mul(4).wrapping_add(number)
}

/// Two views never tell the same generation.
pub proof fn views_have_their_own_generations(
    a: SidebarView,
    b: SidebarView,
    of_a: u64,
    of_b: u64,
)
    requires
        a != b,
    ensures
        (of_a * 4 + view_number(a)) % 0x1_0000_0000_0000_0000 != (of_b * 4 + view_number(b))
            % 0x1_0000_0000_0000_0000,
{
}

impl Sidebar {
    /// The width the panel is laid out at.
    pub open spec fn live_width(self) -> u16 {
        match self.drag_width {
            Some(width) => width,
            None => self.width,
        }
    }

    /// Whether a view is open and the width to lay it out at.
    pub fn open_state(&self) -> (state: (bool, u16))
        ensures
            state == (self.view != SidebarView::Hidden, self.live_width()),
    {
        let width: u16 = match self.drag_width {
            Some(width) => width,
            None => self.width,
        };
        (self.view != SidebarView::Hidden, width)
    }

    /// Where the sidebar ends.
    pub open spec fn edge(self, client_width: int, dpi: int) -> int {
        activity_width(client_width, dpi) + (if self.view != SidebarView::Hidden {
            panel_width(client_width, dpi, self.live_width() as int)
        } else {
            0
        })
    }

    /// Where the rest of the window starts: the activity bar plus the open panel.
    pub fn left_edge(&self, client_width: i32, dpi: u32) -> (edge: i32)
        requires
            dpi <= crate::panel::MAX_DPI,
        ensures
            edge == self.edge(client_width as int, dpi as int),
    {
        proof {
            the_editor_keeps_its_minimum(
                vstd::math::max(client_width as int, 0),
                dpi as int,
                self.live_width() as int,
            );
        }
        let (open, width) = self.open_state();
        let (activity, panel) = sidebar_widths(client_width, dpi, open, width);
        activity + panel
    }

    /// What showing `view` comes to, and the sidebar after it.
    pub open spec fn showing(
        self,
        view: SidebarView,
        focus: bool,
        focus_in_panel: bool,
        stale: bool,
    ) -> (ShowPlan, Sidebar) {
        (
            ShowPlan {
                focus_editor: view == SidebarView::Hidden && focus_in_panel,
                save: self.view != view,
                rebuild: view == SidebarView::Notebook && stale,
                focus_panel: focus && view != SidebarView::Hidden,
                search: view == SidebarView::Search,
            },
            Sidebar {
                view,
                last_view: if view != SidebarView::Hidden {
                    view
                } else {
                    self.last_view
                },
                ..self
            },
        )
    }

    /// Shows `view`, or closes the panel for `Hidden`. `focus` moves the keyboard focus into the
    /// panel; a closing panel gives it back to the editor.
    pub fn show_view(&mut self, view: SidebarView, focus: bool, focus_in_panel: bool, stale: bool) -> (plan:
        ShowPlan)
        ensures
            (plan, *final(self)) == old(self).showing(view, focus, focus_in_panel, stale),
    {
        if view != SidebarView::Hidden {
            self.last_view = view;
        }
        let save: bool = self.view != view;
        self.view = view;
        ShowPlan {
            focus_editor: view == SidebarView::Hidden && focus_in_panel,
            save,
            rebuild: view == SidebarView::Notebook && stale,
            focus_panel: focus && view != SidebarView::Hidden,
            search: view == SidebarView::Search,
        }
    }

    /// The view that closing and reopening leads to.
    pub open spec fn toggled(self) -> SidebarView {
        if self.view == SidebarView::Hidden {
            self.last_view
        } else {
            SidebarView::Hidden
        }
    }

    /// Closes the panel, or reopens the last view.
    pub fn toggle(&mut self, focus_in_panel: bool, stale: bool) -> (plan: ShowPlan)
        ensures
            (plan, *final(self)) == old(self).showing(
                old(self).toggled(),
                false,
                focus_in_panel,
                stale,
            ),
    {
        let next = if self.view == SidebarView::Hidden {
            self.last_view
        } else {
            SidebarView::Hidden
        };
        self.show_view(next, false, focus_in_panel, stale)
    }

    /// The sidebar after the settings were read.
    pub open spec fn remembered(self) -> Sidebar {
        if self.view != SidebarView::Hidden {
            Sidebar { last_view: self.view, ..self }
        } else {
            self
        }
    }

    /// The settings were read: an open view is the one to reopen.
    pub fn remember_view(&mut self)
        ensures
            *final(self) == old(self).remembered(),
    {
        if self.view != SidebarView::Hidden {
            self.last_view = self.view;
        }
    }

    /// The panel with the keyboard on this button, or on the last.
    pub open spec fn focusing_bar(self, index: int) -> Sidebar {
        Sidebar { bar_focus: vstd::math::min(index, 3) as usize, ..self }
    }

    /// The keyboard is on this activity-bar button, or on the last.
    pub fn set_bar_focus(&mut self, index: usize)
        ensures
            *final(self) == old(self).focusing_bar(index as int),
    {
        self.bar_focus = index.min(3);
    }

    pub fn resizing(&self) -> (resizing: bool)
        ensures
            resizing == (self.drag_width is Some),
    {
        self.drag_width.is_some()
    }

    /// The sidebar with its edge held.
    pub open spec fn grabbed(self) -> Sidebar {
        Sidebar { drag_width: Some(self.live_width()), ..self }
    }

    /// The panel's edge was pressed.
    pub fn begin_resize(&mut self)
        ensures
            *final(self) == old(self).grabbed(),
    {
        let (_, width) = self.open_state();
        self.drag_width = Some(width);
    }

    /// Whether a drag is on and whether it changes the width, and the sidebar after it.
    pub open spec fn dragged_to(self, x: int, dpi: int) -> ((bool, bool), Sidebar) {
        match self.drag_width {
            Some(before) => {
                let width = dragged_width(x, dpi) as u16;
                ((true, before != width), Sidebar { drag_width: Some(width), ..self })
            },
            None => ((false, false), self),
        }
    }

    /// While the edge is dragged: `x` (panel coordinates) is the new width, since the panel's left
    /// edge stays put. Reports whether a drag is on, and whether the width changed.
    pub fn drag_resize(&mut self, x: i32, dpi: u32) -> (dragged: (bool, bool))
        ensures
            (dragged, *final(self)) == old(self).dragged_to(x as int, dpi as int),
    {
        match self.drag_width {
            Some(before) => {
                let width: u16 = drag_width_96(x, dpi);
                self.drag_width = Some(width);
                (true, before != width)
            },
            None => (false, false),
        }
    }

    /// What the end of a drag saves, and the sidebar after it.
    pub open spec fn resized(self) -> (Option<WidthSaved>, Sidebar) {
        match self.drag_width {
            Some(width) => (
                Some(WidthSaved { save: self.width != width, width }),
                Sidebar { drag_width: None, width, ..self },
            ),
            None => (None, self),
        }
    }

    /// Ends a drag and saves the width once; `None` if none was on.
    pub fn finish_resize(&mut self) -> (saved: Option<WidthSaved>)
        ensures
            (saved, *final(self)) == old(self).resized(),
    {
        match self.drag_width {
            Some(width) => {
                self.drag_width = None;
                Some(self.save_width(width))
            },
            None => None,
        }
    }

    /// What storing a width saves, and the sidebar with it.
    pub open spec fn with_width(self, width: u16) -> (WidthSaved, Sidebar) {
        (WidthSaved { save: self.width != width, width }, Sidebar { width, ..self })
    }

    /// Sets the stored width.
    pub fn save_width(&mut self, width: u16) -> (saved: WidthSaved)
        ensures
            (saved, *final(self)) == old(self).with_width(width),
    {
        let save: bool = self.width != width;
        self.width = width;
        WidthSaved { save, width }
    }
}

/// Closing the panel and opening it again comes back to the same view.
pub proof fn toggling_twice_reopens_the_view(sidebar: Sidebar)
    requires
        sidebar.view != SidebarView::Hidden ==> sidebar.last_view == sidebar.view,
        sidebar.last_view != SidebarView::Hidden,
    ensures
        ({
            let closed = Sidebar { view: sidebar.toggled(), ..sidebar };
            closed.toggled() == sidebar.view
        }),
{
}

/// The edge of the panel that resizes it holds the column `x`.
pub open spec fn on_grip(client: Rect, dpi: int, x: int) -> bool {
    client.right - crate::panel::scaled(GRIP_WIDTH_96 as int, dpi) <= x < client.right
}

pub fn over_grip(client: Rect, dpi: u32, x: i32) -> (over: bool)
    requires
        client.in_range(),
        dpi <= crate::panel::MAX_DPI,
    ensures
        over == on_grip(client, dpi as int, x as int),
{
    proof {
        crate::panel::scaled_is_bounded(GRIP_WIDTH_96 as int, dpi as int);
    }
    x >= client.right - scale(GRIP_WIDTH_96, dpi) && x < client.right
}

/// A point is on the empty part of the header.
pub open spec fn is_caption(client: Rect, dpi: int, point: Point, on_control: Option<bool>) -> bool {
    0 <= point.y < crate::panel::scaled(HEADER_HEIGHT_96 as int, dpi) && !on_grip(
        client,
        dpi,
        point.x as int,
    ) && on_control == Some(false)
}

/// The empty part of the header is caption: the main window's hit test decides there. `on_control`
/// is whether the shown view has a control at the point; `None` without a view.
pub fn panel_hit_test(client: Rect, dpi: u32, point: Point, on_control: Option<bool>) -> (caption: bool)
    requires
        client.in_range(),
        dpi <= crate::panel::MAX_DPI,
    ensures
        caption == is_caption(client, dpi as int, point, on_control),
{
    proof {
        crate::panel::scaled_is_bounded(HEADER_HEIGHT_96 as int, dpi as int);
    }
    let empty: bool = match on_control {
        Some(on_control) => !on_control,
        None => false,
    };
    point.y >= 0 && point.y < scale(HEADER_HEIGHT_96, dpi) && !over_grip(client, dpi, point.x)
        && empty
}

/// One of the rectangles holds the pixel.
pub open spec fn any_holds(rects: Seq<Rect>, x: int, y: int) -> bool {
    exists|i: int| 0 <= i < rects.len() && (#[trigger] rects[i]).has(x, y)
}

/// Whether a point is on one of a header's controls.
pub fn on_controls(rects: &Vec<Rect>, x: i32, y: i32) -> (on: bool)
    ensures
        on == any_holds(rects@, x as int, y as int),
{
    let mut at: usize = 0;
    while at < rects.len()
        invariant
            at <= rects.len(),
            forall|i: int| 0 <= i < at ==> !(#[trigger] rects@[i]).has(x as int, y as int),
        decreases rects.len() - at,
    {
        if contains(rects[at], x, y) {
            assert(rects@[at as int].has(x as int, y as int));
            return true;
        }
        at = at + 1;
    }
    false
}

/// The panel's fill, under whatever the view paints.
pub fn paint_background(client: Rect, palette: &Palette) -> (drawn: Vec<DrawStep>)
    ensures
        crate::drawing::steps(drawn@) == seq![
            Step::<Seq<char>>::Fill { rect: client, color: crate::palette::halfway(
                    palette.strip_background,
                    palette.editor_background,
                ) },
        ],
{
    let mut drawn: Vec<DrawStep> = Vec::new();
    fill(&mut drawn, client, palette.panel_background());
    assert(crate::drawing::steps(drawn@) =~= seq![
        Step::<Seq<char>>::Fill { rect: client, color: crate::palette::halfway(
                    palette.strip_background,
                    palette.editor_background,
                ) },
    ]);
    drawn
}

/// The last column of the panel.
pub open spec fn hairline_of(client: Rect) -> Rect {
    Rect { left: vstd::math::max(client.right - 1, client.left as int) as i32, ..client }
}

/// A hairline where the editor area begins, painted over whatever the view painted, in the strip's
/// color.
pub fn hairline(client: Rect) -> (line: Rect)
    requires
        client.in_range(),
    ensures
        line == hairline_of(client),
{
    Rect {
        left: (client.right - 1).max(client.left),
        top: client.top,
        right: client.right,
        bottom: client.bottom,
    }
}

/// The panel's name, as screen readers read it.
pub open spec fn container_name(view: SidebarView, notebook: Seq<char>) -> Seq<char> {
    match view {
        SidebarView::Notebook => notebook,
        SidebarView::Search => "Search results"@,
        SidebarView::Favorites => "Favorite notebooks"@,
        SidebarView::Hidden => "Side panel"@,
    }
}

/// What kind of thing the panel is to screen readers.
pub open spec fn container_role(view: SidebarView) -> u32 {
    match view {
        SidebarView::Notebook => ROLE_SYSTEM_OUTLINE,
        SidebarView::Search => ROLE_SYSTEM_LIST,
        SidebarView::Favorites => ROLE_SYSTEM_LIST,
        SidebarView::Hidden => ROLE_SYSTEM_PANE,
    }
}

/// What the panel is to screen readers: its name and its role. `notebook` is what the activity
/// bar's Notebook button reads.
pub fn accessible_container(view: SidebarView, notebook: &str) -> (container: (String, u32))
    ensures
        container.0@ == container_name(view, notebook@),
        container.1 == container_role(view),
{
    match view {
        SidebarView::Notebook => (notebook.to_owned(), ROLE_SYSTEM_OUTLINE),
        SidebarView::Search => ("Search results".to_owned(), ROLE_SYSTEM_LIST),
        SidebarView::Favorites => ("Favorite notebooks".to_owned(), ROLE_SYSTEM_LIST),
        SidebarView::Hidden => ("Side panel".to_owned(), ROLE_SYSTEM_PANE),
    }
}

/// A child's default action is a click on its center; one that is scrolled out of view is selected
/// first, which brings it into view.
pub fn selects_first(item: &AccessibleItem) -> (selects: bool)
    ensures
        selects == (item@.state & STATE_OFFSCREEN != 0),
{
    item.state & STATE_OFFSCREEN != 0
}

/// Whether the sidebar must be made or taken away to match notes mode.
#[derive(Clone, Copy, Debug, PartialEq, Eq, Structural)]
pub enum Presence {
    Create,
    Destroy,
    Keep,
}

/// What makes the sidebar match notes mode.
pub open spec fn presence_for(enabled: bool, present: bool) -> Presence {
    if enabled == present {
        Presence::Keep
    } else if enabled {
        Presence::Create
    } else {
        Presence::Destroy
    }
}

pub fn sync_presence(enabled: bool, present: bool) -> (presence: Presence)
    ensures
        presence == presence_for(enabled, present),
{
    if enabled && !present {
        Presence::Create
    } else if !enabled && present {
        Presence::Destroy
    } else {
        Presence::Keep
    }
}

/// What the panel does with a message.
#[derive(Clone, Copy, Debug, PartialEq, Eq, Structural)]
pub enum PanelStep {
    Paint,
    /// The background is painted already.
    Erase,
    HitTest,
    /// Hand out the accessible object.
    GiveObject,
    /// Answer an accessible question.
    Answer,
    /// Carry out an accessible action.
    RunAction,
    /// End the drag of rows.
    CancelDrag,
    /// Return to the editor.
    FocusEditor,
    /// Show the resize cursor.
    SizeCursor,
    BeginResize,
    DragResize,
    /// Save the width; let the mouse go where set.
    FinishResize { release: bool },
    /// The default width again.
    ResetWidth,
    /// The shown view's turn, then the default.
    Route,
    Repaint,
    QueryChanged,
    EditColor,
    Default,
}

/// Messages whose win events are raised once, around all they do.
pub open spec fn announces(message: u32) -> bool {
    message == WM_KEYDOWN || message == WM_CHAR || message == WM_LBUTTONDOWN || message
        == WM_LBUTTONUP || message == WM_LBUTTONDBLCLK || message == WM_MOUSEWHEEL || message
        == WM_COMMAND || message == WM_FASTPAD_SIDEBAR_ACTION
}

pub fn raises_events(message: u32, announcing: bool) -> (raises: bool)
    ensures
        raises == (announces(message) && !announcing),
{
    let input: bool = match message {
        WM_KEYDOWN | WM_CHAR | WM_LBUTTONDOWN | WM_LBUTTONUP | WM_LBUTTONDBLCLK | WM_MOUSEWHEEL
        | WM_COMMAND | WM_FASTPAD_SIDEBAR_ACTION => true,
        _ => false,
    };
    input && !announcing
}

/// Messages that go to the shown view.
pub open spec fn is_view_input(message: u32) -> bool {
    message == WM_LBUTTONDOWN || message == WM_MOUSEMOVE || message == WM_LBUTTONUP || message
        == WM_LBUTTONDBLCLK || message == WM_CAPTURECHANGED || message == WM_MOUSELEAVE || message
        == WM_RBUTTONDOWN || message == WM_RBUTTONUP || message == WM_MBUTTONDOWN || message
        == WM_MBUTTONUP || message == WM_CONTEXTMENU || message == WM_MOUSEWHEEL || message
        == WM_TIMER || message == WM_KEYDOWN || message == WM_CHAR
}

/// What the panel does with a message. Escape ends a started drag of rows, and otherwise returns
/// to the editor from anywhere in the panel; its edge resizes it; a resize in progress takes the
/// mouse; the Search view gets Alt letters before the menu band sees them; everything else a view
/// may want goes to it first.
pub open spec fn panel_answer(
    sidebar: Sidebar,
    message: u32,
    wparam: usize,
    lparam: isize,
    client: Rect,
    dpi: int,
    pointer_on_grip: bool,
    dragging: bool,
) -> PanelStep {
    let on_edge = on_grip(client, dpi, crate::messages::point_in(lparam).x as int);
    let resizing = sidebar.drag_width is Some;
    if message == WM_PAINT {
        PanelStep::Paint
    } else if message == WM_ERASEBKGND {
        PanelStep::Erase
    } else if message == WM_NCHITTEST {
        PanelStep::HitTest
    } else if message == WM_GETOBJECT && (lparam as u32) == OBJID_CLIENT {
        PanelStep::GiveObject
    } else if message == WM_FASTPAD_SIDEBAR_ACCESSIBLE {
        PanelStep::Answer
    } else if message == WM_FASTPAD_SIDEBAR_ACTION {
        PanelStep::RunAction
    } else if message == WM_KEYDOWN && crate::messages::low_word(wparam) == VK_ESCAPE {
        if dragging {
            PanelStep::CancelDrag
        } else {
            PanelStep::FocusEditor
        }
    } else if message == WM_SETCURSOR && (resizing || pointer_on_grip) {
        PanelStep::SizeCursor
    } else if message == WM_LBUTTONDOWN && on_edge {
        PanelStep::BeginResize
    } else if message == WM_MOUSEMOVE && resizing {
        PanelStep::DragResize
    } else if message == WM_LBUTTONUP && resizing {
        PanelStep::FinishResize { release: true }
    } else if message == WM_LBUTTONDBLCLK && on_edge {
        PanelStep::ResetWidth
    } else if message == WM_CAPTURECHANGED && resizing {
        PanelStep::FinishResize { release: false }
    } else if (message == WM_SYSKEYDOWN || message == WM_SYSCHAR) && sidebar.view
        == SidebarView::Search {
        PanelStep::Route
    } else if is_view_input(message) {
        PanelStep::Route
    } else if message == WM_SETFOCUS || message == WM_KILLFOCUS {
        PanelStep::Repaint
    } else if message == WM_COMMAND && lparam != 0 && (wparam as u32) / 0x1_0000 == EN_CHANGE {
        PanelStep::QueryChanged
    } else if message == WM_CTLCOLOREDIT {
        PanelStep::EditColor
    } else {
        PanelStep::Default
    }
}

pub fn panel_step(
    sidebar: &Sidebar,
    message: u32,
    wparam: usize,
    lparam: isize,
    client: Rect,
    dpi: u32,
    pointer_on_grip: bool,
    dragging: bool,
) -> (step: PanelStep)
    requires
        client.in_range(),
        dpi <= crate::panel::MAX_DPI,
    ensures
        step == panel_answer(
            *sidebar,
            message,
            wparam,
            lparam,
            client,
            dpi as int,
            pointer_on_grip,
            dragging,
        ),
{
    let on_edge: bool = over_grip(client, dpi, point_of(lparam).x);
    let resizing: bool = sidebar.resizing();
    if message == WM_PAINT {
        return PanelStep::Paint;
    }
    if message == WM_ERASEBKGND {
        return PanelStep::Erase;
    }
    if message == WM_NCHITTEST {
        return PanelStep::HitTest;
    }
    if message == WM_GETOBJECT && (lparam as u32) == OBJID_CLIENT {
        return PanelStep::GiveObject;
    }
    if message == WM_FASTPAD_SIDEBAR_ACCESSIBLE {
        return PanelStep::Answer;
    }
    if message == WM_FASTPAD_SIDEBAR_ACTION {
        return PanelStep::RunAction;
    }
    match message {
        WM_KEYDOWN => if key_of(wparam) == VK_ESCAPE {
            if dragging {
                PanelStep::CancelDrag
            } else {
                PanelStep::FocusEditor
            }
        } else {
            PanelStep::Route
        },
        WM_SETCURSOR => if resizing || pointer_on_grip {
            PanelStep::SizeCursor
        } else {
            PanelStep::Default
        },
        WM_LBUTTONDOWN => if on_edge {
            PanelStep::BeginResize
        } else {
            PanelStep::Route
        },
        WM_MOUSEMOVE => if resizing {
            PanelStep::DragResize
        } else {
            PanelStep::Route
        },
        WM_LBUTTONUP => if resizing {
            PanelStep::FinishResize { release: true }
        } else {
            PanelStep::Route
        },
        WM_LBUTTONDBLCLK => if on_edge {
            PanelStep::ResetWidth
        } else {
            PanelStep::Route
        },
        WM_CAPTURECHANGED => if resizing {
            PanelStep::FinishResize { release: false }
        } else {
            PanelStep::Route
        },
        WM_SYSKEYDOWN | WM_SYSCHAR => if sidebar.view == SidebarView::Search {
            PanelStep::Route
        } else {
            PanelStep::Default
        },
        WM_MOUSELEAVE | WM_RBUTTONDOWN | WM_RBUTTONUP | WM_MBUTTONDOWN | WM_MBUTTONUP
        | WM_CONTEXTMENU | WM_MOUSEWHEEL | WM_TIMER | WM_CHAR => PanelStep::Route,
        WM_SETFOCUS | WM_KILLFOCUS => PanelStep::Repaint,
        WM_COMMAND => if lparam != 0 && (wparam as u32) / 0x1_0000 == EN_CHANGE {
            PanelStep::QueryChanged
        } else {
            PanelStep::Default
        },
        WM_CTLCOLOREDIT => PanelStep::EditColor,
        _ => PanelStep::Default,
    }
}

} // verus!
