use fastpad::geometry::{Point, Rect};
use fastpad::messages::{
    VK_ESCAPE, VK_RETURN, WM_CAPTURECHANGED, WM_KEYDOWN, WM_LBUTTONDBLCLK, WM_LBUTTONDOWN,
    WM_LBUTTONUP, WM_MBUTTONDOWN, WM_MBUTTONUP, WM_MOUSEMOVE, WM_PAINT, WM_SYSKEYDOWN, WM_TIMER,
};
use fastpad::palette::Palette;
use fastpad::panel_drop::{answer, Drop, PanelTarget, DROPEFFECT_COPY, DROPEFFECT_NONE};
use fastpad::side_panel::{
    accessible_container, hairline, on_controls, over_grip, paint_background, panel_hit_test,
    panel_step, raises_events, selects_first, sync_presence, view_button, PanelStep, Presence,
    ShowPlan, Sidebar, SidebarView, WidthSaved, OBJID_CLIENT, WM_COMMAND, WM_CTLCOLOREDIT,
    WM_GETOBJECT, WM_SETCURSOR, WM_SETFOCUS,
};
use fastpad::sidebar_accessibility::{
    list_item, ROLE_SYSTEM_LIST, ROLE_SYSTEM_OUTLINE, ROLE_SYSTEM_PANE,
};

const CLIENT: Rect = Rect { left: 0, top: 0, right: 260, bottom: 600 };

fn sidebar(view: SidebarView) -> Sidebar {
    Sidebar {
        view,
        width: 260,
        last_view: SidebarView::Notebook,
        drag_width: None,
        bar_focus: 0,
    }
}

fn step(sidebar: &Sidebar, message: u32, wparam: usize, x: isize) -> PanelStep {
    panel_step(sidebar, message, wparam, x, CLIENT, 96, false, false)
}

#[test]
fn showing_a_view_saves_it_and_hiding_gives_the_focus_back() {
    let mut side = sidebar(SidebarView::Hidden);
    let plan = side.show_view(SidebarView::Search, true, false, true);
    assert_eq!(
        plan,
        ShowPlan {
            focus_editor: false,
            save: true,
            rebuild: false,
            focus_panel: true,
            search: true
        }
    );
    assert_eq!((side.view, side.last_view), (SidebarView::Search, SidebarView::Search));
    let plan = side.toggle(true, true);
    assert!(plan.focus_editor && plan.save && !plan.focus_panel && !plan.search);
    assert_eq!(side.view, SidebarView::Hidden);
    side.toggle(false, true);
    assert_eq!(side.view, SidebarView::Search, "the same view again");
    let plan = side.show_view(SidebarView::Notebook, false, false, true);
    assert!(plan.rebuild && !plan.focus_panel);
    assert!(!side.show_view(SidebarView::Notebook, false, false, false).save);
    let mut side = sidebar(SidebarView::Favorites);
    side.remember_view();
    assert_eq!(side.last_view, SidebarView::Favorites);
    side.set_bar_focus(9);
    assert_eq!(side.bar_focus, 3);
    assert_eq!(view_button(SidebarView::Favorites), Some(2));
    assert_eq!(view_button(SidebarView::Hidden), None);
}

#[test]
fn the_edge_resizes_the_panel_and_saves_once() {
    let mut side = sidebar(SidebarView::Notebook);
    assert_eq!(side.open_state(), (true, 260));
    assert_eq!(side.left_edge(1280, 96), 304);
    assert_eq!(side.drag_resize(300, 96), (false, false));
    side.begin_resize();
    assert!(side.resizing());
    assert_eq!(side.drag_resize(260, 96), (true, false));
    assert_eq!(side.drag_resize(300, 96), (true, true));
    assert_eq!(side.open_state(), (true, 300));
    assert_eq!(side.finish_resize(), Some(WidthSaved { save: true, width: 300 }));
    assert_eq!(side.finish_resize(), None);
    assert_eq!(side.save_width(300), WidthSaved { save: false, width: 300 });
}

#[test]
fn the_panel_takes_its_own_messages_and_hands_on_the_rest() {
    let side = sidebar(SidebarView::Notebook);
    let mut dragged = side;
    dragged.begin_resize();
    assert_eq!(step(&side, WM_PAINT, 0, 0), PanelStep::Paint);
    assert_eq!(step(&side, WM_KEYDOWN, VK_ESCAPE as usize, 0), PanelStep::FocusEditor);
    assert_eq!(step(&side, WM_KEYDOWN, VK_RETURN as usize, 0), PanelStep::Route);
    assert_eq!(step(&side, WM_LBUTTONDOWN, 1, 257), PanelStep::BeginResize);
    assert_eq!(step(&side, WM_LBUTTONDOWN, 1, 255), PanelStep::Route);
    assert_eq!(step(&side, WM_LBUTTONDBLCLK, 1, 257), PanelStep::ResetWidth);
    assert_eq!(step(&side, WM_MOUSEMOVE, 0, 257), PanelStep::Route);
    assert_eq!(step(&dragged, WM_MOUSEMOVE, 0, 257), PanelStep::DragResize);
    assert_eq!(
        step(&dragged, WM_LBUTTONUP, 0, 257),
        PanelStep::FinishResize { release: true }
    );
    assert_eq!(
        step(&dragged, WM_CAPTURECHANGED, 0, 0),
        PanelStep::FinishResize { release: false }
    );
    assert_eq!(step(&dragged, WM_SETCURSOR, 0, 0), PanelStep::SizeCursor);
    assert_eq!(step(&side, WM_SETCURSOR, 0, 0), PanelStep::Default);
    assert_eq!(step(&side, WM_SYSKEYDOWN, 0, 0), PanelStep::Default);
    assert_eq!(
        step(&sidebar(SidebarView::Search), WM_SYSKEYDOWN, 0, 0),
        PanelStep::Route
    );
    assert_eq!(step(&side, WM_SETFOCUS, 0, 0), PanelStep::Repaint);
    assert_eq!(step(&side, WM_COMMAND, 0x0300 << 16, 5), PanelStep::QueryChanged);
    assert_eq!(step(&side, WM_COMMAND, 0x0300 << 16, 0), PanelStep::Default);
    assert_eq!(step(&side, WM_CTLCOLOREDIT, 0, 0), PanelStep::EditColor);
    let object = OBJID_CLIENT as i32 as isize;
    assert_eq!(step(&side, WM_GETOBJECT, 0, object), PanelStep::GiveObject);
    assert_eq!(step(&side, WM_GETOBJECT, 0, 0), PanelStep::Default);
    for message in [WM_MBUTTONDOWN, WM_MBUTTONUP, WM_TIMER] {
        assert_eq!(step(&side, message, 0, 0), PanelStep::Route);
    }
    assert!(raises_events(WM_KEYDOWN, false) && !raises_events(WM_KEYDOWN, true));
    assert!(!raises_events(WM_MOUSEMOVE, false));
}

#[test]
fn escape_ends_a_drag_before_it_leaves_the_panel() {
    let side = sidebar(SidebarView::Notebook);
    let pressed = |key: u32, dragging| {
        panel_step(&side, WM_KEYDOWN, key as usize, 0, CLIENT, 96, false, dragging)
    };
    assert_eq!(pressed(VK_ESCAPE, true), PanelStep::CancelDrag);
    assert_eq!(pressed(VK_ESCAPE, false), PanelStep::FocusEditor);
    assert_eq!(pressed(VK_RETURN, true), PanelStep::Route);
}

#[test]
fn the_header_is_caption_where_nothing_is_on_it() {
    let caption = |x, y, on| panel_hit_test(CLIENT, 96, Point { x, y }, on);
    assert!(caption(100, 10, Some(false)));
    assert!(!caption(100, 10, Some(true)));
    assert!(!caption(100, 10, None), "no view shows");
    assert!(!caption(100, 38, Some(false)), "below the header");
    assert!(!caption(258, 10, Some(false)), "the edge resizes");
    assert!(over_grip(CLIENT, 96, 256) && !over_grip(CLIENT, 96, 260));
    assert!(on_controls(&vec![CLIENT], 5, 5) && !on_controls(&vec![], 5, 5));
    assert_eq!(hairline(CLIENT), Rect { left: 259, ..CLIENT });
    assert_eq!(paint_background(CLIENT, &Palette::neutral()).len(), 1);
}

#[test]
fn the_panel_is_named_after_its_view() {
    let container = |view| accessible_container(view, "Notes");
    assert_eq!(
        container(SidebarView::Notebook),
        ("Notes".to_owned(), ROLE_SYSTEM_OUTLINE)
    );
    assert_eq!(
        container(SidebarView::Search),
        ("Search results".to_owned(), ROLE_SYSTEM_LIST)
    );
    assert_eq!(
        container(SidebarView::Favorites),
        ("Favorite notebooks".to_owned(), ROLE_SYSTEM_LIST)
    );
    assert_eq!(
        container(SidebarView::Hidden),
        ("Side panel".to_owned(), ROLE_SYSTEM_PANE)
    );
    assert!(selects_first(&list_item("a", false, false, CLIENT, false)));
    assert!(!selects_first(&list_item("a", false, false, CLIENT, true)));
    assert_eq!(sync_presence(true, false), Presence::Create);
    assert_eq!(sync_presence(false, true), Presence::Destroy);
    assert_eq!(sync_presence(true, true), Presence::Keep);
}

#[test]
fn only_files_that_may_be_copied_are_dropped() {
    assert_eq!(answer(DROPEFFECT_COPY | 2, true), DROPEFFECT_COPY);
    assert_eq!(answer(2, true), DROPEFFECT_NONE);
    assert_eq!(answer(DROPEFFECT_COPY, false), DROPEFFECT_NONE);
    let mut target = PanelTarget::new();
    assert!(!target.drag_over());
    assert!(!target.drag_enter(vec![]));
    assert!(target.drag_enter(vec!["C:\\a.md".to_owned()]) && target.drag_over());
    assert!(matches!(target.drop_on(Some(2)), Drop::Leave));
    assert!(!target.drag_over(), "forgotten");
    target.drag_enter(vec!["C:\\a.md".to_owned()]);
    assert!(matches!(
        target.drop_on(Some(DROPEFFECT_COPY)),
        Drop::Files(files) if files == ["C:\\a.md"]
    ));
    assert!(matches!(target.drop_on(Some(DROPEFFECT_COPY)), Drop::Leave));
    target.drag_enter(vec!["C:\\a.md".to_owned()]);
    assert!(matches!(target.drop_on(None), Drop::Leave));
    target.drag_enter(vec!["C:\\a.md".to_owned()]);
    target.drag_leave();
    assert!(!target.drag_over());
}
