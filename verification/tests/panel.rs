use fastpad::palette::Palette;
use fastpad::side_panel::{
    accessible_generation, bar_views_changed, drag_width_96, sidebar_widths, PanelView,
    SidebarView,
};

#[test]
fn the_panel_gives_way_before_the_editor_minimum_and_scales_with_dpi() {
    assert_eq!(sidebar_widths(1280, 96, true, 260), (44, 260));
    assert_eq!(sidebar_widths(1280, 96, false, 260), (44, 0));
    assert_eq!(sidebar_widths(1920, 144, true, 260), (66, 390));
    assert_eq!(sidebar_widths(600, 96, true, 260), (44, 236));
    assert_eq!(sidebar_widths(300, 96, true, 260), (44, 0));
    assert_eq!(sidebar_widths(20, 96, true, 260), (20, 0));
    assert_eq!(sidebar_widths(-5, 96, true, 260), (0, 0));
    // A hand-edited width outside the range is clamped, never trusted.
    assert_eq!(sidebar_widths(1280, 96, true, 100), (44, 180));
    assert_eq!(sidebar_widths(1280, 96, true, 900), (44, 480));
}

#[test]
fn a_dragged_width_is_stored_at_96_dpi_inside_the_range() {
    assert_eq!(drag_width_96(300, 96), 300);
    assert_eq!(drag_width_96(390, 144), 260);
    assert_eq!(drag_width_96(100, 96), 180);
    assert_eq!(drag_width_96(-40, 96), 180);
    assert_eq!(drag_width_96(2000, 96), 480);
}

#[test]
fn the_panel_shade_sits_between_the_strip_and_the_editor() {
    let palette = Palette {
        strip_background: 0x0020_4060,
        editor_background: 0x00a0_c0e0,
        ..Palette::neutral()
    };
    assert_eq!(palette.panel_background(), 0x0060_80a0);
}

#[test]
fn the_panel_shade_of_one_color_is_that_color() {
    let shade = |strip, editor| {
        Palette { strip_background: strip, editor_background: editor, ..Palette::neutral() }
            .panel_background()
    };
    assert_eq!(shade(0x00ff_ffff, 0x00ff_ffff), 0x00ff_ffff);
    assert_eq!(shade(0x0001_0101, 0x0001_0101), 0x0001_0101);
    assert_eq!(shade(0x00ff_0003, 0x0000_0004), 0x007f_0003);
    assert_eq!(shade(0x0000_0004, 0x00ff_0003), 0x007f_0003);
}

#[test]
fn every_open_view_has_a_panel_view_and_a_header_title() {
    assert_eq!(PanelView::of(SidebarView::Notebook), Some(PanelView::Notebook));
    assert_eq!(PanelView::of(SidebarView::Search), Some(PanelView::Search));
    assert_eq!(PanelView::of(SidebarView::Favorites), Some(PanelView::Favorites));
    assert_eq!(PanelView::of(SidebarView::Hidden), None);
}

#[test]
fn a_drag_to_where_a_stored_width_lies_stores_it_again() {
    for dpi in [96, 120, 144, 168, 192, 240] {
        for width in [180, 181, 260, 333, 480] {
            let (bar, panel) = sidebar_widths(4_000, dpi, true, width);
            assert!(bar > 0);
            assert_eq!(drag_width_96(panel, dpi), width);
        }
    }
}

#[test]
fn a_view_change_tells_both_buttons_and_the_views_count_apart() {
    assert_eq!(bar_views_changed(SidebarView::Search, SidebarView::Search), Vec::<usize>::new());
    assert_eq!(bar_views_changed(SidebarView::Hidden, SidebarView::Notebook).len(), 1);
    assert_eq!(bar_views_changed(SidebarView::Search, SidebarView::Notebook).len(), 2);
    assert_ne!(
        accessible_generation(SidebarView::Search, 9),
        accessible_generation(SidebarView::Notebook, 9)
    );
    assert_ne!(
        accessible_generation(SidebarView::Search, 9),
        accessible_generation(SidebarView::Search, 10)
    );
}
