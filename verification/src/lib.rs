//! The window logic of FastPad, a notes editor with a side panel: tabs, notifications, palettes,
//! virtual row lists, the Notebook and Search views, text search and replace, the Markdown
//! preview, and what screen readers are told. Every part is plain data and functions on it; the
//! program around the library owns the windows, the disk and the clock.

pub mod accessibility_laws;
pub mod children_laws;
pub mod document;
pub mod drawing;
pub mod geometry;
pub mod item_icon;
pub mod list_paint;
pub mod messages;
pub mod notebook_action_laws;
pub mod notebook_actions;
pub mod notebook_children;
pub mod notebook_drag;
pub mod notebook_hits;
pub mod notebook_input;
pub mod notebook_key_laws;
pub mod notebook_keys;
pub mod notebook_laws;
pub mod notebook_paint;
pub mod notebook_snapshot;
pub mod notebook_view;
pub mod notification;
pub mod open_editors;
pub mod option_toggles;
pub mod order_laws;
pub mod paint_laws;
pub mod palette;
pub mod palette_laws;
pub mod panel;
pub mod panel_cursor;
pub mod panel_drop;
pub mod panel_laws;
pub mod paths;
pub mod paths_laws;
pub mod preview_host;
pub mod preview_laws;
pub mod replace_laws;
pub mod row_list;
pub mod row_list_laws;
pub mod search_action_laws;
pub mod search_actions;
pub mod search_children;
pub mod search_hits;
pub mod search_host_laws;
pub mod search_laws;
pub mod search_lines;
pub mod search_paint;
pub mod search_view;
pub mod select;
pub mod side_panel;
pub mod side_panel_laws;
pub mod sidebar_accessibility;
pub mod status;
pub mod tabs;
pub mod tabs_edit_laws;
pub mod tabs_laws;
pub mod text;
pub mod text_replace;
pub mod text_search;
pub mod theme;
pub mod tree;
pub mod tree_paint;
pub mod view_laws;
