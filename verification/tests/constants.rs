use fastpad::geometry::Point;
use fastpad::messages::{key_of, point_of, wheel_delta, words_of};
use fastpad::{messages, notebook_input, row_list, side_panel, sidebar_accessibility};
use windows_sys::Win32::System::SystemServices::MK_LBUTTON;
use windows_sys::Win32::UI::Accessibility::{
    NAVDIR_DOWN, NAVDIR_FIRSTCHILD, NAVDIR_LASTCHILD, NAVDIR_NEXT, NAVDIR_PREVIOUS, NAVDIR_UP,
    ROLE_SYSTEM_LIST, ROLE_SYSTEM_LISTITEM, ROLE_SYSTEM_OUTLINE, ROLE_SYSTEM_OUTLINEITEM,
    ROLE_SYSTEM_PANE, ROLE_SYSTEM_PUSHBUTTON, SELFLAG_TAKEFOCUS, SELFLAG_TAKESELECTION,
};
use windows_sys::Win32::UI::Controls::{EM_REPLACESEL, EM_UNDO, WM_MOUSELEAVE};
use windows_sys::Win32::UI::Input::KeyboardAndMouse::{
    VK_APPS, VK_BACK, VK_DELETE, VK_DOWN, VK_END, VK_ESCAPE, VK_F10, VK_F2, VK_HOME, VK_LEFT,
    VK_NEXT, VK_PRIOR, VK_RETURN, VK_RIGHT, VK_SPACE, VK_TAB, VK_UP,
};
use windows_sys::Win32::UI::WindowsAndMessaging::{
    EVENT_OBJECT_FOCUS, EVENT_OBJECT_NAMECHANGE, EVENT_OBJECT_REORDER, EVENT_OBJECT_SELECTION,
    EVENT_OBJECT_STATECHANGE, WHEEL_DELTA, WM_APP, WM_CAPTURECHANGED, WM_CHAR,
    WM_CLEAR, WM_COMMAND, WM_CONTEXTMENU, WM_CTLCOLOREDIT, WM_CUT, WM_ERASEBKGND, WM_GETOBJECT,
    WM_KEYDOWN, WM_KILLFOCUS, WM_LBUTTONDBLCLK, WM_LBUTTONDOWN, WM_LBUTTONUP, WM_MBUTTONDOWN,
    WM_MBUTTONUP, WM_MOUSEMOVE, WM_MOUSEWHEEL, WM_NCHITTEST, WM_PAINT, WM_PASTE, WM_RBUTTONDOWN,
    WM_RBUTTONUP, WM_SETCURSOR, WM_SETFOCUS, WM_SETTEXT, WM_SYSCHAR, WM_SYSKEYDOWN, WM_TIMER,
    WM_UNDO,
};

#[test]
fn the_messages_are_the_systems() {
    assert_eq!(messages::WM_SETTEXT, WM_SETTEXT);
    assert_eq!(messages::WM_PAINT, WM_PAINT);
    assert_eq!(messages::WM_CONTEXTMENU, WM_CONTEXTMENU);
    assert_eq!(messages::EM_UNDO, EM_UNDO);
    assert_eq!(messages::EM_REPLACESEL, EM_REPLACESEL);
    assert_eq!(messages::WM_KEYDOWN, WM_KEYDOWN);
    assert_eq!(messages::WM_CHAR, WM_CHAR);
    assert_eq!(messages::WM_SYSKEYDOWN, WM_SYSKEYDOWN);
    assert_eq!(messages::WM_SYSCHAR, WM_SYSCHAR);
    assert_eq!(messages::WM_TIMER, WM_TIMER);
    assert_eq!(messages::WM_MOUSEMOVE, WM_MOUSEMOVE);
    assert_eq!(messages::WM_LBUTTONDOWN, WM_LBUTTONDOWN);
    assert_eq!(messages::WM_LBUTTONUP, WM_LBUTTONUP);
    assert_eq!(messages::WM_LBUTTONDBLCLK, WM_LBUTTONDBLCLK);
    assert_eq!(messages::WM_RBUTTONDOWN, WM_RBUTTONDOWN);
    assert_eq!(messages::WM_RBUTTONUP, WM_RBUTTONUP);
    assert_eq!(messages::WM_MBUTTONDOWN, WM_MBUTTONDOWN);
    assert_eq!(messages::WM_MBUTTONUP, WM_MBUTTONUP);
    assert_eq!(messages::WM_MOUSEWHEEL, WM_MOUSEWHEEL);
    assert_eq!(messages::WM_CAPTURECHANGED, WM_CAPTURECHANGED);
    assert_eq!(messages::WM_MOUSELEAVE, WM_MOUSELEAVE);
    assert_eq!(messages::WM_CUT, WM_CUT);
    assert_eq!(messages::WM_PASTE, WM_PASTE);
    assert_eq!(messages::WM_CLEAR, WM_CLEAR);
    assert_eq!(messages::WM_UNDO, WM_UNDO);
    assert_eq!(side_panel::WM_SETFOCUS, WM_SETFOCUS);
    assert_eq!(side_panel::WM_KILLFOCUS, WM_KILLFOCUS);
    assert_eq!(side_panel::WM_ERASEBKGND, WM_ERASEBKGND);
    assert_eq!(side_panel::WM_SETCURSOR, WM_SETCURSOR);
    assert_eq!(side_panel::WM_GETOBJECT, WM_GETOBJECT);
    assert_eq!(side_panel::WM_NCHITTEST, WM_NCHITTEST);
    assert_eq!(side_panel::WM_COMMAND, WM_COMMAND);
    assert_eq!(side_panel::WM_CTLCOLOREDIT, WM_CTLCOLOREDIT);
    assert_eq!(
        sidebar_accessibility::WM_FASTPAD_SIDEBAR_ACCESSIBLE,
        WM_APP + 0x60
    );
    assert_eq!(sidebar_accessibility::WM_FASTPAD_SIDEBAR_ACTION, WM_APP + 0x61);
    assert_eq!(notebook_input::MK_LBUTTON, MK_LBUTTON as usize);
}

#[test]
fn the_keys_are_the_systems() {
    assert_eq!(messages::VK_BACK, u32::from(VK_BACK));
    assert_eq!(messages::VK_TAB, u32::from(VK_TAB));
    assert_eq!(messages::VK_RETURN, u32::from(VK_RETURN));
    assert_eq!(messages::VK_ESCAPE, u32::from(VK_ESCAPE));
    assert_eq!(messages::VK_SPACE, u32::from(VK_SPACE));
    assert_eq!(messages::VK_LEFT, u32::from(VK_LEFT));
    assert_eq!(messages::VK_RIGHT, u32::from(VK_RIGHT));
    assert_eq!(messages::VK_DELETE, u32::from(VK_DELETE));
    assert_eq!(messages::VK_APPS, u32::from(VK_APPS));
    assert_eq!(messages::VK_F2, u32::from(VK_F2));
    assert_eq!(messages::VK_F10, u32::from(VK_F10));
    assert_eq!(row_list::VK_UP, u32::from(VK_UP));
    assert_eq!(row_list::VK_DOWN, u32::from(VK_DOWN));
    assert_eq!(row_list::VK_HOME, u32::from(VK_HOME));
    assert_eq!(row_list::VK_END, u32::from(VK_END));
    assert_eq!(row_list::VK_PRIOR, u32::from(VK_PRIOR));
    assert_eq!(row_list::VK_NEXT, u32::from(VK_NEXT));
    assert_eq!(row_list::WHEEL_DELTA as i64, WHEEL_DELTA as i64);
    assert_eq!(row_list::WHEEL_PAGESCROLL, u32::MAX);
}

#[test]
fn the_roles_and_events_are_the_systems() {
    assert_eq!(sidebar_accessibility::ROLE_SYSTEM_PANE, ROLE_SYSTEM_PANE);
    assert_eq!(sidebar_accessibility::ROLE_SYSTEM_LIST, ROLE_SYSTEM_LIST);
    assert_eq!(sidebar_accessibility::ROLE_SYSTEM_LISTITEM, ROLE_SYSTEM_LISTITEM);
    assert_eq!(sidebar_accessibility::ROLE_SYSTEM_OUTLINE, ROLE_SYSTEM_OUTLINE);
    assert_eq!(sidebar_accessibility::ROLE_SYSTEM_OUTLINEITEM, ROLE_SYSTEM_OUTLINEITEM);
    assert_eq!(sidebar_accessibility::ROLE_SYSTEM_PUSHBUTTON, ROLE_SYSTEM_PUSHBUTTON);
    assert_eq!(sidebar_accessibility::EVENT_OBJECT_REORDER, EVENT_OBJECT_REORDER);
    assert_eq!(sidebar_accessibility::EVENT_OBJECT_FOCUS, EVENT_OBJECT_FOCUS);
    assert_eq!(sidebar_accessibility::EVENT_OBJECT_SELECTION, EVENT_OBJECT_SELECTION);
    assert_eq!(sidebar_accessibility::EVENT_OBJECT_STATECHANGE, EVENT_OBJECT_STATECHANGE);
    assert_eq!(sidebar_accessibility::EVENT_OBJECT_NAMECHANGE, EVENT_OBJECT_NAMECHANGE);
    assert_eq!(sidebar_accessibility::NAVDIR_UP, NAVDIR_UP);
    assert_eq!(sidebar_accessibility::NAVDIR_DOWN, NAVDIR_DOWN);
    assert_eq!(sidebar_accessibility::NAVDIR_NEXT, NAVDIR_NEXT);
    assert_eq!(sidebar_accessibility::NAVDIR_PREVIOUS, NAVDIR_PREVIOUS);
    assert_eq!(sidebar_accessibility::NAVDIR_FIRSTCHILD, NAVDIR_FIRSTCHILD);
    assert_eq!(sidebar_accessibility::NAVDIR_LASTCHILD, NAVDIR_LASTCHILD);
    assert_eq!(sidebar_accessibility::SELFLAG_TAKEFOCUS, SELFLAG_TAKEFOCUS);
    assert_eq!(sidebar_accessibility::SELFLAG_TAKESELECTION, SELFLAG_TAKESELECTION);
}

#[test]
fn a_packed_point_is_read_back_with_its_signs() {
    for (x, y) in [(0, 0), (10, 20), (-1, 5), (32_767, -32_768)] {
        let words = words_of(Point { x, y });
        assert_eq!(point_of(words as isize), Point { x, y });
    }
    assert_eq!(words_of(Point { x: -1, y: 2 }), 0x0002_ffff);
    assert_eq!(wheel_delta(0xff88_0000), -120);
    assert_eq!(wheel_delta(0x0078_0004), 120);
    assert_eq!(key_of(0x0001_0025), 0x25);
}
