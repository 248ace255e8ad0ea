//! The messages the Notebook view takes, and what the pointer and the wheel do there.

use crate::document::DocumentId;
use crate::geometry::{contains, height, Point};
use crate::messages::{
    key_of, point_of, wheel_delta, WM_CAPTURECHANGED, WM_CHAR, WM_CONTEXTMENU, WM_KEYDOWN,
    WM_LBUTTONDBLCLK, WM_LBUTTONDOWN, WM_LBUTTONUP, WM_MBUTTONDOWN, WM_MBUTTONUP, WM_MOUSELEAVE,
    WM_MOUSEMOVE, WM_MOUSEWHEEL, WM_RBUTTONDOWN, WM_RBUTTONUP, WM_TIMER,
};
use crate::notebook_view::{Frame, Hit, NotebookView, RowPart};
use vstd::prelude::*;

verus! {

/// The timer of a drag under way.
pub const DRAG_TIMER: usize = 0x4452;

/// The left button's bit in a mouse message's keys.
pub const MK_LBUTTON: usize = 1;

/// A message, read.
#[derive(Clone, Copy, Debug, PartialEq, Eq, Structural)]
pub enum Input {
    /// The pointer moved; `left` while the left button is down.
    Move { at: Point, left: bool },
    /// The second press of a double-click.
    DoublePress(Point),
    Leave,
    Press(Point),
    MiddlePress(Point),
    MiddleRelease(Point),
    Release(Point),
    CaptureChanged,
    RightPress(Point),
    RightRelease,
    /// A menu is wanted: at a point of the screen, or from the keyboard.
    Menu(Option<Point>),
    DragTick,
    /// A key or a letter while a drag is under way, which owns the keyboard until it ends.
    Swallowed,
    Key(u32),
    /// A letter, by its code.
    Letter(u32),
    Wheel(i32),
    /// Not the view's.
    Other,
}

/// A code is a letter's: a Unicode scalar value that is no control character.
pub open spec fn is_letter(code: u32) -> bool {
    &&& code < 0xD800 || 0xE000 <= code <= 0x10_FFFF
    &&& !(code < 0x20 || 0x7F <= code <= 0x9F)
}

fn letter(code: u32) -> (is: bool)
    ensures
        is == is_letter(code),
{
    (code < 0xD800 || (0xE000 <= code && code <= 0x10_FFFF)) && !(code < 0x20 || (0x7F <= code
        && code <= 0x9F))
}

/// What a message says.
pub open spec fn input_of(message: u32, wparam: usize, lparam: isize, dragging: bool) -> Input {
    let at = crate::messages::point_in(lparam);
    if message == WM_MOUSEMOVE {
        Input::Move { at, left: wparam % 2 == MK_LBUTTON }
    } else if message == WM_LBUTTONDBLCLK {
        Input::DoublePress(at)
    } else if message == WM_MOUSELEAVE {
        Input::Leave
    } else if message == WM_LBUTTONDOWN {
        Input::Press(at)
    } else if message == WM_MBUTTONDOWN {
        Input::MiddlePress(at)
    } else if message == WM_MBUTTONUP {
        Input::MiddleRelease(at)
    } else if message == WM_LBUTTONUP {
        Input::Release(at)
    } else if message == WM_CAPTURECHANGED {
        Input::CaptureChanged
    } else if message == WM_RBUTTONDOWN {
        Input::RightPress(at)
    } else if message == WM_RBUTTONUP {
        Input::RightRelease
    } else if message == WM_CONTEXTMENU {
        Input::Menu(
            if (lparam as u32) == u32::MAX {
                None
            } else {
                Some(at)
            },
        )
    } else if message == WM_TIMER && wparam == DRAG_TIMER {
        Input::DragTick
    } else if (message == WM_KEYDOWN || message == WM_CHAR) && dragging {
        Input::Swallowed
    } else if message == WM_KEYDOWN {
        Input::Key(crate::messages::low_word(wparam))
    } else if message == WM_CHAR && is_letter(wparam as u32) {
        Input::Letter(wparam as u32)
    } else if message == WM_MOUSEWHEEL {
        Input::Wheel(crate::messages::wheel_turn(wparam) as i32)
    } else {
        Input::Other
    }
}

/// Reads a message; `dragging` is set while a drag is under way.
pub fn decode(message: u32, wparam: usize, lparam: isize, dragging: bool) -> (input: Input)
    ensures
        input == input_of(message, wparam, lparam, dragging),
{
    match message {
        WM_MOUSEMOVE => Input::Move { at: point_of(lparam), left: wparam % 2 == MK_LBUTTON },
        WM_LBUTTONDBLCLK => Input::DoublePress(point_of(lparam)),
        WM_MOUSELEAVE => Input::Leave,
        WM_LBUTTONDOWN => Input::Press(point_of(lparam)),
        WM_MBUTTONDOWN => Input::MiddlePress(point_of(lparam)),
        WM_MBUTTONUP => Input::MiddleRelease(point_of(lparam)),
        WM_LBUTTONUP => Input::Release(point_of(lparam)),
        WM_CAPTURECHANGED => Input::CaptureChanged,
        WM_RBUTTONDOWN => Input::RightPress(point_of(lparam)),
        WM_RBUTTONUP => Input::RightRelease,
        WM_CONTEXTMENU => Input::Menu(
            if lparam as u32 == u32::MAX {
                None
            } else {
                Some(point_of(lparam))
            },
        ),
        WM_TIMER => if wparam == DRAG_TIMER {
            Input::DragTick
        } else {
            Input::Other
        },
        WM_KEYDOWN => if dragging {
            Input::Swallowed
        } else {
            Input::Key(key_of(wparam))
        },
        WM_CHAR => if dragging {
            Input::Swallowed
        } else if letter(wparam as u32) {
            Input::Letter(wparam as u32)
        } else {
            Input::Other
        },
        WM_MOUSEWHEEL => Input::Wheel(wheel_delta(wparam)),
        _ => Input::Other,
    }
}

/// What a move of the pointer did.
#[derive(Clone, Copy, Debug, PartialEq, Eq, Structural)]
pub enum Moved {
    /// The grabbed thumb followed.
    Thumb { scrolled: bool },
    /// What is hovered; repaint and set the tooltips where it changed.
    Hover { changed: bool },
}

/// What a turn of the wheel scrolled.
#[derive(Clone, Copy, Debug, PartialEq, Eq, Structural)]
pub enum Wheeled {
    Editors { moved: bool },
    Tree { moved: bool },
}

impl NotebookView {
    /// The view with the pointer on `hit`.
    pub open spec fn pointing(self, hit: Hit) -> NotebookView {
        NotebookView {
            list: self.list.hovering(
                match hit {
                    Hit::Row { index, .. } => Some(index),
                    _ => None,
                },
            ),
            hover_pin: hit matches Hit::Row { part, .. } && part == RowPart::Pin,
            editors: crate::open_editors::OpenEditors {
                list: self.editors.list.hovering(
                    match hit {
                        Hit::Editor { index, .. } => Some(index),
                        _ => None,
                    },
                ),
                hover_close: hit matches Hit::Editor { close, .. } && close,
                ..self.editors
            },
            hover: match hit {
                Hit::Header(_) => Some(hit),
                Hit::StateButton => Some(hit),
                Hit::SecondButton => Some(hit),
                Hit::EditorsHeader => Some(hit),
                Hit::Root => Some(hit),
                _ => None,
            },
            ..self
        }
    }

    fn point(&mut self, hit: Hit) -> (changed: bool)
        requires
            old(self).wf(),
        ensures
            final(self).wf(),
            *final(self) == old(self).pointing(hit),
            changed == (final(self).list.hover != old(self).list.hover
                || final(self).editors.list.hover != old(self).editors.list.hover
                || final(self).hover_pin != old(self).hover_pin
                || final(self).editors.hover_close != old(self).editors.hover_close
                || final(self).hover != old(self).hover),
    {
        let (row, pin): (Option<usize>, bool) = match hit {
            Hit::Row { index, part } => (Some(index), part == RowPart::Pin),
            _ => (None, false),
        };
        let (editor, close): (Option<usize>, bool) = match hit {
            Hit::Editor { index, close } => (Some(index), close),
            _ => (None, false),
        };
        let hot: Option<Hit> = match hit {
            Hit::Header(_) | Hit::StateButton | Hit::SecondButton | Hit::EditorsHeader | Hit::Root => {
                Some(hit)
            },
            _ => None,
        };
        let row_changed: bool = self.list.set_hover(row);
        let editor_changed: bool = self.editors.list.set_hover(editor);
        let hover_changed: bool = match (self.hover, hot) {
            (Some(a), Some(b)) => a != b,
            (None, None) => false,
            _ => true,
        };
        let changed: bool = row_changed || editor_changed || self.hover_pin != pin
            || self.editors.hover_close != close || hover_changed;
        self.hover_pin = pin;
        self.editors.hover_close = close;
        self.hover = hot;
        changed
    }

    /// The view after the pointer moved to a point.
    pub open spec fn moving(self, frame: Frame, at: Point) -> NotebookView {
        match self.thumb_grab {
            Some(grab) => {
                let area = self.area(frame);
                NotebookView {
                    list: self.list.thumb_dragged(grab as int, at.y - area.top, area.tall()),
                    ..self
                }
            },
            None => self.pointing(self.hit(frame, at)),
        }
    }

    /// The pointer moved with no drag under way: a grabbed thumb follows it, else what it is on is
    /// hovered.
    pub fn mouse_move(&mut self, frame: &Frame, at: Point) -> (moved: Moved)
        requires
            old(self).wf(),
            frame.wf(),
            crate::notebook_view::near(at),
        ensures
            final(self).wf(),
            *final(self) == old(self).moving(*frame, at),
            match old(self).thumb_grab {
                Some(_) => moved == Moved::Thumb {
                    scrolled: final(self).list.top != old(self).list.top,
                },
                None => moved == Moved::Hover {
                    changed: final(self).list.hover != old(self).list.hover
                        || final(self).editors.list.hover != old(self).editors.list.hover
                        || final(self).hover_pin != old(self).hover_pin
                        || final(self).editors.hover_close != old(self).editors.hover_close
                        || final(self).hover != old(self).hover,
                },
            },
    {
        if let Some(grab) = self.thumb_grab {
            let area = self.list_area(frame);
            let scrolled: bool = self.list.drag_thumb(grab, at.y - area.top, height(area));
            return Moved::Thumb { scrolled };
        }
        let hit: Hit = self.hit_test(frame, at);
        let changed: bool = self.point(hit);
        Moved::Hover { changed }
    }

    /// The view with the pointer gone.
    pub open spec fn unpointed(self) -> NotebookView {
        NotebookView { tracking_leave: false, ..self.pointing(Hit::Empty) }
    }

    /// The pointer left the panel: nothing is hovered.
    pub fn mouse_leave(&mut self)
        requires
            old(self).wf(),
        ensures
            final(self).wf(),
            *final(self) == old(self).unpointed(),
    {
        self.tracking_leave = false;
        self.list.hover = None;
        self.editors.list.hover = None;
        self.editors.hover_close = false;
        self.hover = None;
        self.hover_pin = false;
    }

    /// The tab whose row is at a point.
    pub open spec fn tab_at(self, frame: Frame, at: Point) -> Option<DocumentId> {
        match self.hit(frame, at) {
            Hit::Editor { index, .. } => Some(self.editors.rows@[index as int].id),
            _ => None,
        }
    }

    fn tab_under(&self, frame: &Frame, at: Point) -> (id: Option<DocumentId>)
        requires
            self.wf(),
            frame.wf(),
            crate::notebook_view::near(at),
        ensures
            id == self.tab_at(*frame, at),
    {
        proof {
            self.hits_are_rows(*frame, at);
        }
        match self.hit_test(frame, at) {
            Hit::Editor { index, close: _ } => Some(self.editors.rows[index].id),
            _ => None,
        }
    }

    /// A middle press remembers the tab it is on.
    pub fn middle_down(&mut self, frame: &Frame, at: Point)
        requires
            old(self).wf(),
            frame.wf(),
            crate::notebook_view::near(at),
        ensures
            final(self).wf(),
            *final(self) == (NotebookView {
                middle_press: old(self).tab_at(*frame, at),
                ..*old(self)
            }),
    {
        self.middle_press = self.tab_under(frame, at);
    }

    /// The tab that a middle release at a point closes.
    pub open spec fn closed_by_release(self, frame: Frame, at: Point) -> Option<DocumentId> {
        if self.middle_press == self.tab_at(frame, at) {
            self.middle_press
        } else {
            None
        }
    }

    /// A middle release on the tab that was pressed: the tab to close.
    pub fn middle_up(&mut self, frame: &Frame, at: Point) -> (closes: Option<DocumentId>)
        requires
            old(self).wf(),
            frame.wf(),
            crate::notebook_view::near(at),
        ensures
            final(self).wf(),
            *final(self) == (NotebookView { middle_press: None, ..*old(self) }),
            closes == old(self).closed_by_release(*frame, at),
    {
        let pressed: Option<DocumentId> = self.middle_press;
        self.middle_press = None;
        let released: Option<DocumentId> = self.tab_under(frame, at);
        match (pressed, released) {
            (Some(pressed), Some(released)) => if pressed == released {
                Some(pressed)
            } else {
                None
            },
            _ => None,
        }
    }

    /// The left button's release with no drag under way. Whether the thumb was grabbed: the
    /// capture is then to be released.
    pub fn release_thumb(&mut self) -> (grabbed: bool)
        ensures
            grabbed == (old(self).thumb_grab is Some),
            *final(self) == (NotebookView { thumb_grab: None, ..*old(self) }),
    {
        let grabbed: bool = self.thumb_grab.is_some();
        self.thumb_grab = None;
        grabbed
    }

    /// The view after a turn of the wheel, and what scrolled.
    pub open spec fn turned(self, delta: int, lines: u32, pointer: Point, frame: Frame) -> (
        NotebookView,
        Wheeled,
    ) {
        let editors = frame.layout.editors_list;
        if editors.has(pointer.x as int, pointer.y as int) {
            let list = self.editors.list.wheeled(delta, lines, editors.tall());
            (
                NotebookView {
                    editors: crate::open_editors::OpenEditors { list, ..self.editors },
                    ..self
                },
                Wheeled::Editors { moved: list.top != self.editors.list.top },
            )
        } else {
            let list = self.list.wheeled(delta, lines, self.page_height(frame));
            (NotebookView { list, ..self }, Wheeled::Tree { moved: list.top != self.list.top })
        }
    }

    /// A turn of the wheel: over the Open Editors rows the section scrolls; anywhere else the tree
    /// does. `lines` is how many a notch scrolls.
    pub fn wheel(&mut self, delta: i32, lines: u32, pointer: Point, frame: &Frame) -> (wheeled: Wheeled)
        requires
            old(self).wf(),
            frame.wf(),
        ensures
            final(self).wf(),
            (*final(self), wheeled) == old(self).turned(delta as int, lines, pointer, *frame),
    {
        let editors = frame.layout.editors_list;
        if contains(editors, pointer.x, pointer.y) {
            let moved: bool = self.editors.list.wheel(delta, lines, height(editors));
            return Wheeled::Editors { moved };
        }
        let tall: i32 = self.list_height(frame);
        let moved: bool = self.list.wheel(delta, lines, tall);
        Wheeled::Tree { moved }
    }
}

} // verus!
